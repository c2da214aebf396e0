//! Entities, components and the queries over them.

pub mod component;
pub mod error;
pub mod preserve;
pub mod scene;
pub mod system;
pub mod theorems;
pub mod mask;
pub mod model;
