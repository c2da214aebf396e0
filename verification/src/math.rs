//! Small vectors over any number type.

pub mod vectors;
