//! Events and the callbacks that wait for them.

pub mod event_manager;
