//! The engine: catalog texts, the store and its markers, the install pipeline.

pub mod api;
pub mod descriptor;
pub mod env;
pub mod install;
pub mod layout;
pub mod steps;
