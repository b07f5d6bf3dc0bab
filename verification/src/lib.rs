//! Provisioning of a Python runtime: strategy choice, catalog handling,
//! artifact selection, build planning and virtual environment wiring.
//!
//! The library decides and the host acts: see [`protocol`].

pub mod build_tool;
pub mod cache;
pub mod catalog;
pub mod feed;
pub mod install;
pub mod packages;
pub mod platform;
pub mod plugin;
pub mod precompiled;
pub mod protocol;
pub mod settings;
pub mod target;
pub mod text;
pub mod venv;
pub mod versions;
