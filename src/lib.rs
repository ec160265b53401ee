//! Deploys a tree of personal configuration files into a home directory:
//! selects entries, tells templates from opaque files, renders templates
//! against layered settings and decides where each file lands.
pub mod paths;
pub mod entry;
pub mod settings;
pub mod render;
pub mod engine;
pub mod config;
pub mod packages;
pub mod logging;
