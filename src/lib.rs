//! Project scaffolding from templates: placeholder interpolation, conditional
//! file operations, template resolution and the bootstrap pipeline, each
//! stated with contracts and verified.

pub mod bootstrap;
pub mod config;
pub mod errors;
pub mod interpolation;
pub mod local;
pub mod logger;
pub mod op;
pub mod resolver;
pub mod template;
