//! Project context for a local development-environment tool: finding the
//! project root, merging its settings, deciding whether a command needs the
//! container backend, checking the project's container topology and choosing
//! the service a command runs in.

pub mod app_config;
pub mod commands;
pub mod docker_compose;
pub mod exec;
pub mod path;
pub mod project;
