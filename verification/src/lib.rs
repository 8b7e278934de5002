//! Command-line decisions of the nanopi coding agent: how the arguments,
//! the environment and the configuration files combine into the settings
//! of one run, with each rule stated and proved.

pub mod cli;
pub mod paths;
pub mod provider;
pub mod settings;
pub mod text;
