//! The launcher's configuration with its defaults.

pub mod download;
pub mod instance;
pub mod launch;
pub mod settings;
