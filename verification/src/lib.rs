//! Install and launch core of a Minecraft launcher: version resolution,
//! download planning, installer decisions, account stores and command-line
//! construction, with machine-checked contracts.

pub mod account;
pub mod config;
pub mod decimal;
pub mod download;
pub mod error;
pub mod folder;
pub mod install;
pub mod instance;
pub mod json;
pub mod launch;
pub mod named;
pub mod outside;
pub mod platform;
pub mod text;
pub mod version;
