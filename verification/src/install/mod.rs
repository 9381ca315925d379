//! The install of an instance: the game's files, the Java runtime and the
//! mod loader.

pub mod authlib_injector;
pub mod fabric;
pub mod forge;
pub mod java;
pub mod neoforged;
pub mod pipeline;
pub mod quilt;
pub mod vanilla;
