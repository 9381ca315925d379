//! The download engine's decisions: which files to fetch, from which
//! mirror, in which chunks, and when a transfer counts as done.

pub mod chunk;
pub mod engine;
pub mod mirror;
pub mod model;
pub mod retry;
pub mod speed;
pub mod task;
