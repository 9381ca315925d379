//! Version descriptors and their resolution into a flat runtime manifest.

pub mod argument;
pub mod checks;
pub mod library;
pub mod model;
pub mod resolve;
