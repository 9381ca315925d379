//! The launch of an instance: its options, its command line, its script and
//! the completion of its files.

pub mod arguments;
pub mod complete;
pub mod options;
pub mod script;
pub mod template;
