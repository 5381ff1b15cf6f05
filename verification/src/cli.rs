//! The command line: what it asks for, and what is printed.

pub mod host;
pub mod job;
pub mod laws;
pub mod printed;
pub mod tables;
pub mod task;
