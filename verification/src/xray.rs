//! The Xray server: its files, its commands and its answers.

pub mod types;
pub mod routing;
pub mod steps;
pub mod table;
pub mod laws;
pub mod commands;
pub mod answers;
pub mod urls;
pub mod users;
pub mod client;
