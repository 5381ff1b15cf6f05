//! Administration of an Xray VPN server that runs in a container.

pub mod app;
pub mod backend;
pub mod bridge_client;
pub mod bridge_config;
pub mod cli;
pub mod config;
pub mod decimal;
pub mod deploy;
pub mod display;
pub mod error;
pub mod http_agent;
pub mod json;
pub mod order;
pub mod seqs;
pub mod telegram;
pub mod text;
pub mod ui;
pub mod work;
pub mod xray;
