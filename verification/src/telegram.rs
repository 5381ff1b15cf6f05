//! The Telegram bot.
//!
//! The administrator is set when the bot is deployed. Nobody else can use it.

pub mod answers;
pub mod keyboards;
pub mod laws;
pub mod talk;
pub mod texts;
