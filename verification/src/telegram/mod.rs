//! The chat side of the bot: messages, commands and replies.

pub mod base_bot;
pub mod commands;
pub mod views;
pub mod whosin;
