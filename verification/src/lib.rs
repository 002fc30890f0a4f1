//! A client for the Telegram bot API: request encoding, response envelopes,
//! and the long-polling listener that acknowledges what it has handled.

pub mod api;
pub mod config;
pub mod error;
pub mod telegram;
