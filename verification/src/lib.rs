//! Decision and message-building core of a bot that follows Team Vitality's
//! Counter-Strike matches and announces them on Telegram.

pub mod api;
pub mod clock;
pub mod config;
pub mod cycle;
pub mod model;
pub mod notifications;
pub mod poll;
pub mod text;
