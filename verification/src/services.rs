//! The long-running services of the bot.

pub mod bot;
pub mod paradise;
