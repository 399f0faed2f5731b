//! What the bot sends to the community.

pub mod sanctuary;
