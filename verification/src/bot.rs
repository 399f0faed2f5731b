//! The bot's side of a gateway connection.

pub mod context;
pub mod shard;

pub use context::Context;
