//! The Paradise community: the game server that is watched for it, the
//! alerts that are sent to it and the HTTP interface that triggers them.

pub mod api;
pub mod bot;
pub mod config;
pub mod service;

pub use config::Config;
pub use service::Service;
