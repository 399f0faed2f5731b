//! Coordination core of a chat bot: a shared kernel with a one-shot shutdown
//! signal, the supervision of gateway connections, a health monitor for a
//! remote game server and the alerts that it raises.
//!
//! The library decides and the program around it performs: every step of a
//! supervisor, of the monitor or of the HTTP interface is a function from the
//! present state and what just happened to the next state and what to do,
//! with a contract that says which. The network work, the timers and the
//! tasks are the program's.

pub mod bot;
pub mod cmd_schema;
pub mod config;
pub mod env_vars;
pub mod id;
pub mod kernel;
pub mod log;
pub mod paradise;
pub mod sentry;
pub mod services;
pub mod text;
pub mod util;
pub mod views;
