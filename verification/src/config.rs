//! Configuration that does not belong to the kernel.

pub mod sentry;

pub use sentry::{SentryConfig, SentryEnv, SentryEnvParseError};
