//! Whether errors are reported, and with which options.

use crate::config::sentry::SentryConfigView as EnvConfigView;
use crate::env_vars::ReadVarError;
use crate::kernel::config::sentry::{SentryConfigLoadError, SentryConfigView};
use crate::log::Level;
use vstd::prelude::*;
use vstd::string::*;

verus! {

/// How sessions are counted in reports.
#[derive(Debug, Clone, Copy, PartialEq, Eq)]
pub enum SessionMode {
    /// One session for each run of the program.
    Application,
    /// One session for each request that is served.
    Request,
}

/// The options that error reporting starts with. The name of the release
/// is left to the program, which knows it from its build. The address holds
/// a secret, so there is no `Debug` form.
pub struct ClientOptions<D, R> {
    /// Where errors are reported to.
    pub dsn: Option<D>,
    /// The name of the environment that reports are filed under.
    pub environment: Option<String>,
    /// How sessions are counted.
    pub session_mode: SessionMode,
    /// The share of traces that is sampled.
    pub traces_sample_rate: R,
}

/// What is decided about error reporting at startup.
pub enum Init<D, R> {
    /// No address is configured: nothing is reported.
    Disabled,
    /// The configuration could not be read: nothing is reported.
    Unreadable,
    /// Errors are reported, with these options.
    Enabled(ClientOptions<D, R>),
}

impl<D, R> Init<D, R> {
    /// The level at which the decision is logged: a configuration that
    /// could not be read is a warning, the rest is information.
    pub fn level(&self) -> (level: Level)
        ensures
            level == if self is Unreadable {
                Level::Warn
            } else {
                Level::Info
            },
    {
        match self {
            Init::Unreadable => Level::Warn,
            _ => Level::Info,
        }
    }

    /// The line that says what was decided.
    pub fn line(&self) -> (line: String)
        ensures
            line@ == match self {
                Init::Disabled => "Sentry integration is disabled"@,
                Init::Unreadable => "Failed to read Sentry configuration from environment"@,
                Init::Enabled(_) => "Sentry integration is enabled"@,
            },
    {
        match self {
            Init::Disabled => "Sentry integration is disabled".to_owned(),
            Init::Unreadable => "Failed to read Sentry configuration from environment".to_owned(),
            Init::Enabled(_) => "Sentry integration is enabled".to_owned(),
        }
    }

    /// The options to start error reporting with, if it is to start.
    pub fn into_options(self) -> (options: Option<ClientOptions<D, R>>)
        ensures
            options == match self {
                Init::Enabled(options) => Some(options),
                _ => None,
            },
    {
        match self {
            Init::Enabled(options) => Some(options),
            _ => None,
        }
    }
}

/// Whether `options` are those that a configuration with this address,
/// environment name and rate asks for: sessions are counted by request.
pub open spec fn options_for<D, R>(
    options: ClientOptions<D, R>,
    dsn: D,
    environment: Seq<char>,
    traces_sample_rate: R,
) -> bool {
    &&& options.dsn == Some(dsn)
    &&& options.environment matches Some(name) && name@ == environment
    &&& options.session_mode == SessionMode::Request
    &&& options.traces_sample_rate == traces_sample_rate
}

/// Decides at startup whether errors are reported. They are exactly when
/// the configuration was loaded and holds an address; the options then take
/// the address, the environment's name and the rate from it.
pub fn init<D, R>(
    config: Result<
        Option<crate::kernel::config::sentry::SentryConfig<D, R>>,
        SentryConfigLoadError,
    >,
) -> (decision: Init<D, R>)
    ensures
        match config {
            Ok(Some(config)) => decision matches Init::Enabled(options) && options_for(
                options,
                config@.dsn,
                config@.environment.name(),
                config@.traces_sample_rate,
            ),
            Ok(None) => decision is Disabled,
            Err(_) => decision is Unreadable,
        },
{
    match config {
        Ok(Some(config)) => {
            let (dsn, environment, traces_sample_rate) = config.into_parts();
            Init::Enabled(
                ClientOptions {
                    dsn: Some(dsn),
                    environment: Some(environment.to_string()),
                    session_mode: SessionMode::Request,
                    traces_sample_rate,
                },
            )
        },
        Ok(None) => Init::Disabled,
        Err(_) => Init::Unreadable,
    }
}

/// Decides at startup whether errors are reported, for a configuration that
/// names its own environments. They are exactly when the configuration was
/// loaded and holds an address.
pub fn init_sentry<D, R>(
    config: Result<Option<crate::config::sentry::SentryConfig<D, R>>, ReadVarError>,
) -> (decision: Init<D, R>)
    ensures
        match config {
            Ok(Some(config)) => decision matches Init::Enabled(options) && options_for(
                options,
                config@.dsn,
                config@.environment.name(),
                config@.traces_sample_rate,
            ),
            Ok(None) => decision is Disabled,
            Err(_) => decision is Unreadable,
        },
{
    match config {
        Ok(Some(config)) => {
            let (dsn, environment, traces_sample_rate) = config.into_parts();
            Init::Enabled(
                ClientOptions {
                    dsn: Some(dsn),
                    environment: Some(environment.to_string()),
                    session_mode: SessionMode::Request,
                    traces_sample_rate,
                },
            )
        },
        Ok(None) => Init::Disabled,
        Err(_) => Init::Unreadable,
    }
}

} // verus!
