//! Configuration of error reporting.

use crate::env_vars::ReadVarError;
use crate::kernel::Environment;
use crate::views::result_option_view;
use vstd::prelude::*;

verus! {

/// Where errors are reported to, in which environment, and how many traces
/// are sampled. The library looks neither into the address `D` nor into the
/// rate `R`. The address holds a secret, so there is no `Debug` form.
pub struct SentryConfig<D, R> {
    dsn: D,
    environment: Environment,
    traces_sample_rate: R,
}

/// The configuration of error reporting could not be loaded.
#[derive(Debug, Clone, Copy, PartialEq, Eq)]
pub struct SentryConfigLoadError;

impl SentryConfigLoadError {
    /// The message of the error.
    pub fn to_string(&self) -> (message: String)
        ensures
            message@ == "Could not load Sentry configuration"@,
    {
        "Could not load Sentry configuration".to_owned()
    }
}

/// What a `SentryConfig` stands for.
pub struct SentryConfigView<D, R> {
    pub dsn: D,
    pub environment: Environment,
    pub traces_sample_rate: R,
}

impl<D, R> View for SentryConfig<D, R> {
    type V = SentryConfigView<D, R>;

    closed spec fn view(&self) -> SentryConfigView<D, R> {
        SentryConfigView {
            dsn: self.dsn,
            environment: self.environment,
            traces_sample_rate: self.traces_sample_rate,
        }
    }
}

impl<D, R> SentryConfig<D, R> {
    /// The configuration that the looked-up variables give.
    pub open spec fn from_env_spec(
        dsn: Result<Option<D>, ReadVarError>,
        environment: Result<Environment, ReadVarError>,
        traces_sample_rate: Result<Option<R>, ReadVarError>,
        default_rate: R,
    ) -> Result<Option<SentryConfigView<D, R>>, SentryConfigLoadError> {
        match dsn {
            Err(_) => Err(SentryConfigLoadError),
            Ok(None) => Ok(None),
            Ok(Some(dsn)) => match (environment, traces_sample_rate) {
                (Ok(environment), Ok(rate)) => Ok(
                    Some(
                        SentryConfigView {
                            dsn,
                            environment,
                            traces_sample_rate: match rate {
                                Some(rate) => rate,
                                None => default_rate,
                            },
                        },
                    ),
                ),
                _ => Err(SentryConfigLoadError),
            },
        }
    }

    /// The configuration of error reporting, from its variables as they
    /// were looked up. Without an address there is no configuration, whatever
    /// the other variables hold; with one, a missing rate is `default_rate`,
    /// and a variable that could not be read or parsed fails the load.
    pub fn from_env(
        dsn: Result<Option<D>, ReadVarError>,
        environment: Result<Environment, ReadVarError>,
        traces_sample_rate: Result<Option<R>, ReadVarError>,
        default_rate: R,
    ) -> (config: Result<Option<SentryConfig<D, R>>, SentryConfigLoadError>)
        ensures
            result_option_view(config) == Self::from_env_spec(
                dsn,
                environment,
                traces_sample_rate,
                default_rate,
            ),
    {
        let dsn = match dsn {
            Ok(Some(dsn)) => dsn,
            Ok(None) => { return Ok(None); },
            Err(_) => { return Err(SentryConfigLoadError); },
        };
        let environment = match environment {
            Ok(environment) => environment,
            Err(_) => { return Err(SentryConfigLoadError); },
        };
        let traces_sample_rate = match traces_sample_rate {
            Ok(Some(rate)) => rate,
            Ok(None) => default_rate,
            Err(_) => { return Err(SentryConfigLoadError); },
        };
        Ok(Some(SentryConfig { dsn, environment, traces_sample_rate }))
    }

    /// Where errors are reported to.
    pub fn dsn(&self) -> (dsn: &D)
        ensures
            *dsn == self@.dsn,
    {
        &self.dsn
    }

    /// The environment that reports are filed under.
    pub fn environment(&self) -> (environment: Environment)
        ensures
            environment == self@.environment,
    {
        self.environment
    }

    /// The share of traces that is sampled.
    pub fn traces_sample_rate(&self) -> (rate: &R)
        ensures
            *rate == self@.traces_sample_rate,
    {
        &self.traces_sample_rate
    }

    /// The address, the environment and the rate, taken out of the
    /// configuration.
    pub fn into_parts(self) -> (parts: (D, Environment, R))
        ensures
            parts == (self@.dsn, self@.environment, self@.traces_sample_rate),
    {
        (self.dsn, self.environment, self.traces_sample_rate)
    }
}

} // verus!
