//! Configuration of error reporting that names its own environments.

use crate::env_vars::ReadVarError;
use crate::text::{debug_quoted, equal, lowercased, quote, to_lowercase};
use crate::views::result_option_view;
use vstd::prelude::*;
use vstd::string::*;

verus! {

/// The environment that reports are filed under.
#[derive(Debug, Clone, Copy, PartialEq, Eq, Hash)]
pub enum SentryEnv {
    Development,
    Production,
}

/// A text names no environment; the field is the text.
#[derive(Debug)]
pub struct SentryEnvParseError(pub String);

impl SentryEnvParseError {
    /// The message of the error, for a text given as it stands in quotes.
    pub open spec fn text(quoted: Seq<char>) -> Seq<char> {
        "Unknown environment for "@ + quoted
    }

    /// The message around an already quoted text.
    pub fn message_for(quoted: &str) -> (message: String)
        ensures
            message@ == Self::text(quoted@),
    {
        let mut message = "Unknown environment for ".to_owned();
        message.append(quoted);
        message
    }

    /// The message of the error: it quotes the text.
    pub fn to_string(&self) -> (message: String)
        ensures
            message@ == Self::text(debug_quoted(self.0@)),
    {
        let quoted = quote(self.0.as_str());
        Self::message_for(quoted.as_str())
    }
}

impl SentryEnv {
    /// The name of the environment.
    pub open spec fn name(self) -> Seq<char> {
        match self {
            SentryEnv::Development => "development"@,
            SentryEnv::Production => "production"@,
        }
    }

    /// The name of the environment.
    pub fn to_string(&self) -> (name: String)
        ensures
            name@ == self.name(),
    {
        match self {
            SentryEnv::Development => "development".to_owned(),
            SentryEnv::Production => "production".to_owned(),
        }
    }

    /// The environment that a text in lower case names.
    pub open spec fn named_by(lowered: Seq<char>) -> Option<SentryEnv> {
        if lowered == "development"@ || lowered == "dev"@ {
            Some(SentryEnv::Development)
        } else if lowered == "production"@ || lowered == "prod"@ {
            Some(SentryEnv::Production)
        } else {
            None
        }
    }

    /// The environment that a text names which is already in lower case:
    /// `development` or `dev`, `production` or `prod`.
    pub fn from_lowercase(lowered: &str) -> (environment: Option<SentryEnv>)
        ensures
            environment == Self::named_by(lowered@),
    {
        if equal(lowered, "development") || equal(lowered, "dev") {
            Some(SentryEnv::Development)
        } else if equal(lowered, "production") || equal(lowered, "prod") {
            Some(SentryEnv::Production)
        } else {
            None
        }
    }

    /// The environment that a text names, whatever the case of its letters.
    /// The error holds the text as it was given.
    pub fn from_str(s: &str) -> (environment: Result<SentryEnv, SentryEnvParseError>)
        ensures
            match environment {
                Ok(environment) => Self::named_by(lowercased(s@)) == Some(environment),
                Err(error) => Self::named_by(lowercased(s@)) is None && error.0@ == s@,
            },
    {
        let lowered = to_lowercase(s);
        match Self::from_lowercase(lowered.as_str()) {
            Some(environment) => Ok(environment),
            None => Err(SentryEnvParseError(s.to_owned())),
        }
    }
}

/// Where errors are reported to, in which environment, and how many traces
/// are sampled. The library looks neither into the address `D` nor into the
/// rate `R`. The address holds a secret, so there is no `Debug` form.
pub struct SentryConfig<D, R> {
    dsn: D,
    environment: SentryEnv,
    traces_sample_rate: R,
}

/// What a `SentryConfig` stands for.
pub struct SentryConfigView<D, R> {
    pub dsn: D,
    pub environment: SentryEnv,
    pub traces_sample_rate: R,
}

impl<D, R> View for SentryConfig<D, R> {
    type V = SentryConfigView<D, R>;

    closed spec fn view(&self) -> SentryConfigView<D, R> {
        SentryConfigView {
            dsn: self.dsn,
            environment: self.environment,
            traces_sample_rate: self.traces_sample_rate,
        }
    }
}

impl<D, R> SentryConfig<D, R> {
    /// The configuration that the looked-up variables give.
    pub open spec fn from_env_spec(
        dsn: Result<Option<D>, ReadVarError>,
        environment: Result<Option<SentryEnv>, ReadVarError>,
        traces_sample_rate: Result<Option<R>, ReadVarError>,
        default_rate: R,
    ) -> Result<Option<SentryConfigView<D, R>>, ReadVarError> {
        match dsn {
            Err(error) => Err(error),
            Ok(None) => Ok(None),
            Ok(Some(dsn)) => match environment {
                Err(error) => Err(error),
                Ok(environment) => match traces_sample_rate {
                    Err(error) => Err(error),
                    Ok(rate) => Ok(
                        Some(
                            SentryConfigView {
                                dsn,
                                environment: match environment {
                                    Some(environment) => environment,
                                    None => SentryEnv::Development,
                                },
                                traces_sample_rate: match rate {
                                    Some(rate) => rate,
                                    None => default_rate,
                                },
                            },
                        ),
                    ),
                },
            },
        }
    }

    /// The configuration of error reporting, from its variables as they
    /// were looked up. Without an address there is no configuration. With
    /// one, a missing environment is development and a missing rate is
    /// `default_rate`; the first variable that could not be read or parsed
    /// fails the load with its error.
    pub fn from_env(
        dsn: Result<Option<D>, ReadVarError>,
        environment: Result<Option<SentryEnv>, ReadVarError>,
        traces_sample_rate: Result<Option<R>, ReadVarError>,
        default_rate: R,
    ) -> (config: Result<Option<SentryConfig<D, R>>, ReadVarError>)
        ensures
            result_option_view(config) == Self::from_env_spec(
                dsn,
                environment,
                traces_sample_rate,
                default_rate,
            ),
    {
        let dsn = match dsn {
            Ok(Some(dsn)) => dsn,
            Ok(None) => { return Ok(None); },
            Err(error) => { return Err(error); },
        };
        let environment = match environment {
            Ok(Some(environment)) => environment,
            Ok(None) => SentryEnv::Development,
            Err(error) => { return Err(error); },
        };
        let traces_sample_rate = match traces_sample_rate {
            Ok(Some(rate)) => rate,
            Ok(None) => default_rate,
            Err(error) => { return Err(error); },
        };
        Ok(Some(SentryConfig { dsn, environment, traces_sample_rate }))
    }

    /// Where errors are reported to.
    pub fn dsn(&self) -> (dsn: &D)
        ensures
            *dsn == self@.dsn,
    {
        &self.dsn
    }

    /// The environment that reports are filed under.
    pub fn environment(&self) -> (environment: SentryEnv)
        ensures
            environment == self@.environment,
    {
        self.environment
    }

    /// The share of traces that is sampled.
    pub fn traces_sample_rate(&self) -> (rate: &R)
        ensures
            *rate == self@.traces_sample_rate,
    {
        &self.traces_sample_rate
    }

    /// The address and the rate, taken out of the configuration.
    pub fn into_parts(self) -> (parts: (D, SentryEnv, R))
        ensures
            parts == (self@.dsn, self@.environment, self@.traces_sample_rate),
    {
        (self.dsn, self.environment, self.traces_sample_rate)
    }
}

} // verus!
