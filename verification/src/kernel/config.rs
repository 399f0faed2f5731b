//! Configuration of the bot, as its environment variables give it.

use crate::env_vars::{required_spec, ReadVarError};
use crate::id::Id;
use crate::kernel::Environment;
use crate::views::result_view;
use vstd::prelude::*;
use vstd::string::*;

pub mod api;
pub mod sentry;

pub use api::ApiConfig;
pub use sentry::SentryConfig;

verus! {

/// What the bot was configured with. Nothing changes it once it is loaded.
/// It holds the bot's token and so has no `Debug` form.
pub struct Config {
    api: ApiConfig,
    application_id: Option<Id>,
    environment: Environment,
    token: String,
    workers: usize,
}

/// The configuration of the bot could not be loaded.
#[derive(Debug, Clone, Copy, PartialEq, Eq)]
pub struct BaseConfigLoadError;

impl BaseConfigLoadError {
    /// The message of the error.
    pub fn to_string(&self) -> (message: String)
        ensures
            message@ == "Could not load bot configuration"@,
    {
        "Could not load bot configuration".to_owned()
    }
}

/// What a `Config` stands for.
pub struct ConfigView {
    pub api: ApiConfig,
    pub application_id: Option<Id>,
    pub environment: Environment,
    pub token: Seq<char>,
    pub workers: usize,
}

impl View for Config {
    type V = ConfigView;

    closed spec fn view(&self) -> ConfigView {
        ConfigView {
            api: self.api,
            application_id: self.application_id,
            environment: self.environment,
            token: self.token@,
            workers: self.workers,
        }
    }
}

/// `num_cpus::get`: the number of processors that the machine offers to
/// this process, which is at least one.
#[verifier::external_body]
fn available_cpus() -> (cpus: usize)
    ensures
        cpus >= 1,
{
    num_cpus::get()
}

impl Config {
    /// The token among three variables: the first of the first two that is
    /// set or cannot be read decides, else the third, which must be set.
    pub open spec fn token_from_env_spec(
        discord_token: Result<Option<String>, ReadVarError>,
        token: Result<Option<String>, ReadVarError>,
        memobot_token: Result<Option<String>, ReadVarError>,
    ) -> Result<String, ReadVarError> {
        match discord_token {
            Ok(Some(found)) => Ok(found),
            Err(error) => Err(error),
            Ok(None) => match token {
                Ok(Some(found)) => Ok(found),
                Err(error) => Err(error),
                Ok(None) => required_spec(memobot_token, "MEMOBOT_TOKEN"),
            },
        }
    }

    /// The bot's token, from the variables `DISCORD_TOKEN`, `TOKEN` and
    /// `MEMOBOT_TOKEN` as they were looked up, in this order of precedence.
    pub fn token_from_env(
        discord_token: Result<Option<String>, ReadVarError>,
        token: Result<Option<String>, ReadVarError>,
        memobot_token: Result<Option<String>, ReadVarError>,
    ) -> (found: Result<String, ReadVarError>)
        ensures
            found == Self::token_from_env_spec(discord_token, token, memobot_token),
    {
        match discord_token {
            Ok(Some(found)) => Ok(found),
            Err(error) => Err(error),
            Ok(None) => match token {
                Ok(Some(found)) => Ok(found),
                Err(error) => Err(error),
                Ok(None) => crate::env_vars::required(memobot_token, "MEMOBOT_TOKEN"),
            },
        }
    }

    /// The number of workers where none is configured: one for each
    /// processor that the machine offers.
    pub fn default_workers() -> (workers: usize)
        ensures
            workers >= 1,
    {
        available_cpus()
    }

    /// The configuration that loaded parts give, with `cpus` workers where
    /// their number is not configured.
    pub open spec fn assemble_spec(
        api: Result<ApiConfig, api::ApiConfigLoadError>,
        application_id: Result<Option<Id>, ReadVarError>,
        environment: Result<Environment, ReadVarError>,
        token: Result<String, ReadVarError>,
        workers: Result<Option<usize>, ReadVarError>,
        cpus: usize,
    ) -> Result<ConfigView, BaseConfigLoadError> {
        match (api, application_id, environment, token, workers) {
            (Ok(api), Ok(application_id), Ok(environment), Ok(token), Ok(workers)) => Ok(
                ConfigView {
                    api,
                    application_id,
                    environment,
                    token: token@,
                    workers: match workers {
                        Some(workers) => workers,
                        None => cpus,
                    },
                },
            ),
            _ => Err(BaseConfigLoadError),
        }
    }

    /// The bot's configuration from its loaded parts. Every part must have
    /// loaded; where the number of workers is not configured it is `cpus`.
    pub fn assemble(
        api: Result<ApiConfig, api::ApiConfigLoadError>,
        application_id: Result<Option<Id>, ReadVarError>,
        environment: Result<Environment, ReadVarError>,
        token: Result<String, ReadVarError>,
        workers: Result<Option<usize>, ReadVarError>,
        cpus: usize,
    ) -> (config: Result<Config, BaseConfigLoadError>)
        ensures
            result_view(config) == Self::assemble_spec(
                api,
                application_id,
                environment,
                token,
                workers,
                cpus,
            ),
    {
        let api = match api {
            Ok(api) => api,
            Err(_) => { return Err(BaseConfigLoadError); },
        };
        let application_id = match application_id {
            Ok(application_id) => application_id,
            Err(_) => { return Err(BaseConfigLoadError); },
        };
        let environment = match environment {
            Ok(environment) => environment,
            Err(_) => { return Err(BaseConfigLoadError); },
        };
        let token = match token {
            Ok(token) => token,
            Err(_) => { return Err(BaseConfigLoadError); },
        };
        let workers = match workers {
            Ok(Some(workers)) => workers,
            Ok(None) => cpus,
            Err(_) => { return Err(BaseConfigLoadError); },
        };
        Ok(Config { api, application_id, environment, token, workers })
    }

    /// The bot's configuration, from its variables as they were looked up.
    /// Every variable must have been read and parsed. Where the number of
    /// workers is not configured, the machine's processors are counted: then
    /// some `cpus` of at least one stands for the count.
    pub fn from_env(
        api: Result<ApiConfig, api::ApiConfigLoadError>,
        application_id: Result<Option<Id>, ReadVarError>,
        environment: Result<Environment, ReadVarError>,
        token: Result<String, ReadVarError>,
        workers: Result<Option<usize>, ReadVarError>,
    ) -> (config: Result<Config, BaseConfigLoadError>)
        ensures
            config is Ok <==> api is Ok && application_id is Ok && environment is Ok && token is Ok
                && workers is Ok,
            exists|cpus: usize|
                cpus >= 1 && result_view(config) == #[trigger] Self::assemble_spec(
                    api,
                    application_id,
                    environment,
                    token,
                    workers,
                    cpus,
                ),
    {
        let cpus = match workers {
            Ok(None) => Self::default_workers(),
            _ => 1,
        };
        Self::assemble(api, application_id, environment, token, workers, cpus)
    }

    /// Where the HTTP interface listens.
    pub fn api(&self) -> (api: &ApiConfig)
        ensures
            *api == self@.api,
    {
        &self.api
    }

    /// The application's identifier, where one is configured.
    pub fn application_id(&self) -> (id: Option<Id>)
        ensures
            id == self@.application_id,
    {
        self.application_id
    }

    /// The environment that the bot runs in.
    pub fn environment(&self) -> (environment: Environment)
        ensures
            environment == self@.environment,
    {
        self.environment
    }

    /// The bot's token.
    pub fn token(&self) -> (token: &str)
        ensures
            token@ == self@.token,
    {
        self.token.as_str()
    }

    /// The number of worker threads.
    pub fn workers(&self) -> (workers: usize)
        ensures
            workers == self@.workers,
    {
        self.workers
    }
}

} // verus!
