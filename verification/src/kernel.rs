//! The kernel: the one context that every component shares. It holds the
//! identifier that the bot runs under, the shutdown signal, the count of
//! registered background tasks and the configuration.

use crate::id::{Id, ShardId};
use crate::text::{equal, lowercased, to_lowercase};
use vstd::prelude::*;
use vstd::string::*;

pub mod config;
pub mod shutdown;

pub use config::Config;
pub use shutdown::ShutdownGuard;

verus! {

/// The shared context of the bot. It holds the bot's token and so has no
/// `Debug` form.
pub struct Kernel {
    application_id: Id,
    background_tasks: usize,
    background_tasks_closed: bool,
    config: Config,
    shutdown: Option<ShutdownReason>,
    token: tokio_util::sync::CancellationToken,
}

/// What a `Kernel` stands for.
pub struct KernelView {
    /// The identifier that the bot runs under.
    pub application_id: Id,
    /// Number of registered background tasks that have not finished.
    pub background_tasks: nat,
    /// Whether the registry of background tasks is closed.
    pub background_tasks_closed: bool,
    /// The configuration.
    pub config: config::ConfigView,
    /// The reason for which the shutdown signal was set, once it is set.
    pub shutdown: Option<ShutdownReason>,
}

/// What can be done to a kernel once it is set up.
pub enum KernelStep {
    /// A background task is registered.
    Spawn,
    /// A background task has finished.
    TaskFinished,
    /// The registry of background tasks is closed.
    CloseBackgroundTasks,
    /// The identifier that the bot runs under is replaced.
    OverrideApplicationId(Id),
    /// A shutdown is asked for.
    Shutdown(ShutdownReason),
}

impl KernelView {
    /// The kernel after one step.
    pub open spec fn step(self, step: KernelStep) -> KernelView {
        match step {
            KernelStep::Spawn => KernelView { background_tasks: self.background_tasks + 1, ..self },
            KernelStep::TaskFinished => KernelView {
                background_tasks: (self.background_tasks - 1) as nat,
                ..self
            },
            KernelStep::CloseBackgroundTasks => KernelView {
                background_tasks_closed: true,
                ..self
            },
            KernelStep::OverrideApplicationId(new) => KernelView { application_id: new, ..self },
            KernelStep::Shutdown(reason) => self.after_shutdown(reason),
        }
    }

    /// The kernel after some steps, one after the other.
    pub open spec fn steps(self, steps: Seq<KernelStep>) -> KernelView
        decreases steps.len(),
    {
        if steps.len() == 0 {
            self
        } else {
            self.step(steps[0]).steps(steps.drop_first())
        }
    }
}

impl View for Kernel {
    type V = KernelView;

    closed spec fn view(&self) -> KernelView {
        KernelView {
            application_id: self.application_id,
            background_tasks: self.background_tasks as nat,
            background_tasks_closed: self.background_tasks_closed,
            config: self.config@,
            shutdown: self.shutdown,
        }
    }
}

/// The kernel could not be set up: the application's identifier is neither
/// configured nor could it be asked for.
#[derive(Debug, Clone, Copy, PartialEq, Eq)]
pub struct KernelInitError;

impl KernelInitError {
    /// The message of the error.
    pub fn to_string(&self) -> (message: String)
        ensures
            message@ == "Could not initialize memobot kernel"@,
    {
        "Could not initialize memobot kernel".to_owned()
    }
}

impl Kernel {
    /// The identifier that a kernel with this configuration starts under:
    /// the configured one, else the one that was looked up.
    pub open spec fn resolved_application_id(
        config: config::ConfigView,
        looked_up: Option<Id>,
    ) -> Option<Id> {
        match config.application_id {
            Some(id) => Some(id),
            None => looked_up,
        }
    }

    /// Whether the application's identifier has to be asked for, because
    /// none is configured.
    pub fn needs_application_id(config: &Config) -> (needed: bool)
        ensures
            needed == (config@.application_id is None),
    {
        config.application_id().is_none()
    }

    /// The application's identifier: the configured one where there is one,
    /// else the one that was looked up. Where neither is there, startup fails.
    pub fn get_application_id(config: &Config, looked_up: Option<Id>) -> (id: Result<
        Id,
        KernelInitError,
    >)
        ensures
            id == match Self::resolved_application_id(config@, looked_up) {
                Some(id) => Ok::<Id, KernelInitError>(id),
                None => Err(KernelInitError),
            },
    {
        if let Some(id) = config.application_id() {
            return Ok(id);
        }
        match looked_up {
            Some(id) => Ok(id),
            None => Err(KernelInitError),
        }
    }

    /// A kernel for `config`. `looked_up` is the identifier that the chat
    /// service gave, if it was asked and answered. The new kernel counts no
    /// task and its shutdown signal is not set.
    pub fn init(config: Config, looked_up: Option<Id>) -> (kernel: Result<Kernel, KernelInitError>)
        ensures
            match Self::resolved_application_id(config@, looked_up) {
                Some(id) => kernel matches Ok(kernel) && kernel@ == (KernelView {
                    application_id: id,
                    background_tasks: 0,
                    background_tasks_closed: false,
                    config: config@,
                    shutdown: None,
                }),
                None => kernel is Err,
            },
    {
        let application_id = match Self::get_application_id(&config, looked_up) {
            Ok(id) => id,
            Err(error) => { return Err(error); },
        };
        Ok(
            Kernel {
                application_id,
                background_tasks: 0,
                background_tasks_closed: false,
                config,
                shutdown: None,
                token: shutdown::new_token(),
            },
        )
    }

    /// The identifier that the bot runs under.
    pub fn application_id(&self) -> (id: Id)
        ensures
            id == self@.application_id,
    {
        self.application_id
    }

    /// The configuration.
    pub fn config(&self) -> (config: &Config)
        ensures
            config@ == self@.config,
    {
        &self.config
    }

    /// Registers a background task in the registry.
    pub fn spawn(&mut self)
        requires
            old(self)@.background_tasks < usize::MAX,
        ensures
            final(self)@ == old(self)@.step(KernelStep::Spawn),
    {
        self.background_tasks = self.background_tasks + 1;
    }

    /// Registers a blocking background task in the registry.
    pub fn spawn_blocking(&mut self)
        requires
            old(self)@.background_tasks < usize::MAX,
        ensures
            final(self)@ == old(self)@.step(KernelStep::Spawn),
    {
        self.spawn();
    }

    /// Takes a finished background task out of the registry.
    pub fn task_finished(&mut self)
        requires
            old(self)@.background_tasks > 0,
        ensures
            final(self)@ == old(self)@.step(KernelStep::TaskFinished),
    {
        self.background_tasks = self.background_tasks - 1;
    }

    /// Number of registered background tasks that have not finished.
    pub fn remaining_background_tasks(&self) -> (remaining: usize)
        ensures
            remaining == self@.background_tasks,
    {
        self.background_tasks
    }

    /// Closes the registry of background tasks and says whether the wait
    /// for them is over, which it is once none is left.
    pub fn close_background_tasks_and_wait(&mut self) -> (done: bool)
        ensures
            final(self)@ == old(self)@.step(KernelStep::CloseBackgroundTasks),
            done == (old(self)@.background_tasks == 0),
    {
        self.background_tasks_closed = true;
        self.background_tasks == 0
    }

    /// Replaces the identifier that the bot runs under.
    pub fn override_application_id(&mut self, new: Id)
        ensures
            final(self)@ == old(self)@.step(KernelStep::OverrideApplicationId(new)),
    {
        self.application_id = new;
    }
}

/// Why the bot shuts down.
#[derive(Debug, Clone, Copy, PartialEq, Eq, Hash)]
pub enum ShutdownReason {
    /// The HTTP interface failed.
    ApiServerFailed,
    /// A gateway connection received a fatal error.
    ShardFatalError(ShardId),
    /// The operating system asked the process to stop.
    Signal,
}

impl ShutdownReason {
    /// The reason in words.
    pub open spec fn text(self) -> Seq<char> {
        match self {
            ShutdownReason::ApiServerFailed => "API server failed"@,
            ShutdownReason::ShardFatalError(id) => "Shard "@ + id@.text()
                + " got a fatal error"@,
            ShutdownReason::Signal => "Received shutdown signal"@,
        }
    }

    /// The reason in words.
    pub fn to_string(&self) -> (words: String)
        ensures
            words@ == self.text(),
    {
        match self {
            ShutdownReason::ApiServerFailed => "API server failed".to_owned(),
            ShutdownReason::ShardFatalError(id) => {
                let mut words = "Shard ".to_owned();
                let shard = id.to_string();
                words.append(shard.as_str());
                words.append(" got a fatal error");
                words
            },
            ShutdownReason::Signal => "Received shutdown signal".to_owned(),
        }
    }
}

/// The environment that the bot runs in.
#[derive(Debug, Clone, Copy, PartialEq, Eq, Hash)]
pub enum Environment {
    Development,
    Production,
    Testing,
}

/// A text names no environment.
#[derive(Debug, Clone, Copy, PartialEq, Eq)]
pub struct EnvParseError;

impl EnvParseError {
    /// The message of the error.
    pub fn to_string(&self) -> (message: String)
        ensures
            message@ == "Could not parse environment type"@,
    {
        "Could not parse environment type".to_owned()
    }
}

impl Environment {
    /// The environment that a build stands for: production for a release
    /// build, testing for a test build, development otherwise.
    pub fn from_build(release: bool, test: bool) -> (environment: Environment)
        ensures
            environment == if release {
                Environment::Production
            } else if test {
                Environment::Testing
            } else {
                Environment::Development
            },
    {
        if release {
            Environment::Production
        } else if test {
            Environment::Testing
        } else {
            Environment::Development
        }
    }

    /// The environment that the variable for it gives, where it was read:
    /// the one it names, else the one of the build.
    pub fn from_env(
        variable: Result<Option<Environment>, crate::env_vars::ReadVarError>,
        build: Environment,
    ) -> (environment: Result<Environment, crate::env_vars::ReadVarError>)
        ensures
            environment == match variable {
                Ok(Some(named)) => Ok::<Environment, crate::env_vars::ReadVarError>(named),
                Ok(None) => Ok(build),
                Err(error) => Err(error),
            },
    {
        match variable {
            Ok(Some(named)) => Ok(named),
            Ok(None) => Ok(build),
            Err(error) => Err(error),
        }
    }

    /// The name of the environment.
    pub open spec fn name(self) -> Seq<char> {
        match self {
            Environment::Development => "development"@,
            Environment::Production => "production"@,
            Environment::Testing => "testing"@,
        }
    }

    /// The name of the environment.
    pub fn to_string(&self) -> (name: String)
        ensures
            name@ == self.name(),
    {
        match self {
            Environment::Development => "development".to_owned(),
            Environment::Production => "production".to_owned(),
            Environment::Testing => "testing".to_owned(),
        }
    }

    /// The environment that a text in lower case names.
    pub open spec fn named_by(lowered: Seq<char>) -> Result<Environment, EnvParseError> {
        if lowered == "development"@ {
            Ok(Environment::Development)
        } else if lowered == "production"@ {
            Ok(Environment::Production)
        } else if lowered == "testing"@ {
            Ok(Environment::Testing)
        } else {
            Err(EnvParseError)
        }
    }

    /// The environment that a text names which is already in lower case:
    /// one of `development`, `production` and `testing`.
    pub fn from_lowercase(lowered: &str) -> (environment: Result<Environment, EnvParseError>)
        ensures
            environment == Self::named_by(lowered@),
    {
        if equal(lowered, "development") {
            Ok(Environment::Development)
        } else if equal(lowered, "production") {
            Ok(Environment::Production)
        } else if equal(lowered, "testing") {
            Ok(Environment::Testing)
        } else {
            Err(EnvParseError)
        }
    }

    /// The environment that a text names, whatever the case of its letters.
    pub fn from_str(s: &str) -> (environment: Result<Environment, EnvParseError>)
        ensures
            environment == Self::named_by(lowercased(s@)),
    {
        let lowered = to_lowercase(s);
        Self::from_lowercase(lowered.as_str())
    }
}

} // verus!
