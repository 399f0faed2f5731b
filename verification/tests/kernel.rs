use memobot::env_vars::ReadVarError;
use memobot::id::{Id, ShardId};
use memobot::kernel::config::api::{ApiConfig, IpAddress};
use futures::FutureExt;
use memobot::kernel::{
    Config, EnvParseError, Environment, Kernel, KernelInitError, ShutdownReason,
};

fn kernel_config(application_id: Option<u64>) -> Config {
    let api = ApiConfig::from_env(Ok(None), Ok(None));
    Config::assemble(
        api,
        Ok(application_id.map(Id::new)),
        Ok(Environment::Testing),
        Ok(String::from("secret")),
        Ok(Some(2)),
        8,
    )
    .unwrap()
}

fn fresh_kernel() -> Kernel {
    Kernel::init(kernel_config(Some(42)), None).unwrap()
}

#[test]
fn init_takes_the_configured_identifier() {
    let kernel = Kernel::init(kernel_config(Some(42)), Some(Id::new(7))).unwrap();
    assert_eq!(kernel.application_id().get(), 42);
    assert_eq!(kernel.remaining_background_tasks(), 0);
    assert!(!kernel.is_shutdown());
    assert_eq!(kernel.shutdown_reason(), None);
    assert_eq!(kernel.config().token(), "secret");
    assert_eq!(kernel.config().workers(), 2);
}

#[test]
fn init_falls_back_to_the_identifier_that_was_looked_up() {
    let kernel = Kernel::init(kernel_config(None), Some(Id::new(7))).unwrap();
    assert_eq!(kernel.application_id().get(), 7);
}

#[test]
fn init_fails_without_any_identifier() {
    let outcome = Kernel::init(kernel_config(None), None);
    assert!(matches!(outcome, Err(KernelInitError)));
    assert_eq!(KernelInitError.to_string(), "Could not initialize memobot kernel");
}

#[test]
fn only_a_missing_identifier_needs_a_lookup() {
    assert!(Kernel::needs_application_id(&kernel_config(None)));
    assert!(!Kernel::needs_application_id(&kernel_config(Some(1))));
    assert_eq!(
        Kernel::get_application_id(&kernel_config(Some(1)), None).unwrap().get(),
        1
    );
    assert!(Kernel::get_application_id(&kernel_config(None), None).is_err());
}

#[test]
fn first_shutdown_reason_wins() {
    let mut kernel = fresh_kernel();
    let first = kernel.shutdown(ShutdownReason::Signal);
    assert_eq!(
        first.as_deref(),
        Some("Received shutdown signal; performing graceful shutdown...")
    );
    assert!(kernel.is_shutdown());
    let second = kernel.shutdown(ShutdownReason::ApiServerFailed);
    assert_eq!(second, None);
    assert_eq!(kernel.shutdown_reason(), Some(ShutdownReason::Signal));
    let third = kernel.shutdown(ShutdownReason::ShardFatalError(ShardId::new(0, 1)));
    assert_eq!(third, None);
    assert_eq!(kernel.shutdown_reason(), Some(ShutdownReason::Signal));
}

#[test]
fn shutdown_with_the_same_reason_twice_fires_once() {
    let mut kernel = fresh_kernel();
    assert!(kernel.shutdown(ShutdownReason::ApiServerFailed).is_some());
    assert!(kernel.shutdown(ShutdownReason::ApiServerFailed).is_none());
    assert_eq!(kernel.shutdown_reason(), Some(ShutdownReason::ApiServerFailed));
}

#[test]
fn every_waiter_finds_the_same_reason() {
    let mut kernel = fresh_kernel();
    assert_eq!(kernel.shutdown_guard().released, None);
    assert_eq!(kernel.shutdown_guard().released, None);
    kernel.shutdown(ShutdownReason::Signal);
    assert_eq!(kernel.shutdown_guard().released, Some(ShutdownReason::Signal));
    assert_eq!(kernel.shutdown_guard().released, Some(ShutdownReason::Signal));
}

#[test]
fn waiters_are_suspended_until_the_signal_is_set() {
    let mut kernel = fresh_kernel();
    let mut first = Box::pin(kernel.shutdown_guard().signal);
    let mut second = Box::pin(kernel.shutdown_guard().signal);
    assert!((&mut first).now_or_never().is_none());
    assert!((&mut second).now_or_never().is_none());
    kernel.spawn();
    kernel.override_application_id(Id::new(9));
    assert!((&mut first).now_or_never().is_none());
    kernel.shutdown(ShutdownReason::Signal);
    assert!((&mut first).now_or_never().is_some());
    assert!((&mut second).now_or_never().is_some());
    assert!(kernel.shutdown_guard().signal.now_or_never().is_some());
    kernel.shutdown(ShutdownReason::ApiServerFailed);
    assert!(kernel.shutdown_guard().signal.now_or_never().is_some());
}

#[test]
fn kernels_do_not_share_their_signal() {
    let mut one = fresh_kernel();
    let other = fresh_kernel();
    one.shutdown(ShutdownReason::Signal);
    assert!(one.shutdown_guard().signal.now_or_never().is_some());
    assert!(other.shutdown_guard().signal.now_or_never().is_none());
    assert!(!other.is_shutdown());
}

#[test]
fn shutdown_leaves_the_rest_of_the_kernel_alone() {
    let mut kernel = fresh_kernel();
    kernel.spawn();
    kernel.shutdown(ShutdownReason::Signal);
    assert_eq!(kernel.application_id().get(), 42);
    assert_eq!(kernel.remaining_background_tasks(), 1);
}

#[test]
fn shutdown_reasons_read_as_sentences() {
    assert_eq!(ShutdownReason::ApiServerFailed.to_string(), "API server failed");
    assert_eq!(ShutdownReason::Signal.to_string(), "Received shutdown signal");
    assert_eq!(
        ShutdownReason::ShardFatalError(ShardId::new(3, 8)).to_string(),
        "Shard [3, 8] got a fatal error"
    );
}

#[test]
fn fatal_shard_notice_names_the_shard() {
    let mut kernel = fresh_kernel();
    let notice = kernel.shutdown(ShutdownReason::ShardFatalError(ShardId::new(12, 40)));
    assert_eq!(
        notice.as_deref(),
        Some("Shard [12, 40] got a fatal error; performing graceful shutdown...")
    );
}

#[test]
fn registry_grows_and_shrinks() {
    let mut kernel = fresh_kernel();
    kernel.spawn();
    kernel.spawn_blocking();
    kernel.spawn();
    assert_eq!(kernel.remaining_background_tasks(), 3);
    kernel.task_finished();
    assert_eq!(kernel.remaining_background_tasks(), 2);
    assert!(!kernel.close_background_tasks_and_wait());
    kernel.task_finished();
    kernel.task_finished();
    assert_eq!(kernel.remaining_background_tasks(), 0);
    assert!(kernel.close_background_tasks_and_wait());
}

#[test]
fn override_replaces_the_identifier() {
    let mut kernel = fresh_kernel();
    kernel.override_application_id(Id::new(99));
    assert_eq!(kernel.application_id().get(), 99);
    assert!(!kernel.is_shutdown());
}

#[test]
fn environment_parses_whatever_the_case() {
    assert_eq!(Environment::from_str("development"), Ok(Environment::Development));
    assert_eq!(Environment::from_str("PRODUCTION"), Ok(Environment::Production));
    assert_eq!(Environment::from_str("Testing"), Ok(Environment::Testing));
    assert_eq!(Environment::from_str("prod"), Err(EnvParseError));
    assert_eq!(Environment::from_str(""), Err(EnvParseError));
    assert_eq!(Environment::from_str(" production"), Err(EnvParseError));
}

#[test]
fn environment_from_lowercase_is_exact() {
    assert_eq!(Environment::from_lowercase("testing"), Ok(Environment::Testing));
    assert_eq!(Environment::from_lowercase("Testing"), Err(EnvParseError));
    assert_eq!(EnvParseError.to_string(), "Could not parse environment type");
}

#[test]
fn environment_names() {
    assert_eq!(Environment::Development.to_string(), "development");
    assert_eq!(Environment::Production.to_string(), "production");
    assert_eq!(Environment::Testing.to_string(), "testing");
}

#[test]
fn environment_of_a_build() {
    assert_eq!(Environment::from_build(true, false), Environment::Production);
    assert_eq!(Environment::from_build(true, true), Environment::Production);
    assert_eq!(Environment::from_build(false, true), Environment::Testing);
    assert_eq!(Environment::from_build(false, false), Environment::Development);
}

#[test]
fn environment_from_its_variable() {
    let build = Environment::Development;
    assert_eq!(
        Environment::from_env(Ok(Some(Environment::Production)), build),
        Ok(Environment::Production)
    );
    assert_eq!(Environment::from_env(Ok(None), build), Ok(Environment::Development));
    assert_eq!(
        Environment::from_env(Err(ReadVarError("MEMOBOT_ENV")), build),
        Err(ReadVarError("MEMOBOT_ENV"))
    );
}

#[test]
fn api_config_defaults() {
    let api = ApiConfig::from_env(Ok(None), Ok(None)).unwrap();
    assert_eq!(api.address(), IpAddress::V4(0));
    assert_eq!(api.port(), 6500);
    let api = ApiConfig::from_env(Ok(Some(IpAddress::V4(0x7f00_0001))), Ok(Some(80))).unwrap();
    assert_eq!(api.address(), IpAddress::V4(0x7f00_0001));
    assert_eq!(api.port(), 80);
    assert!(ApiConfig::from_env(Err(ReadVarError("MEMOBOT_API_ADDRESS")), Ok(None)).is_err());
    assert!(ApiConfig::from_env(Ok(None), Err(ReadVarError("MEMOBOT_API_PORT"))).is_err());
}

#[test]
fn config_needs_every_part() {
    let api = || ApiConfig::from_env(Ok(None), Ok(None));
    let token = || Ok(String::from("t"));
    let env = || Ok(Environment::Production);
    let bad = || ReadVarError("X");
    assert!(Config::assemble(api(), Ok(None), env(), token(), Ok(None), 4).is_ok());
    assert!(Config::assemble(
        ApiConfig::from_env(Err(bad()), Ok(None)),
        Ok(None),
        env(),
        token(),
        Ok(None),
        4
    )
    .is_err());
    assert!(Config::assemble(api(), Err(bad()), env(), token(), Ok(None), 4).is_err());
    assert!(Config::assemble(api(), Ok(None), Err(bad()), token(), Ok(None), 4).is_err());
    assert!(Config::assemble(api(), Ok(None), env(), Err(bad()), Ok(None), 4).is_err());
    assert!(Config::assemble(api(), Ok(None), env(), token(), Err(bad()), 4).is_err());
}

#[test]
fn config_counts_processors_only_without_workers() {
    let api = || ApiConfig::from_env(Ok(None), Ok(None));
    let config = Config::assemble(
        api(),
        Ok(None),
        Ok(Environment::Production),
        Ok(String::from("t")),
        Ok(None),
        4,
    )
    .unwrap();
    assert_eq!(config.workers(), 4);
    assert_eq!(config.environment(), Environment::Production);
    assert_eq!(config.application_id(), None);
    assert_eq!(config.api().port(), 6500);
    let config = Config::from_env(
        api(),
        Ok(None),
        Ok(Environment::Production),
        Ok(String::from("t")),
        Ok(Some(3)),
    )
    .unwrap();
    assert_eq!(config.workers(), 3);
    let config = Config::from_env(
        api(),
        Ok(None),
        Ok(Environment::Production),
        Ok(String::from("t")),
        Ok(None),
    )
    .unwrap();
    assert!(config.workers() >= 1);
    assert!(Config::default_workers() >= 1);
}

#[test]
fn token_is_taken_in_order_of_precedence() {
    let some = |s: &str| Ok(Some(String::from(s)));
    assert_eq!(
        Config::token_from_env(some("a"), some("b"), some("c")),
        Ok(String::from("a"))
    );
    assert_eq!(
        Config::token_from_env(Ok(None), some("b"), some("c")),
        Ok(String::from("b"))
    );
    assert_eq!(
        Config::token_from_env(Ok(None), Ok(None), some("c")),
        Ok(String::from("c"))
    );
    assert_eq!(
        Config::token_from_env(Ok(None), Ok(None), Ok(None)),
        Err(ReadVarError("MEMOBOT_TOKEN"))
    );
    assert_eq!(
        Config::token_from_env(Err(ReadVarError("DISCORD_TOKEN")), some("b"), some("c")),
        Err(ReadVarError("DISCORD_TOKEN"))
    );
    assert_eq!(
        Config::token_from_env(Ok(None), Err(ReadVarError("TOKEN")), some("c")),
        Err(ReadVarError("TOKEN"))
    );
    assert_eq!(
        Config::token_from_env(Ok(None), Ok(None), Err(ReadVarError("MEMOBOT_TOKEN"))),
        Err(ReadVarError("MEMOBOT_TOKEN"))
    );
}

#[test]
fn identifiers_are_never_zero() {
    assert!(Id::new_checked(0).is_none());
    assert_eq!(Id::new_checked(5).unwrap().get(), 5);
    assert_eq!(Id::new(u64::MAX).get(), u64::MAX);
    assert_eq!(Id::new(5), Id::new_checked(5).unwrap());
}

#[test]
fn shard_identifiers_stay_below_their_total() {
    assert!(ShardId::new_checked(0, 0).is_none());
    assert!(ShardId::new_checked(8, 8).is_none());
    let id = ShardId::new_checked(7, 8).unwrap();
    assert_eq!(id.number(), 7);
    assert_eq!(id.total(), 8);
    assert_eq!(id.to_string(), "[7, 8]");
    assert_eq!(ShardId::new(0, 1).to_string(), "[0, 1]");
    assert_eq!(
        ShardId::new(18446744073709551614, u64::MAX).to_string(),
        "[18446744073709551614, 18446744073709551615]"
    );
}
