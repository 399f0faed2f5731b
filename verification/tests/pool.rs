use memobot::bot::shard::ShardStatus;
use memobot::id::{Id, ShardId};
use memobot::kernel::config::api::ApiConfig;
use memobot::kernel::{Config, Environment, Kernel, ShutdownReason};
use memobot::services::bot::{start, Pool, Wait};

fn pool_kernel() -> Kernel {
    let config = Config::assemble(
        ApiConfig::from_env(Ok(None), Ok(None)),
        Ok(Some(Id::new(42))),
        Ok(Environment::Testing),
        Ok(String::from("secret")),
        Ok(Some(1)),
        1,
    )
    .unwrap();
    Kernel::init(config, None).unwrap()
}

fn pool_of(shards: u64) -> Pool {
    let ids: Vec<ShardId> = (0..shards).map(|number| ShardId::new(number, shards)).collect();
    start(&ids).0
}

#[test]
fn every_connection_gets_its_supervisor() {
    let ids = vec![ShardId::new(0, 3), ShardId::new(1, 3), ShardId::new(2, 3)];
    let (pool, supervisors) = start(&ids);
    assert_eq!(pool.total_shards(), 3);
    assert_eq!(supervisors.len(), 3);
    for (supervisor, id) in supervisors.iter().zip(&ids) {
        assert_eq!(supervisor.context().shard_id(), *id);
        assert_eq!(supervisor.status(), ShardStatus::Running);
        assert_eq!(supervisor.handlers(), 0);
    }
}

#[test]
fn the_pool_waits_for_the_signal_and_then_for_every_supervisor() {
    let mut kernel = pool_kernel();
    let mut pool = pool_of(3);
    assert_eq!(pool.total_shards(), 3);
    assert_eq!(pool.running_shards(), 3);
    assert_eq!(pool.wait(&kernel), Wait::ForShutdown);
    kernel.shutdown(ShutdownReason::Signal);
    let mut lines = Vec::new();
    loop {
        lines.push(pool.progress_line());
        if !pool.join_next() {
            break;
        }
    }
    assert_eq!(
        lines,
        vec![
            "Waiting for 0/3 shards(s) to finish",
            "Waiting for 1/3 shards(s) to finish",
            "Waiting for 2/3 shards(s) to finish",
            "Waiting for 3/3 shards(s) to finish",
        ]
    );
    assert_eq!(pool.wait(&kernel), Wait::Over);
    assert_eq!(pool.finished_shards(), 3);
}

#[test]
fn a_supervisor_that_never_finishes_keeps_the_pool_waiting() {
    let mut kernel = pool_kernel();
    let mut pool = pool_of(2);
    kernel.shutdown(ShutdownReason::Signal);
    assert!(pool.join_next());
    for _ in 0..1000 {
        assert_eq!(pool.wait(&kernel), Wait::ForSupervisor);
    }
    assert_eq!(pool.finished_shards(), 1);
}

#[test]
fn a_pool_without_connections_is_over_at_shutdown() {
    let mut kernel = pool_kernel();
    let mut pool = pool_of(0);
    assert_eq!(pool.wait(&kernel), Wait::ForShutdown);
    kernel.shutdown(ShutdownReason::ApiServerFailed);
    assert_eq!(pool.wait(&kernel), Wait::Over);
    assert_eq!(pool.progress_line(), "Waiting for 0/0 shards(s) to finish");
    assert!(!pool.join_next());
    assert_eq!(pool.running_shards(), 0);
}

#[test]
fn progress_counts_large_pools() {
    let mut pool = pool_of(1200);
    for _ in 0..345 {
        assert!(pool.join_next());
    }
    assert_eq!(pool.progress_line(), "Waiting for 345/1200 shards(s) to finish");
}
