use futures::FutureExt;
use memobot::bot::shard::{
    process_event, CloseStep, Event, ReceiveError, Received, ShardAction, ShardStatus,
    Supervisor, Teardown,
};
use memobot::bot::Context;
use memobot::id::{Id, ShardId};
use memobot::kernel::config::api::ApiConfig;
use memobot::kernel::{Config, Environment, Kernel, ShutdownReason};
use memobot::log::Level;

fn shard_kernel() -> Kernel {
    let config = Config::assemble(
        ApiConfig::from_env(Ok(None), Ok(None)),
        Ok(Some(Id::new(42))),
        Ok(Environment::Testing),
        Ok(String::from("secret")),
        Ok(Some(1)),
        1,
    )
    .unwrap();
    Kernel::init(config, None).unwrap()
}

#[test]
fn an_event_is_handed_out() {
    let mut kernel = shard_kernel();
    let mut supervisor = Supervisor::new(ShardId::new(0, 2));
    let turn = supervisor.next_event(&mut kernel, Received::Event(Event::Other));
    assert_eq!(turn.action, ShardAction::Event(Event::Other));
    assert_eq!(turn.log, None);
    assert!(!turn.shutdown_called);
    assert_eq!(turn.notice, None);
    assert_eq!(supervisor.status(), ShardStatus::Running);
    assert!(!kernel.is_shutdown());
}

#[test]
fn a_failure_that_is_not_fatal_is_passed_over() {
    let mut kernel = shard_kernel();
    let mut supervisor = Supervisor::new(ShardId::new(0, 2));
    for error in [ReceiveError::Io, ReceiveError::Other] {
        let turn = supervisor.next_event(&mut kernel, Received::Error(error));
        assert_eq!(turn.action, ShardAction::Ignore);
        assert_eq!(turn.log, Some(Level::Warn));
        assert!(!turn.shutdown_called);
        assert_eq!(supervisor.status(), ShardStatus::Running);
        assert!(!kernel.is_shutdown());
    }
}

#[test]
fn a_fatal_failure_shuts_the_kernel_down_and_leaves_the_loop() {
    let mut kernel = shard_kernel();
    let mut supervisor = Supervisor::new(ShardId::new(1, 2));
    let turn = supervisor.next_event(&mut kernel, Received::Error(ReceiveError::FatallyClosed));
    assert_eq!(turn.action, ShardAction::CloseLoop);
    assert_eq!(turn.log, Some(Level::Error));
    assert!(turn.shutdown_called);
    assert_eq!(
        turn.notice.as_deref(),
        Some("Shard [1, 2] got a fatal error; performing graceful shutdown...")
    );
    assert_eq!(supervisor.status(), ShardStatus::Closing);
    assert_eq!(
        kernel.shutdown_reason(),
        Some(ShutdownReason::ShardFatalError(ShardId::new(1, 2)))
    );
    assert!(kernel.shutdown_guard().signal.now_or_never().is_some());
}

#[test]
fn the_shutdown_signal_leaves_the_loop_without_a_call() {
    let mut kernel = shard_kernel();
    kernel.shutdown(ShutdownReason::Signal);
    let mut supervisor = Supervisor::new(ShardId::new(1, 2));
    let turn = supervisor.next_event(&mut kernel, Received::Shutdown);
    assert_eq!(turn.action, ShardAction::CloseLoop);
    assert_eq!(turn.log, None);
    assert!(!turn.shutdown_called);
    assert_eq!(turn.notice, None);
    assert_eq!(supervisor.status(), ShardStatus::Closing);
    assert_eq!(kernel.shutdown_reason(), Some(ShutdownReason::Signal));
}

#[test]
fn a_fatal_failure_closes_once_whatever_follows() {
    let mut kernel = shard_kernel();
    let mut supervisor = Supervisor::new(ShardId::new(0, 1));
    let later = [
        Received::Event(Event::Other),
        Received::Error(ReceiveError::FatallyClosed),
        Received::Shutdown,
        Received::Error(ReceiveError::Io),
        Received::Event(Event::Ready { application_id: Id::new(5) }),
    ];
    let mut closes = 0;
    let mut calls = 0;
    let mut notices = 0;
    let mut inputs = vec![Received::Error(ReceiveError::FatallyClosed)];
    inputs.extend(later);
    for received in inputs {
        let before = supervisor.status();
        let turn = supervisor.next_event(&mut kernel, received);
        if before == ShardStatus::Running && supervisor.status() == ShardStatus::Closing {
            closes += 1;
        }
        if turn.shutdown_called {
            calls += 1;
        }
        if turn.notice.is_some() {
            notices += 1;
        }
        assert_eq!(turn.action, ShardAction::CloseLoop);
    }
    assert_eq!(closes, 1);
    assert_eq!(calls, 1);
    assert_eq!(notices, 1);
    assert_eq!(
        kernel.shutdown_reason(),
        Some(ShutdownReason::ShardFatalError(ShardId::new(0, 1)))
    );
    assert_eq!(kernel.application_id().get(), 42);
}

#[test]
fn two_shards_with_fatal_failures_fire_one_shutdown() {
    let mut kernel = shard_kernel();
    let mut first = Supervisor::new(ShardId::new(0, 2));
    let mut second = Supervisor::new(ShardId::new(1, 2));
    let one = first.next_event(&mut kernel, Received::Error(ReceiveError::FatallyClosed));
    let two = second.next_event(&mut kernel, Received::Error(ReceiveError::FatallyClosed));
    assert!(one.shutdown_called && two.shutdown_called);
    assert!(one.notice.is_some());
    assert!(two.notice.is_none());
    assert_eq!(
        kernel.shutdown_reason(),
        Some(ShutdownReason::ShardFatalError(ShardId::new(0, 2)))
    );
    assert_eq!(second.status(), ShardStatus::Closing);
}

#[test]
fn only_a_running_loop_hands_events_out() {
    let mut kernel = shard_kernel();
    let mut supervisor = Supervisor::new(ShardId::new(0, 1));
    assert!(supervisor.dispatch());
    assert!(supervisor.dispatch());
    assert_eq!(supervisor.handlers(), 2);
    supervisor.next_event(&mut kernel, Received::Shutdown);
    assert!(!supervisor.dispatch());
    assert_eq!(supervisor.handlers(), 2);
    supervisor.handler_finished();
    assert_eq!(supervisor.handlers(), 1);
}

#[test]
fn teardown_waits_for_the_handlers() {
    let mut kernel = shard_kernel();
    let mut supervisor = Supervisor::new(ShardId::new(0, 1));
    assert_eq!(supervisor.begin_close(false), Teardown::NotYet);
    supervisor.dispatch();
    supervisor.next_event(&mut kernel, Received::Shutdown);
    assert_eq!(supervisor.begin_close(false), Teardown::NotYet);
    assert_eq!(supervisor.close_shard(Ok(())), CloseStep::NotClosing);
    supervisor.handler_finished();
    assert_eq!(supervisor.begin_close(false), Teardown::SendClose);
    assert_eq!(supervisor.status(), ShardStatus::Closing);
}

#[test]
fn the_closing_message_is_due_once() {
    let mut kernel = shard_kernel();
    let mut supervisor = Supervisor::new(ShardId::new(0, 1));
    supervisor.next_event(&mut kernel, Received::Shutdown);
    assert_eq!(supervisor.begin_close(false), Teardown::SendClose);
    assert_eq!(supervisor.begin_close(false), Teardown::Underway);
    assert_eq!(supervisor.begin_close(false), Teardown::Underway);
    assert_eq!(supervisor.status(), ShardStatus::Closing);
    assert_eq!(
        supervisor.close_shard(Err(ReceiveError::Other)),
        CloseStep::ReadAgain(Level::Warn)
    );
    assert_eq!(supervisor.begin_close(false), Teardown::Underway);
    assert_eq!(supervisor.begin_close(true), Teardown::Done);
    assert_eq!(supervisor.status(), ShardStatus::Disconnected);
    assert_eq!(supervisor.begin_close(false), Teardown::Done);
}

#[test]
fn a_connection_that_is_gone_needs_no_teardown() {
    let mut kernel = shard_kernel();
    let mut supervisor = Supervisor::new(ShardId::new(0, 1));
    supervisor.next_event(&mut kernel, Received::Shutdown);
    assert_eq!(supervisor.begin_close(true), Teardown::Done);
    assert_eq!(supervisor.status(), ShardStatus::Disconnected);
    assert_eq!(supervisor.begin_close(false), Teardown::Done);
    assert_eq!(supervisor.close_shard(Err(ReceiveError::Other)), CloseStep::Finished);
}

#[test]
fn teardown_reads_until_a_message_or_a_dead_socket() {
    let mut kernel = shard_kernel();
    let mut supervisor = Supervisor::new(ShardId::new(0, 1));
    supervisor.next_event(&mut kernel, Received::Shutdown);
    assert_eq!(supervisor.begin_close(false), Teardown::SendClose);
    assert_eq!(
        supervisor.close_shard(Err(ReceiveError::Other)),
        CloseStep::ReadAgain(Level::Warn)
    );
    assert_eq!(
        supervisor.close_shard(Err(ReceiveError::FatallyClosed)),
        CloseStep::ReadAgain(Level::Error)
    );
    assert_eq!(supervisor.status(), ShardStatus::Closing);
    assert_eq!(supervisor.close_shard(Ok(())), CloseStep::Finished);
    assert_eq!(supervisor.status(), ShardStatus::Disconnected);

    let mut other = Supervisor::new(ShardId::new(0, 1));
    other.next_event(&mut kernel, Received::Shutdown);
    other.begin_close(false);
    assert_eq!(other.close_shard(Err(ReceiveError::Io)), CloseStep::Finished);
    assert_eq!(other.status(), ShardStatus::Disconnected);
}

#[test]
fn teardown_errors_do_not_shut_the_kernel_down() {
    let mut kernel = shard_kernel();
    let mut supervisor = Supervisor::new(ShardId::new(0, 1));
    supervisor.next_event(&mut kernel, Received::Shutdown);
    supervisor.begin_close(false);
    supervisor.close_shard(Err(ReceiveError::FatallyClosed));
    assert!(!kernel.is_shutdown());
}

#[test]
fn a_ready_session_corrects_the_identifier() {
    let mut kernel = shard_kernel();
    let replaced = process_event(&mut kernel, Event::Ready { application_id: Id::new(77) });
    assert_eq!(replaced, Some(Id::new(42)));
    assert_eq!(kernel.application_id().get(), 77);
    let replaced = process_event(&mut kernel, Event::Ready { application_id: Id::new(77) });
    assert_eq!(replaced, None);
    assert_eq!(kernel.application_id().get(), 77);
    assert!(!kernel.is_shutdown());
}

#[test]
fn other_events_change_nothing() {
    let mut kernel = shard_kernel();
    assert_eq!(process_event(&mut kernel, Event::Other), None);
    assert_eq!(kernel.application_id().get(), 42);
}

#[test]
fn receive_errors_know_whether_they_are_fatal() {
    assert!(ReceiveError::FatallyClosed.is_fatal());
    assert!(!ReceiveError::Io.is_fatal());
    assert!(!ReceiveError::Other.is_fatal());
}

#[test]
fn the_context_names_its_shard() {
    let supervisor = Supervisor::new(ShardId::new(2, 3));
    assert_eq!(supervisor.context().shard_id(), ShardId::new(2, 3));
    assert_eq!(Context::new(ShardId::new(0, 1)).shard_id(), ShardId::new(0, 1));
}
