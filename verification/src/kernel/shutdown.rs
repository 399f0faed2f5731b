//! The kernel's one-shot shutdown signal.

use crate::kernel::{Kernel, KernelStep, KernelView, ShutdownReason};
use vstd::prelude::*;
use vstd::string::*;

verus! {

/// `tokio_util::sync::CancellationToken`: the flag that wakes whatever
/// waits for the shutdown.
#[verifier::external_type_specification]
#[verifier::external_body]
pub struct ExCancellationToken(tokio_util::sync::CancellationToken);

/// `tokio_util::sync::WaitForCancellationFutureOwned`: the future that
/// completes once a token is cancelled.
#[verifier::external_type_specification]
#[verifier::external_body]
pub struct ExWaitForCancellationFutureOwned(tokio_util::sync::WaitForCancellationFutureOwned);

/// `CancellationToken::new`: a token of its own. Nothing is claimed of it.
#[verifier::external_body]
pub(crate) fn new_token() -> (token: tokio_util::sync::CancellationToken) {
    tokio_util::sync::CancellationToken::new()
}

/// `CancellationToken::cancel`: wakes every task that waits on the token.
/// Nothing is claimed of it.
#[verifier::external_body]
fn cancel(token: &tokio_util::sync::CancellationToken) {
    token.cancel()
}

/// `CancellationToken::cancelled_owned`, on a clone of the token: the
/// future that completes once the token is cancelled. Nothing is claimed of
/// it.
#[verifier::external_body]
fn cancelled(token: &tokio_util::sync::CancellationToken) -> (signal:
    tokio_util::sync::WaitForCancellationFutureOwned) {
    token.clone().cancelled_owned()
}

/// What a caller gets that waits for the shutdown signal.
pub struct ShutdownGuard {
    /// The reason for which the signal is set, if it is set already.
    pub released: Option<ShutdownReason>,
    /// The future to wait on: it completes once the signal is set, for
    /// every waiter alike.
    pub signal: tokio_util::sync::WaitForCancellationFutureOwned,
}

/// The line that is logged when the signal is set.
pub open spec fn shutdown_notice(reason: ShutdownReason) -> Seq<char> {
    reason.text() + "; performing graceful shutdown..."@
}

impl KernelView {
    /// Whether the signal is set.
    pub open spec fn is_shutdown(self) -> bool {
        self.shutdown is Some
    }

    /// The kernel after a call of `shutdown`: the first reason stays.
    pub open spec fn after_shutdown(self, reason: ShutdownReason) -> KernelView {
        if self.is_shutdown() {
            self
        } else {
            KernelView { shutdown: Some(reason), ..self }
        }
    }

    /// Whether a call of `shutdown` sets the signal, and so logs and wakes
    /// the waiters.
    pub open spec fn shutdown_fires(self) -> bool {
        !self.is_shutdown()
    }
}

impl Kernel {
    /// Whether the shutdown signal is set.
    pub fn is_shutdown(&self) -> (set: bool)
        ensures
            set == self@.is_shutdown(),
    {
        self.shutdown.is_some()
    }

    /// A guard for one waiter: the future that suspends the waiter until
    /// the signal is set, and the reason where it is set already. Any number
    /// of waiters can hold a guard, and all of them find the same reason.
    pub fn shutdown_guard(&self) -> (guard: ShutdownGuard)
        ensures
            guard.released == self@.shutdown,
    {
        ShutdownGuard { released: self.shutdown, signal: cancelled(&self.token) }
    }

    /// The reason for which the signal was set, if it is set.
    pub fn shutdown_reason(&self) -> (reason: Option<ShutdownReason>)
        ensures
            reason == self@.shutdown,
    {
        self.shutdown
    }

    /// Sets the shutdown signal. The first call records its reason, wakes
    /// whatever waits on the signal and returns the line to log; every later
    /// call changes nothing, wakes nothing and returns `None`.
    pub fn shutdown(&mut self, reason: ShutdownReason) -> (notice: Option<String>)
        ensures
            final(self)@ == old(self)@.step(KernelStep::Shutdown(reason)),
            notice is Some <==> old(self)@.shutdown_fires(),
            notice matches Some(line) ==> line@ == shutdown_notice(reason),
    {
        if self.is_shutdown() {
            return None;
        }
        let mut line = reason.to_string();
        line.append("; performing graceful shutdown...");
        self.shutdown = Some(reason);
        cancel(&self.token);
        Some(line)
    }
}

/// Once the signal is set it stays set, and the reason of the call that set
/// it stays recorded: of two calls in a row the second changes nothing and
/// sets nothing off, and on a kernel whose signal was not set the first
/// call's reason is the one recorded.
pub proof fn lemma_first_shutdown_wins(
    kernel: KernelView,
    first: ShutdownReason,
    second: ShutdownReason,
)
    ensures
        kernel.after_shutdown(first).is_shutdown(),
        kernel.after_shutdown(first).after_shutdown(second) == kernel.after_shutdown(first),
        !kernel.after_shutdown(first).shutdown_fires(),
        !kernel.is_shutdown() ==> kernel.after_shutdown(first).after_shutdown(second).shutdown
            == Some(first),
        kernel.is_shutdown() ==> kernel.after_shutdown(first).after_shutdown(second) == kernel,
{
}

/// The signal never reverts: whatever is done to a kernel whose signal is
/// set, the signal stays set and its reason stays the same.
pub proof fn lemma_shutdown_never_reverts(kernel: KernelView, steps: Seq<KernelStep>)
    requires
        kernel.is_shutdown(),
    ensures
        kernel.steps(steps).shutdown == kernel.shutdown,
    decreases steps.len(),
{
    if steps.len() > 0 {
        lemma_shutdown_never_reverts(kernel.step(steps[0]), steps.drop_first());
    }
}

} // verus!
