//! Supervision of one gateway connection: what to do with each thing it
//! receives, when its loop ends, and how the connection is torn down.

use crate::bot::Context;
use crate::id::{Id, ShardId};
use crate::kernel::shutdown::shutdown_notice;
use crate::kernel::{Kernel, KernelView, ShutdownReason};
use crate::log::Level;
use vstd::prelude::*;

verus! {

/// An event of the gateway, as far as the bot looks into it.
#[derive(Debug, Clone, Copy, PartialEq, Eq)]
pub enum Event {
    /// A session is ready; the service names the application it belongs to.
    Ready { application_id: Id },
    /// Any other event.
    Other,
}

/// Why nothing could be received from a connection.
#[derive(Debug, Clone, Copy, PartialEq, Eq)]
pub enum ReceiveError {
    /// The connection was closed for good: every further attempt fails too.
    FatallyClosed,
    /// The socket itself failed.
    Io,
    /// Any other failure, after which the connection can still be used.
    Other,
}

impl ReceiveError {
    /// Whether the connection is lost for good.
    pub open spec fn fatal(self) -> bool {
        self is FatallyClosed
    }

    /// Whether the connection is lost for good.
    pub fn is_fatal(&self) -> (fatal: bool)
        ensures
            fatal == self.fatal(),
    {
        match self {
            ReceiveError::FatallyClosed => true,
            _ => false,
        }
    }
}

/// What came first: something from the connection, or the shutdown signal.
#[derive(Debug, Clone, Copy, PartialEq, Eq)]
pub enum Received {
    /// The connection delivered an event.
    Event(Event),
    /// Receiving from the connection failed.
    Error(ReceiveError),
    /// The shutdown signal was set.
    Shutdown,
}

/// What the supervisor's loop does next.
#[derive(Debug, Clone, Copy, PartialEq, Eq)]
pub enum ShardAction {
    /// Hand the event to a handler task of its own, and go on.
    Event(Event),
    /// Go on without handing anything out.
    Ignore,
    /// Leave the loop.
    CloseLoop,
}

/// Where a connection stands.
#[derive(Debug, Clone, Copy, PartialEq, Eq)]
pub enum ShardStatus {
    /// Events are received and handed out.
    Running,
    /// The loop was left; handlers finish and the connection is torn down.
    Closing,
    /// The connection is gone. Nothing follows this.
    Disconnected,
}

/// The supervisor of one connection.
#[derive(Debug)]
pub struct Supervisor {
    shard_id: ShardId,
    status: ShardStatus,
    handlers: usize,
    tearing_down: bool,
}

/// What a `Supervisor` stands for.
pub struct SupervisorView {
    /// The connection that is supervised.
    pub shard_id: ShardId,
    /// Where the connection stands.
    pub status: ShardStatus,
    /// Number of handler tasks that were handed an event and have not
    /// finished.
    pub handlers: nat,
    /// Whether the teardown of the connection has begun.
    pub tearing_down: bool,
}

/// What one turn of the supervisor's loop decides.
#[derive(Debug)]
pub struct Turn {
    /// What the loop does next.
    pub action: ShardAction,
    /// The level at which the failure to receive is logged, if there was one.
    pub log: Option<Level>,
    /// Whether the kernel's `shutdown` was called in this turn.
    pub shutdown_called: bool,
    /// The line to log where that call set the signal: the caller then
    /// cancels what waits on it.
    pub notice: Option<String>,
}

/// What the teardown of a connection does next.
#[derive(Debug, Clone, Copy, PartialEq, Eq)]
pub enum Teardown {
    /// Nothing yet: the loop still runs, or handlers have not finished.
    NotYet,
    /// Nothing more: the connection is already gone.
    Done,
    /// Send the message that closes the connection normally, then read until
    /// `close_shard` says that the teardown is finished. This is answered once
    /// for a connection.
    SendClose,
    /// The teardown has begun and the closing message is out: send nothing,
    /// and go on reading.
    Underway,
}

/// What follows one read during teardown.
#[derive(Debug, Clone, Copy, PartialEq, Eq)]
pub enum CloseStep {
    /// The teardown is over.
    Finished,
    /// Read again; the failure is logged at this level.
    ReadAgain(Level),
    /// The connection is not being torn down: nothing was done.
    NotClosing,
}

impl View for Supervisor {
    type V = SupervisorView;

    closed spec fn view(&self) -> SupervisorView {
        SupervisorView {
            shard_id: self.shard_id,
            status: self.status,
            handlers: self.handlers as nat,
            tearing_down: self.tearing_down,
        }
    }
}

impl Received {
    /// What the loop does with what it received while it runs.
    pub open spec fn action(self) -> ShardAction {
        match self {
            Received::Event(event) => ShardAction::Event(event),
            Received::Error(error) => if error.fatal() {
                ShardAction::CloseLoop
            } else {
                ShardAction::Ignore
            },
            Received::Shutdown => ShardAction::CloseLoop,
        }
    }

    /// The level at which a turn logs what it received.
    pub open spec fn log(self) -> Option<Level> {
        match self {
            Received::Error(error) => if error.fatal() {
                Some(Level::Error)
            } else {
                Some(Level::Warn)
            },
            _ => None,
        }
    }

    /// Whether what was received is a fatal error.
    pub open spec fn fatal(self) -> bool {
        self matches Received::Error(error) && error.fatal()
    }
}

impl SupervisorView {
    /// The supervisor after one turn of its loop.
    pub open spec fn after(self, received: Received) -> SupervisorView {
        if self.status is Running && received.action() is CloseLoop {
            SupervisorView { status: ShardStatus::Closing, ..self }
        } else {
            self
        }
    }

    /// What the loop does in one turn: once the loop was left, every turn
    /// leaves it again.
    pub open spec fn action(self, received: Received) -> ShardAction {
        if self.status is Running {
            received.action()
        } else {
            ShardAction::CloseLoop
        }
    }

    /// Whether a turn calls the kernel's `shutdown`: only a running loop that
    /// receives a fatal error does.
    pub open spec fn calls_shutdown(self, received: Received) -> bool {
        self.status is Running && received.fatal()
    }

    /// The kernel after one turn of the loop.
    pub open spec fn kernel_after(self, kernel: KernelView, received: Received) -> KernelView {
        if self.calls_shutdown(received) {
            kernel.after_shutdown(ShutdownReason::ShardFatalError(self.shard_id))
        } else {
            kernel
        }
    }
}

impl Supervisor {
    /// The supervisor of the connection `shard_id`: it runs, and no handler
    /// is at work.
    pub fn new(shard_id: ShardId) -> (supervisor: Supervisor)
        ensures
            supervisor@ == (SupervisorView {
                shard_id,
                status: ShardStatus::Running,
                handlers: 0,
                tearing_down: false,
            }),
    {
        Supervisor { shard_id, status: ShardStatus::Running, handlers: 0, tearing_down: false }
    }

    /// The context for the handlers of this connection.
    pub fn context(&self) -> (context: Context)
        ensures
            context@ == self@.shard_id,
    {
        Context::new(self.shard_id)
    }

    /// Where the connection stands.
    pub fn status(&self) -> (status: ShardStatus)
        ensures
            status == self@.status,
    {
        self.status
    }

    /// Number of handler tasks that have not finished.
    pub fn handlers(&self) -> (handlers: usize)
        ensures
            handlers == self@.handlers,
    {
        self.handlers
    }

    /// One turn of the supervisor's loop, on what the race between the
    /// connection and the shutdown signal gave. An event is handed out and a
    /// failure that is not fatal is logged and passed over. The shutdown
    /// signal ends the loop, and so does a fatal failure, which before that
    /// shuts the kernel down with this connection as the reason.
    pub fn next_event(&mut self, kernel: &mut Kernel, received: Received) -> (turn: Turn)
        ensures
            final(self)@ == old(self)@.after(received),
            final(kernel)@ == old(self)@.kernel_after(old(kernel)@, received),
            turn.action == old(self)@.action(received),
            turn.log == if old(self)@.status is Running {
                received.log()
            } else {
                None
            },
            turn.shutdown_called == old(self)@.calls_shutdown(received),
            turn.notice is Some <==> old(self)@.calls_shutdown(received) && old(
                kernel,
            )@.shutdown_fires(),
            turn.notice matches Some(line) ==> line@ == shutdown_notice(
                ShutdownReason::ShardFatalError(old(self)@.shard_id),
            ),
    {
        match self.status {
            ShardStatus::Running => {},
            _ => {
                return Turn {
                    action: ShardAction::CloseLoop,
                    log: None,
                    shutdown_called: false,
                    notice: None,
                };
            },
        }
        match received {
            Received::Event(event) => Turn {
                action: ShardAction::Event(event),
                log: None,
                shutdown_called: false,
                notice: None,
            },
            Received::Error(error) => {
                if error.is_fatal() {
                    let notice = kernel.shutdown(ShutdownReason::ShardFatalError(self.shard_id));
                    self.status = ShardStatus::Closing;
                    Turn {
                        action: ShardAction::CloseLoop,
                        log: Some(Level::Error),
                        shutdown_called: true,
                        notice,
                    }
                } else {
                    Turn {
                        action: ShardAction::Ignore,
                        log: Some(Level::Warn),
                        shutdown_called: false,
                        notice: None,
                    }
                }
            },
            Received::Shutdown => {
                self.status = ShardStatus::Closing;
                Turn {
                    action: ShardAction::CloseLoop,
                    log: None,
                    shutdown_called: false,
                    notice: None,
                }
            },
        }
    }

    /// Counts a handler task that is about to be handed an event. Only a
    /// running loop hands events out: otherwise nothing is counted and the
    /// answer is `false`.
    pub fn dispatch(&mut self) -> (accepted: bool)
        requires
            old(self)@.status is Running ==> old(self)@.handlers < usize::MAX,
        ensures
            accepted == (old(self)@.status is Running),
            final(self)@ == if accepted {
                SupervisorView { handlers: old(self)@.handlers + 1, ..old(self)@ }
            } else {
                old(self)@
            },
    {
        match self.status {
            ShardStatus::Running => {
                self.handlers = self.handlers + 1;
                true
            },
            _ => false,
        }
    }

    /// Takes a handler task that has finished out of the count.
    pub fn handler_finished(&mut self)
        requires
            old(self)@.handlers > 0,
        ensures
            final(self)@ == (SupervisorView {
                handlers: (old(self)@.handlers - 1) as nat,
                ..old(self)@
            }),
    {
        self.handlers = self.handlers - 1;
    }

    /// Begins the teardown, once the loop was left and every handler has
    /// finished. `is_disconnected` says whether the connection is already
    /// gone: then nothing is left to do, else the closing message is due. It
    /// is due once: where the teardown has begun already, nothing is sent.
    pub fn begin_close(&mut self, is_disconnected: bool) -> (teardown: Teardown)
        ensures
            teardown == old(self)@.teardown(is_disconnected),
            final(self)@ == old(self)@.after_begin_close(is_disconnected),
    {
        match self.status {
            ShardStatus::Running => Teardown::NotYet,
            ShardStatus::Disconnected => Teardown::Done,
            ShardStatus::Closing => {
                if self.handlers > 0 {
                    Teardown::NotYet
                } else if is_disconnected {
                    self.status = ShardStatus::Disconnected;
                    Teardown::Done
                } else if self.tearing_down {
                    Teardown::Underway
                } else {
                    self.tearing_down = true;
                    Teardown::SendClose
                }
            },
        }
    }

    /// One read of the teardown, after the closing message was sent. A
    /// message that arrives completes the closing handshake, and a failure of
    /// the socket shows that it is gone: both end the teardown. Any other
    /// failure is logged, as an error if it is fatal and as a warning if not,
    /// and the reading goes on. The kernel is not touched.
    pub fn close_shard(&mut self, read: Result<(), ReceiveError>) -> (step: CloseStep)
        ensures
            step == old(self)@.close_step(read),
            final(self)@ == old(self)@.after_close_step(read),
    {
        match self.status {
            ShardStatus::Running => { return CloseStep::NotClosing; },
            ShardStatus::Disconnected => { return CloseStep::Finished; },
            ShardStatus::Closing => {},
        }
        if !self.tearing_down {
            return CloseStep::NotClosing;
        }
        match read {
            Ok(()) => {
                self.status = ShardStatus::Disconnected;
                CloseStep::Finished
            },
            Err(ReceiveError::Io) => {
                self.status = ShardStatus::Disconnected;
                CloseStep::Finished
            },
            Err(ReceiveError::FatallyClosed) => CloseStep::ReadAgain(Level::Error),
            Err(ReceiveError::Other) => CloseStep::ReadAgain(Level::Warn),
        }
    }
}

impl SupervisorView {
    /// Whether the connection is being torn down.
    pub open spec fn closing(self) -> bool {
        self.status is Closing && self.tearing_down
    }

    /// What `begin_close` answers.
    pub open spec fn teardown(self, is_disconnected: bool) -> Teardown {
        match self.status {
            ShardStatus::Running => Teardown::NotYet,
            ShardStatus::Disconnected => Teardown::Done,
            ShardStatus::Closing => if self.handlers > 0 {
                Teardown::NotYet
            } else if is_disconnected {
                Teardown::Done
            } else if self.tearing_down {
                Teardown::Underway
            } else {
                Teardown::SendClose
            },
        }
    }

    /// The supervisor after `begin_close`: a connection that is already gone
    /// is disconnected, and for any other the teardown has begun.
    pub open spec fn after_begin_close(self, is_disconnected: bool) -> SupervisorView {
        match self.teardown(is_disconnected) {
            Teardown::NotYet => self,
            Teardown::Done => SupervisorView { status: ShardStatus::Disconnected, ..self },
            Teardown::SendClose => SupervisorView { tearing_down: true, ..self },
            Teardown::Underway => self,
        }
    }

    /// The supervisor after one read during teardown: the read that ends
    /// the teardown disconnects.
    pub open spec fn after_close_step(self, read: Result<(), ReceiveError>) -> SupervisorView {
        if self.closing() && self.close_step(read) is Finished {
            SupervisorView { status: ShardStatus::Disconnected, ..self }
        } else {
            self
        }
    }

    /// What follows one read during teardown.
    pub open spec fn close_step(self, read: Result<(), ReceiveError>) -> CloseStep {
        if self.status is Disconnected {
            CloseStep::Finished
        } else if !self.closing() {
            CloseStep::NotClosing
        } else {
            match read {
                Ok(_) => CloseStep::Finished,
                Err(ReceiveError::Io) => CloseStep::Finished,
                Err(ReceiveError::FatallyClosed) => CloseStep::ReadAgain(Level::Error),
                Err(ReceiveError::Other) => CloseStep::ReadAgain(Level::Warn),
            }
        }
    }
}

/// Handles one event of the gateway. A session that is ready names the
/// application it belongs to: where that is not the identifier the kernel
/// holds, the kernel takes the new one, and the one it held is returned for
/// the warning. Every other event changes nothing.
pub fn process_event(kernel: &mut Kernel, event: Event) -> (replaced: Option<Id>)
    ensures
        final(kernel)@ == match event {
            Event::Ready { application_id } => KernelView { application_id, ..old(kernel)@ },
            Event::Other => old(kernel)@,
        },
        replaced == match event {
            Event::Ready { application_id } => if application_id != old(kernel)@.application_id {
                Some(old(kernel)@.application_id)
            } else {
                None
            },
            Event::Other => None,
        },
{
    match event {
        Event::Ready { application_id } => {
            let held = kernel.application_id();
            proof {
                Id::lemma_view_decides(application_id, held);
            }
            if application_id.get() != held.get() {
                kernel.override_application_id(application_id);
                Some(held)
            } else {
                None
            }
        },
        Event::Other => None,
    }
}

/// What a run of turns amounts to.
pub struct Run {
    /// The supervisor after the run.
    pub supervisor: SupervisorView,
    /// The kernel after the run.
    pub kernel: KernelView,
    /// How often the supervisor went from running to closing.
    pub closes: nat,
    /// How often the kernel's `shutdown` was called.
    pub shutdown_calls: nat,
    /// How often such a call set the signal.
    pub shutdowns_fired: nat,
}

/// The supervisor's loop fed with `inputs`, one turn after the other.
pub open spec fn run(supervisor: SupervisorView, kernel: KernelView, inputs: Seq<Received>) -> Run
    decreases inputs.len(),
{
    if inputs.len() == 0 {
        Run { supervisor, kernel, closes: 0, shutdown_calls: 0, shutdowns_fired: 0 }
    } else {
        let first = inputs[0];
        let rest = run(
            supervisor.after(first),
            supervisor.kernel_after(kernel, first),
            inputs.drop_first(),
        );
        let closed: nat = if supervisor.status is Running && supervisor.after(first).status
            is Closing {
            1
        } else {
            0
        };
        let called: nat = if supervisor.calls_shutdown(first) {
            1
        } else {
            0
        };
        let fired: nat = if supervisor.calls_shutdown(first) && kernel.shutdown_fires() {
            1
        } else {
            0
        };
        Run {
            closes: rest.closes + closed,
            shutdown_calls: rest.shutdown_calls + called,
            shutdowns_fired: rest.shutdowns_fired + fired,
            ..rest
        }
    }
}

/// Once its loop was left a supervisor stays as it is, whatever arrives: it
/// never runs again, closes nothing a second time and leaves the kernel
/// alone.
pub proof fn lemma_closed_loop_stays_closed(
    supervisor: SupervisorView,
    kernel: KernelView,
    inputs: Seq<Received>,
)
    requires
        !(supervisor.status is Running),
    ensures
        run(supervisor, kernel, inputs) == (Run {
            supervisor,
            kernel,
            closes: 0,
            shutdown_calls: 0,
            shutdowns_fired: 0,
        }),
    decreases inputs.len(),
{
    if inputs.len() > 0 {
        lemma_closed_loop_stays_closed(supervisor, kernel, inputs.drop_first());
    }
}

/// Whether none of `inputs` ends a running loop: each is an event or a
/// failure that is not fatal.
pub open spec fn all_go_on(inputs: Seq<Received>) -> bool {
    forall|i: int| 0 <= i < inputs.len() ==> !((#[trigger] inputs[i]).action() is CloseLoop)
}

/// Events and failures that are not fatal leave a running supervisor
/// running and the kernel as it is.
pub proof fn lemma_loop_goes_on(
    supervisor: SupervisorView,
    kernel: KernelView,
    inputs: Seq<Received>,
)
    requires
        supervisor.status is Running,
        all_go_on(inputs),
    ensures
        run(supervisor, kernel, inputs) == (Run {
            supervisor,
            kernel,
            closes: 0,
            shutdown_calls: 0,
            shutdowns_fired: 0,
        }),
    decreases inputs.len(),
{
    if inputs.len() > 0 {
        let first = inputs[0];
        assert(!(first.action() is CloseLoop));
        assert(all_go_on(inputs.drop_first())) by {
            assert forall|i: int| 0 <= i < inputs.drop_first().len() implies !((
            #[trigger] inputs.drop_first()[i]).action() is CloseLoop) by {
                assert(inputs.drop_first()[i] == inputs[i + 1]);
            }
        }
        lemma_loop_goes_on(supervisor, kernel, inputs.drop_first());
    }
}

/// A run over two stretches of inputs is the run over the first followed
/// by the run over the second, and what is counted adds up.
pub proof fn lemma_run_in_two_stretches(
    supervisor: SupervisorView,
    kernel: KernelView,
    first: Seq<Received>,
    second: Seq<Received>,
)
    ensures
        ({
            let head = run(supervisor, kernel, first);
            let tail = run(head.supervisor, head.kernel, second);
            run(supervisor, kernel, first + second) == (Run {
                supervisor: tail.supervisor,
                kernel: tail.kernel,
                closes: head.closes + tail.closes,
                shutdown_calls: head.shutdown_calls + tail.shutdown_calls,
                shutdowns_fired: head.shutdowns_fired + tail.shutdowns_fired,
            })
        }),
    decreases first.len(),
{
    if first.len() == 0 {
        assert(first + second =~= second);
    } else {
        let input = first[0];
        assert((first + second)[0] == input);
        assert((first + second).drop_first() =~= first.drop_first() + second);
        lemma_run_in_two_stretches(
            supervisor.after(input),
            supervisor.kernel_after(kernel, input),
            first.drop_first(),
            second,
        );
    }
}

/// A running connection that receives a fatal error leaves its loop exactly
/// once and calls the kernel's `shutdown` exactly once, with itself as the
/// reason. This holds whatever it was handed before, as long as that let the
/// loop go on, and whatever arrives after the error: more events, more fatal
/// errors, the shutdown signal. The call sets the signal unless it was set
/// before.
pub proof fn lemma_fatal_error_closes_once(
    supervisor: SupervisorView,
    kernel: KernelView,
    before: Seq<Received>,
    later: Seq<Received>,
)
    requires
        supervisor.status is Running,
        all_go_on(before),
    ensures
        ({
            let end = run(
                supervisor,
                kernel,
                before + seq![Received::Error(ReceiveError::FatallyClosed)] + later,
            );
            &&& end.closes == 1
            &&& end.shutdown_calls == 1
            &&& end.shutdowns_fired == if kernel.is_shutdown() {
                0nat
            } else {
                1nat
            }
            &&& end.supervisor == (SupervisorView { status: ShardStatus::Closing, ..supervisor })
            &&& end.kernel == kernel.after_shutdown(
                ShutdownReason::ShardFatalError(supervisor.shard_id),
            )
            &&& end.kernel.is_shutdown()
        }),
{
    let fatal = Received::Error(ReceiveError::FatallyClosed);
    let rest = seq![fatal] + later;
    assert(rest[0] == fatal);
    assert(rest.drop_first() =~= later);
    lemma_closed_loop_stays_closed(
        supervisor.after(fatal),
        supervisor.kernel_after(kernel, fatal),
        later,
    );
    lemma_loop_goes_on(supervisor, kernel, before);
    lemma_run_in_two_stretches(supervisor, kernel, before, rest);
    assert(before + seq![fatal] + later =~= before + rest);
}

impl ShardStatus {
    /// How far a connection has come: it runs, then closes, then is gone.
    pub open spec fn rank(self) -> nat {
        match self {
            ShardStatus::Running => 0,
            ShardStatus::Closing => 1,
            ShardStatus::Disconnected => 2,
        }
    }
}

/// A connection never goes back: whatever the supervisor is handed, its
/// status stays or moves on from running to closing to disconnected. A
/// connection that is gone stays gone, and nothing about its supervisor
/// changes any more. The teardown begins only when no handler is at work.
pub proof fn lemma_status_never_goes_back(
    supervisor: SupervisorView,
    received: Received,
    is_disconnected: bool,
    read: Result<(), ReceiveError>,
)
    ensures
        supervisor.after(received).status.rank() >= supervisor.status.rank(),
        supervisor.after_begin_close(is_disconnected).status.rank() >= supervisor.status.rank(),
        supervisor.after_close_step(read).status.rank() >= supervisor.status.rank(),
        supervisor.status is Disconnected ==> supervisor.after(received) == supervisor
            && supervisor.after_begin_close(is_disconnected) == supervisor
            && supervisor.after_close_step(read) == supervisor,
        supervisor.after_begin_close(is_disconnected) != supervisor ==> supervisor.handlers == 0,
{
}

/// The message that closes a connection is sent once. It is due only
/// where the teardown has not begun, and asking for it begins the teardown;
/// once the teardown has begun it stays begun, whatever the supervisor is
/// handed, and the message is never due again.
pub proof fn lemma_closing_message_is_sent_once(
    supervisor: SupervisorView,
    received: Received,
    is_disconnected: bool,
    again: bool,
    read: Result<(), ReceiveError>,
)
    ensures
        supervisor.teardown(is_disconnected) is SendClose ==> !supervisor.tearing_down
            && supervisor.handlers == 0 && supervisor.after_begin_close(
            is_disconnected,
        ).tearing_down,
        supervisor.tearing_down ==> !(supervisor.teardown(is_disconnected) is SendClose),
        supervisor.tearing_down ==> supervisor.after(received).tearing_down
            && supervisor.after_begin_close(is_disconnected).tearing_down
            && supervisor.after_close_step(read).tearing_down,
        !(supervisor.after_begin_close(is_disconnected).teardown(again) is SendClose)
            || !(supervisor.teardown(is_disconnected) is SendClose),
{
}

} // verus!
