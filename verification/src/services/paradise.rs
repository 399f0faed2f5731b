//! The health monitor of the game server: it polls the server's status at
//! an interval, retries a failed poll a bounded number of times, and alerts
//! the community when what it observes changes.

use crate::log::Level;
use crate::paradise::bot::sanctuary::{alert_content, alert_everyone, Alert};
use crate::paradise::config::ConfigView;
use crate::paradise::Service;
use crate::text::{contains, contains_text, decimal};
use vstd::prelude::*;
use vstd::string::*;

verus! {

/// Seconds between two polls while the server answers.
pub const SANCTUARY_CHECK_INTERVAL: u64 = 120;

/// Seconds between two polls while the server cannot be reached.
pub const SANCTUARY_CHECK_INTERVAL_OUTAGE: u64 = 300;

/// Number of attempts that one poll makes at most.
pub const MAX_TRIES: usize = 3;

/// The pace of the polls.
#[derive(Debug, Clone, Copy, PartialEq, Eq)]
pub enum Mode {
    /// The server answers.
    Normal,
    /// The server cannot be reached.
    Outage,
}

impl Mode {
    /// Seconds between two polls.
    pub open spec fn period(self) -> u64 {
        match self {
            Mode::Normal => SANCTUARY_CHECK_INTERVAL,
            Mode::Outage => SANCTUARY_CHECK_INTERVAL_OUTAGE,
        }
    }

    /// Seconds between two polls.
    pub fn interval(&self) -> (seconds: u64)
        ensures
            seconds == self.period(),
    {
        match self {
            Mode::Normal => SANCTUARY_CHECK_INTERVAL,
            Mode::Outage => SANCTUARY_CHECK_INTERVAL_OUTAGE,
        }
    }

    /// The warning that is logged when the monitor changes to this pace.
    pub fn notice(&self) -> (line: String)
        ensures
            line@ == match self {
                Mode::Normal => "Aternos is back, triggering normal mode"@,
                Mode::Outage => "Aternos is down, triggering outage mode"@,
            },
    {
        match self {
            Mode::Normal => "Aternos is back, triggering normal mode".to_owned(),
            Mode::Outage => "Aternos is down, triggering outage mode".to_owned(),
        }
    }
}

/// What a poll reports to the monitor's loop.
#[derive(Debug, Clone, Copy, PartialEq, Eq)]
pub enum OutageReport {
    /// The server could not be asked.
    Down,
    /// The server answered, and what it said is new.
    Recovered,
}

impl OutageReport {
    /// The pace that the report asks for.
    pub open spec fn mode(self) -> Mode {
        match self {
            OutageReport::Down => Mode::Outage,
            OutageReport::Recovered => Mode::Normal,
        }
    }
}

/// What the monitor's loop wakes up for.
#[derive(Debug, Clone, Copy, PartialEq, Eq)]
pub enum MonitorEvent {
    /// The interval has passed.
    Tick,
    /// A poll reports.
    Outage(OutageReport),
    /// The shutdown signal is set.
    Shutdown,
}

/// What the monitor's loop does about an event.
#[derive(Debug, Clone, Copy, PartialEq, Eq)]
pub enum MonitorAction {
    /// Start a poll as a registered task.
    SpawnCheck,
    /// Nothing: no log line, and the timer stays as it is.
    Nothing,
    /// Log the change of pace and replace the timer by one of this pace's
    /// period. No poll is started for it.
    SwapInterval(Mode),
    /// Leave the loop: close the registry of polls and wait for those that
    /// are under way.
    Stop,
}

/// The health monitor.
#[derive(Debug)]
pub struct Monitor {
    mode: Mode,
    previous_state: bool,
    checks: usize,
    stopped: bool,
}

/// What a `Monitor` stands for.
pub struct MonitorView {
    /// The pace of the polls.
    pub mode: Mode,
    /// Whether the server was online when it last answered something new.
    pub previous_state: bool,
    /// Number of polls under way.
    pub checks: nat,
    /// Whether the loop was left.
    pub stopped: bool,
}

impl View for Monitor {
    type V = MonitorView;

    closed spec fn view(&self) -> MonitorView {
        MonitorView {
            mode: self.mode,
            previous_state: self.previous_state,
            checks: self.checks as nat,
            stopped: self.stopped,
        }
    }
}

impl MonitorView {
    /// What the loop does about an event.
    pub open spec fn action(self, event: MonitorEvent) -> MonitorAction {
        if self.stopped {
            MonitorAction::Nothing
        } else {
            match event {
                MonitorEvent::Tick => MonitorAction::SpawnCheck,
                MonitorEvent::Outage(report) => if report.mode() == self.mode {
                    MonitorAction::Nothing
                } else {
                    MonitorAction::SwapInterval(report.mode())
                },
                MonitorEvent::Shutdown => MonitorAction::Stop,
            }
        }
    }

    /// The monitor after an event.
    pub open spec fn after(self, event: MonitorEvent) -> MonitorView {
        match self.action(event) {
            MonitorAction::SpawnCheck => MonitorView { checks: self.checks + 1, ..self },
            MonitorAction::Nothing => self,
            MonitorAction::SwapInterval(mode) => MonitorView { mode, ..self },
            MonitorAction::Stop => MonitorView { stopped: true, ..self },
        }
    }

    /// What a poll that ended with `result` reports to the loop: that the
    /// server is down where it could not be asked, that it recovered where
    /// what it said is new, and nothing where it said what it said before.
    pub open spec fn report(self, result: Result<bool, StatusError>) -> Option<OutageReport> {
        match result {
            Err(_) => Some(OutageReport::Down),
            Ok(is_online) => if is_online == self.previous_state {
                None
            } else {
                Some(OutageReport::Recovered)
            },
        }
    }

    /// Whether a poll that ended with `result` raises an alert, and whether
    /// the alert says that the server is online: only a change does.
    pub open spec fn alert(self, result: Result<bool, StatusError>) -> Option<bool> {
        match result {
            Ok(is_online) if is_online != self.previous_state => Some(is_online),
            _ => None,
        }
    }

    /// The monitor after a poll that ended with `result`: only an answer
    /// changes what was last observed.
    pub open spec fn concluded(self, result: Result<bool, StatusError>) -> MonitorView {
        match result {
            Ok(is_online) => MonitorView { previous_state: is_online, ..self },
            Err(_) => self,
        }
    }
}

/// Starts the health monitor, if the feature is configured: else there is
/// no monitor at all. A new monitor polls at the normal pace and takes the
/// server to have been offline.
pub fn start(service: Option<&Service>) -> (monitor: Option<Monitor>)
    ensures
        service is None <==> monitor is None,
        monitor matches Some(monitor) ==> monitor@ == (MonitorView {
            mode: Mode::Normal,
            previous_state: false,
            checks: 0,
            stopped: false,
        }),
{
    match service {
        None => None,
        Some(_) => Some(
            Monitor { mode: Mode::Normal, previous_state: false, checks: 0, stopped: false },
        ),
    }
}

/// What a poll comes to.
#[derive(Debug)]
pub struct CheckOutcome {
    /// What is reported to the monitor's loop.
    pub report: Option<OutageReport>,
    /// The alert to send.
    pub alert: Option<Alert>,
    /// The level at which the failure of the poll is logged.
    pub log: Option<Level>,
}

impl Monitor {
    /// Seconds between two polls at the present pace.
    pub fn interval(&self) -> (seconds: u64)
        ensures
            seconds == self@.mode.period(),
    {
        self.mode.interval()
    }

    /// The present pace.
    pub fn mode(&self) -> (mode: Mode)
        ensures
            mode == self@.mode,
    {
        self.mode
    }

    /// Whether the server was online when it last answered something new.
    pub fn previous_state(&self) -> (is_online: bool)
        ensures
            is_online == self@.previous_state,
    {
        self.previous_state
    }

    /// Number of polls under way.
    pub fn checks(&self) -> (checks: usize)
        ensures
            checks == self@.checks,
    {
        self.checks
    }

    /// Whether the monitor is done: its loop was left and no poll is under
    /// way.
    pub fn is_finished(&self) -> (finished: bool)
        ensures
            finished == (self@.stopped && self@.checks == 0),
    {
        self.stopped && self.checks == 0
    }

    /// One turn of the monitor's loop. A tick starts a poll. A report asks
    /// for a pace: the pace that is already set changes nothing, another one
    /// replaces the timer. The shutdown signal ends the loop, and after that
    /// nothing is done about any event.
    pub fn step(&mut self, event: MonitorEvent) -> (action: MonitorAction)
        requires
            old(self)@.action(event) is SpawnCheck ==> old(self)@.checks < usize::MAX,
        ensures
            action == old(self)@.action(event),
            final(self)@ == old(self)@.after(event),
    {
        if self.stopped {
            return MonitorAction::Nothing;
        }
        match event {
            MonitorEvent::Tick => {
                self.checks = self.checks + 1;
                MonitorAction::SpawnCheck
            },
            MonitorEvent::Outage(report) => {
                let asked = match report {
                    OutageReport::Down => Mode::Outage,
                    OutageReport::Recovered => Mode::Normal,
                };
                let unchanged = match (asked, self.mode) {
                    (Mode::Normal, Mode::Normal) => true,
                    (Mode::Outage, Mode::Outage) => true,
                    _ => false,
                };
                if unchanged {
                    MonitorAction::Nothing
                } else {
                    self.mode = asked;
                    MonitorAction::SwapInterval(asked)
                }
            },
            MonitorEvent::Shutdown => {
                self.stopped = true;
                MonitorAction::Stop
            },
        }
    }

    /// Takes a poll that has ended out of the count of polls under way.
    pub fn check_finished(&mut self)
        requires
            old(self)@.checks > 0,
        ensures
            final(self)@ == (MonitorView {
                checks: (old(self)@.checks - 1) as nat,
                ..old(self)@
            }),
    {
        self.checks = self.checks - 1;
    }

    /// Concludes a poll. A poll that failed reports the server down and
    /// leaves what was last observed as it is: the outcome is unknown. A poll
    /// that observed what was observed before does nothing. A poll that
    /// observed a change stores it, reports a recovery and raises the alert
    /// for the change.
    pub fn conclude(&mut self, service: &Service, result: Result<bool, StatusError>) -> (outcome:
        CheckOutcome)
        ensures
            final(self)@ == old(self)@.concluded(result),
            outcome.report == old(self)@.report(result),
            outcome.log == if result is Err {
                Some(Level::Error)
            } else {
                None
            },
            match outcome.alert {
                Some(alert) => old(self)@.alert(result) matches Some(is_online) && alert.channel_id
                    == service@.alert_channel_id && alert.content@ == alert_content(
                    service@,
                    is_online,
                ),
                None => old(self)@.alert(result) is None,
            },
    {
        let is_online = match result {
            Ok(is_online) => is_online,
            Err(_) => {
                return CheckOutcome {
                    report: Some(OutageReport::Down),
                    alert: None,
                    log: Some(Level::Error),
                };
            },
        };
        if self.previous_state == is_online {
            return CheckOutcome { report: None, alert: None, log: None };
        }
        self.previous_state = is_online;
        CheckOutcome {
            report: Some(OutageReport::Recovered),
            alert: Some(alert_everyone(service, is_online)),
            log: None,
        }
    }
}

/// Why the server's status could not be had.
#[derive(Debug, Clone, Copy, PartialEq, Eq)]
pub enum StatusError {
    /// No connection could be made.
    Connect,
    /// The handshake failed.
    Handshake,
    /// The request for the status could not be sent.
    Request,
    /// The answer could not be read.
    Read,
    /// The server closed the connection without an answer.
    ConnectionClosed,
    /// The server answered with something that is no status.
    UnexpectedFrame,
    /// A step was reported that was not the one under way.
    OutOfOrder,
}

impl StatusError {
    /// The message of the error.
    pub fn to_string(&self) -> (message: String)
        ensures
            message@ == match self {
                StatusError::Connect => "Cannot connect to Sanctuary server"@,
                StatusError::Handshake => "Cannot perform server handshake"@,
                StatusError::Request => "Cannot send status request"@,
                StatusError::Read => "Cannot read server protocol frame"@,
                StatusError::ConnectionClosed => "Connection closed by server"@,
                StatusError::UnexpectedFrame => "Unexpected non-status response"@,
                StatusError::OutOfOrder => "Status exchange out of order"@,
            },
    {
        match self {
            StatusError::Connect => "Cannot connect to Sanctuary server".to_owned(),
            StatusError::Handshake => "Cannot perform server handshake".to_owned(),
            StatusError::Request => "Cannot send status request".to_owned(),
            StatusError::Read => "Cannot read server protocol frame".to_owned(),
            StatusError::ConnectionClosed => "Connection closed by server".to_owned(),
            StatusError::UnexpectedFrame => "Unexpected non-status response".to_owned(),
            StatusError::OutOfOrder => "Status exchange out of order".to_owned(),
        }
    }
}

/// A frame of the server's protocol, as far as the monitor looks into it.
#[derive(Debug)]
pub enum Frame {
    /// The server's status, as JSON text.
    StatusResponse { json: String },
    /// Any other frame.
    Other,
}

/// A step of the exchange with the server.
#[derive(Debug, Clone, Copy, PartialEq, Eq)]
pub enum Step {
    /// Connect to the server.
    Connect,
    /// Perform the handshake.
    Handshake,
    /// Send the one request for the status.
    SendStatusRequest,
    /// Read the one frame of the answer.
    ReadFrame,
}

/// How a step of the exchange ended.
#[derive(Debug)]
pub enum StepResult {
    /// The step was done; it gives nothing back.
    Done,
    /// A frame was read, or the connection was closed instead.
    Frame(Option<Frame>),
    /// The step failed.
    Failed,
}

/// How the exchange goes on.
#[derive(Debug)]
pub enum Progress {
    /// This step is next.
    Next(Step),
    /// The exchange is over: this is the server's status.
    Status(String),
    /// The exchange is over: it failed.
    Failed(StatusError),
}

/// What `Progress` stands for.
pub enum ProgressView {
    Next(Step),
    Status(Seq<char>),
    Failed(StatusError),
}

impl View for Progress {
    type V = ProgressView;

    open spec fn view(&self) -> ProgressView {
        match self {
            Progress::Next(step) => ProgressView::Next(*step),
            Progress::Status(json) => ProgressView::Status(json@),
            Progress::Failed(error) => ProgressView::Failed(*error),
        }
    }
}

impl Step {
    /// The step that an exchange begins with.
    pub fn first() -> (step: Step)
        ensures
            step == Step::Connect,
    {
        Step::Connect
    }

    /// The error of an exchange that fails at this step.
    pub open spec fn failure(self) -> StatusError {
        match self {
            Step::Connect => StatusError::Connect,
            Step::Handshake => StatusError::Handshake,
            Step::SendStatusRequest => StatusError::Request,
            Step::ReadFrame => StatusError::Read,
        }
    }

    /// How the exchange goes on after this step ended with `result`.
    pub open spec fn progress(self, result: StepResult) -> ProgressView {
        match (self, result) {
            (_, StepResult::Failed) => ProgressView::Failed(self.failure()),
            (Step::Connect, StepResult::Done) => ProgressView::Next(Step::Handshake),
            (Step::Handshake, StepResult::Done) => ProgressView::Next(Step::SendStatusRequest),
            (Step::SendStatusRequest, StepResult::Done) => ProgressView::Next(Step::ReadFrame),
            (Step::ReadFrame, StepResult::Frame(Some(Frame::StatusResponse { json }))) =>
                ProgressView::Status(json@),
            (Step::ReadFrame, StepResult::Frame(Some(Frame::Other))) => ProgressView::Failed(
                StatusError::UnexpectedFrame,
            ),
            (Step::ReadFrame, StepResult::Frame(None)) => ProgressView::Failed(
                StatusError::ConnectionClosed,
            ),
            _ => ProgressView::Failed(StatusError::OutOfOrder),
        }
    }
}

/// One step of the exchange that asks the server for its status: connect,
/// shake hands, send exactly one request, read exactly one frame. A step that
/// fails ends the exchange, and so does a frame that is no status or a
/// connection that the server closed. `step` is the step that was under way
/// and `result` how it ended.
pub fn get_sanctuary_status(step: Step, result: StepResult) -> (progress: Progress)
    ensures
        progress@ == step.progress(result),
{
    match result {
        StepResult::Failed => Progress::Failed(
            match step {
                Step::Connect => StatusError::Connect,
                Step::Handshake => StatusError::Handshake,
                Step::SendStatusRequest => StatusError::Request,
                Step::ReadFrame => StatusError::Read,
            },
        ),
        StepResult::Done => match step {
            Step::Connect => Progress::Next(Step::Handshake),
            Step::Handshake => Progress::Next(Step::SendStatusRequest),
            Step::SendStatusRequest => Progress::Next(Step::ReadFrame),
            Step::ReadFrame => Progress::Failed(StatusError::OutOfOrder),
        },
        StepResult::Frame(frame) => match step {
            Step::ReadFrame => match frame {
                Some(Frame::StatusResponse { json }) => Progress::Status(json),
                Some(Frame::Other) => Progress::Failed(StatusError::UnexpectedFrame),
                None => Progress::Failed(StatusError::ConnectionClosed),
            },
            _ => Progress::Failed(StatusError::OutOfOrder),
        },
    }
}

impl Step {
    /// How far an exchange has come when this step is under way.
    pub open spec fn rank(self) -> nat {
        match self {
            Step::Connect => 0,
            Step::Handshake => 1,
            Step::SendStatusRequest => 2,
            Step::ReadFrame => 3,
        }
    }
}

/// An exchange takes each step once and in order: a step is followed by
/// the one after it or by nothing. So one request is sent, after the
/// handshake, and one frame is read, after the request: the read ends the
/// exchange whatever it gives, and only a status that was read is handed
/// out.
pub proof fn lemma_exchange_takes_each_step_once(step: Step, result: StepResult)
    ensures
        step.progress(result) matches ProgressView::Next(next) ==> next.rank() == step.rank() + 1
            && result is Done,
        !(Step::ReadFrame.progress(result) is Next),
        step.progress(result) matches ProgressView::Status(status) ==> step is ReadFrame && (
        result matches StepResult::Frame(Some(Frame::StatusResponse { json })) && json@ == status),
{
}

/// Whether a status says that the server is online: it does unless its
/// text holds `offline`.
pub open spec fn says_online(status: Seq<char>) -> bool {
    !contains_text(status, "offline"@)
}

/// A poll under way: the attempts that it has made and that failed.
#[derive(Debug)]
pub struct StatusCheck {
    times: usize,
}

impl View for StatusCheck {
    type V = nat;

    closed spec fn view(&self) -> nat {
        self.times as nat
    }
}

/// How a poll goes on after an attempt.
#[derive(Debug)]
pub enum Attempted {
    /// The attempt failed and another one is due; the failure is logged as
    /// a warning.
    Retry(StatusCheck),
    /// The poll is over.
    Finished(Result<bool, StatusError>),
}

/// How a poll that has made `times` failed attempts goes on after one
/// more attempt: `None` where it tries again.
pub open spec fn attempted(times: nat, attempt: Result<Seq<char>, StatusError>) -> Option<
    Result<bool, StatusError>,
> {
    match attempt {
        Ok(status) => Some(Ok(says_online(status))),
        Err(error) => if times + 1 < MAX_TRIES {
            None
        } else {
            Some(Err(error))
        },
    }
}

/// What a new poll comes to whose attempts end as `attempts` says, one
/// after the other: `None` while it is not over.
pub open spec fn poll(attempts: Seq<Result<Seq<char>, StatusError>>) -> Option<
    Result<bool, StatusError>,
> {
    poll_from(0, attempts)
}

/// What a poll comes to that has made `times` failed attempts and whose
/// further attempts end as `attempts` says.
pub open spec fn poll_from(times: nat, attempts: Seq<Result<Seq<char>, StatusError>>) -> Option<
    Result<bool, StatusError>,
>
    decreases attempts.len(),
{
    if attempts.len() == 0 {
        None
    } else {
        match attempted(times, attempts[0]) {
            Some(result) => Some(result),
            None => poll_from(times + 1, attempts.drop_first()),
        }
    }
}

/// The text of an attempt's status, where it has one.
pub open spec fn attempt_view(attempt: Result<&str, StatusError>) -> Result<
    Seq<char>,
    StatusError,
> {
    match attempt {
        Ok(status) => Ok(status@),
        Err(error) => Err(error),
    }
}

impl StatusCheck {
    #[verifier::type_invariant]
    spec fn within_tries(self) -> bool {
        self.times < MAX_TRIES
    }

    /// A poll that has made no attempt.
    pub fn new() -> (check: StatusCheck)
        ensures
            check@ == 0,
    {
        StatusCheck { times: 0 }
    }

    /// Number of attempts that the poll has made, all of which failed.
    pub fn times(&self) -> (times: usize)
        ensures
            times == self@,
            times < MAX_TRIES,
    {
        proof {
            use_type_invariant(self);
        }
        self.times
    }

    /// Takes the end of one attempt. A status ends the poll: the server is
    /// online unless the status holds `offline`. A failure is followed by
    /// another attempt until three were made: the third failure ends the poll
    /// with its error.
    pub fn is_sanctuary_online(self, attempt: Result<&str, StatusError>) -> (next: Attempted)
        ensures
            match next {
                Attempted::Retry(check) => attempted(self@, attempt_view(attempt)) is None
                    && check@ == self@ + 1,
                Attempted::Finished(result) => attempted(self@, attempt_view(attempt)) == Some(
                    result,
                ),
            },
    {
        proof {
            use_type_invariant(&self);
        }
        match attempt {
            Ok(status) => Attempted::Finished(Ok(!contains(status, "offline"))),
            Err(error) => {
                let times = self.times + 1;
                if times < MAX_TRIES {
                    Attempted::Retry(StatusCheck { times })
                } else {
                    Attempted::Finished(Err(error))
                }
            },
        }
    }
}

/// A poll makes three attempts at most: after three it is over, however
/// they ended.
pub proof fn lemma_poll_ends_within_three_attempts(attempts: Seq<Result<Seq<char>, StatusError>>)
    requires
        attempts.len() >= MAX_TRIES,
    ensures
        poll(attempts) is Some,
        poll(attempts) == poll(attempts.take(MAX_TRIES as int)),
{
    let first = attempts.take(MAX_TRIES as int);
    assert(first[0] == attempts[0]);
    assert(first.drop_first()[0] == attempts.drop_first()[0]);
    assert(first.drop_first().drop_first()[0] == attempts.drop_first().drop_first()[0]);
    reveal_with_fuel(poll_from, 4);
}

/// Three attempts that fail one after the other end the poll with the last
/// error; the poll then reports the server down exactly once, raises no
/// alert, and leaves what was last observed as it was.
pub proof fn lemma_three_failures_report_down(
    monitor: MonitorView,
    first: StatusError,
    second: StatusError,
    third: StatusError,
)
    ensures
        poll(seq![Err(first), Err(second), Err(third)]) == Some(
            Err::<bool, StatusError>(third),
        ),
        poll(seq![Err::<Seq<char>, StatusError>(first)]) is None,
        poll(seq![Err::<Seq<char>, StatusError>(first), Err(second)]) is None,
        monitor.report(Err(third)) == Some(OutageReport::Down),
        monitor.alert(Err(third)) is None,
        monitor.concluded(Err(third)) == monitor,
{
    let one = seq![Err::<Seq<char>, StatusError>(first)];
    let two = seq![Err::<Seq<char>, StatusError>(first), Err(second)];
    let three = seq![Err::<Seq<char>, StatusError>(first), Err(second), Err(third)];
    assert(three.drop_first().drop_first()[0] == Err::<Seq<char>, StatusError>(third));
    assert(three.drop_first()[0] == Err::<Seq<char>, StatusError>(second));
    assert(two.drop_first()[0] == Err::<Seq<char>, StatusError>(second));
    assert(two.drop_first().drop_first().len() == 0);
    assert(one.drop_first().len() == 0);
    reveal_with_fuel(poll_from, 4);
}

/// A monitor that takes the server to be offline and whose poll is answered
/// by a status without `offline` raises exactly one alert, which says that
/// the server is online and holds the configured address and port, and
/// reports a recovery. The same status once more raises nothing.
pub proof fn lemma_recovery_alerts_once(monitor: MonitorView, config: ConfigView, status: Seq<char>)
    requires
        !monitor.previous_state,
        !contains_text(status, "offline"@),
    ensures
        poll(seq![Ok(status)]) == Some(Ok::<bool, StatusError>(true)),
        monitor.alert(Ok(true)) == Some(true),
        monitor.report(Ok(true)) == Some(OutageReport::Recovered),
        monitor.concluded(Ok(true)).previous_state,
        contains_text(
            alert_content(config, true),
            config.sanctuary_addr + ":"@ + decimal(config.sanctuary_port as nat),
        ),
        monitor.concluded(Ok(true)).alert(Ok(true)) is None,
        monitor.concluded(Ok(true)).report(Ok(true)) is None,
{
    let head = "🎉  **Sanctuary is back online!** 🎉\nJoin us at: `"@;
    let place = config.sanctuary_addr + ":"@ + decimal(config.sanctuary_port as nat);
    let content = alert_content(config, true);
    assert(content.subrange(head.len() as int, (head.len() + place.len()) as int) =~= place);
    assert(crate::text::occurs_at(content, place, head.len() as int));
}

/// An alert is raised for a change of what is observed and for nothing
/// else: a poll that failed raises none, and a poll that observes what the
/// poll before it observed raises none, however often it is repeated.
pub proof fn lemma_alert_only_on_change(monitor: MonitorView, result: Result<bool, StatusError>)
    ensures
        monitor.alert(result) is Some <==> (result matches Ok(is_online) && is_online
            != monitor.previous_state),
        monitor.alert(result) matches Some(is_online) ==> is_online
            == monitor.concluded(result).previous_state,
        result is Err ==> monitor.concluded(result) == monitor,
        monitor.concluded(result).alert(result) is None,
        monitor.concluded(result).concluded(result) == monitor.concluded(result),
{
}

/// A report that asks for the pace that is already set is passed over:
/// nothing is done, so nothing is logged and the timer is not replaced, and
/// the monitor stays as it is.
pub proof fn lemma_report_of_present_pace_changes_nothing(
    monitor: MonitorView,
    report: OutageReport,
)
    requires
        report.mode() == monitor.mode,
    ensures
        monitor.action(MonitorEvent::Outage(report)) == MonitorAction::Nothing,
        monitor.after(MonitorEvent::Outage(report)) == monitor,
{
}

} // verus!
