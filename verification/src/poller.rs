//! The scheduler of polls. A poller is stopped or running. While it runs, a
//! timer ticks once per interval, the first time one interval after the
//! start. A tick begins a poll unless one is in flight: one run of the
//! program is made, its streams are decoded, and the outcome goes to the
//! sink as one event; with that the poll ends. The caller owns the timer,
//! the run and the sink; the poller decides.

use crate::codec::{decode, decoded, usage_outcome, UsageData, UsageView};
use crate::error::{Failure, ScraperError};
use crate::invoker::RawOutput;
use crate::text::texts;
use vstd::prelude::*;
use vstd::string::*;

verus! {

/// The interval of a poller that was never started, in seconds.
pub const DEFAULT_INTERVAL_SECS: u64 = 300;

/// The seconds that one run of a poll may take to give its output.
pub const POLL_TIMEOUT_SECS: u64 = 30;

/// The argument that makes the program poll once.
pub const POLL_ARGUMENT: &'static str = "--poll_once";

/// The argument that makes the program log in by hand.
pub const LOGIN_ARGUMENT: &'static str = "--login";

/// The argument that makes the program say whether its session is valid.
pub const CHECK_SESSION_ARGUMENT: &'static str = "--check-session";

/// The name of the event of a success.
pub const UPDATE_EVENT: &'static str = "usage-update";

/// The name of the event of a failure.
pub const ERROR_EVENT: &'static str = "usage-error";

/// The state of the scheduler: its interval, whether it runs, and whether a
/// poll is in flight.
#[derive(Debug)]
pub struct Poller {
    interval_secs: u64,
    running: bool,
    in_flight: bool,
}

/// A `Poller` in specifications.
pub struct PollerView {
    pub interval_secs: u64,
    pub running: bool,
    /// Whether a poll was begun on a tick and has not ended yet.
    pub in_flight: bool,
}

/// What can happen to a poller.
pub enum PollerEvent {
    /// `start` is called with an interval.
    Start(u64),
    /// `stop` is called.
    Stop,
    /// The timer ticks.
    Tick,
    /// The poll in flight ends: the sink has taken its event.
    Finished,
}

/// When the timer of a running poller ticks.
#[derive(Debug, Clone, Copy, PartialEq, Eq, Structural)]
pub struct Schedule {
    /// The seconds from the start to the first tick.
    pub first_tick_after_secs: u64,
    /// The seconds from one tick to the next. A tick that comes late delays
    /// those after it; ticks are never made up in a burst.
    pub period_secs: u64,
}

/// What to do on a tick.
#[derive(Debug)]
pub enum TickAction {
    /// The poller was stopped: the loop ends.
    Stop,
    /// A poll is in flight: this tick passes without another.
    Skip,
    /// Run the program once with `args`, and give it `timeout_secs` seconds;
    /// hand the event of the outcome to the sink; then call `end_poll`.
    Poll { args: Vec<String>, timeout_secs: u64 },
}

/// What a tick leads to, without the arguments.
#[derive(Debug, Clone, Copy, PartialEq, Eq, Structural)]
pub enum TickKind {
    Stop,
    Skip,
    Poll,
}

/// What an event carries.
#[derive(Debug)]
pub enum Payload {
    /// The document of a success.
    Usage(UsageData),
    /// A failure, as `status` and `message`.
    Error { status: String, message: String },
}

/// An event for the sink: its name and what it carries.
#[derive(Debug)]
pub struct Emission {
    pub event: String,
    pub payload: Payload,
}

/// A `Payload` in specifications.
pub enum PayloadView {
    Usage(UsageView),
    Error { status: Seq<char>, message: Seq<char> },
}

/// An `Emission` in specifications.
pub struct EmissionView {
    pub event: Seq<char>,
    pub payload: PayloadView,
}

impl View for Payload {
    type V = PayloadView;

    open spec fn view(&self) -> PayloadView {
        match *self {
            Payload::Usage(d) => PayloadView::Usage(d@),
            Payload::Error { status, message } => PayloadView::Error {
                status: status@,
                message: message@,
            },
        }
    }
}

impl View for Emission {
    type V = EmissionView;

    open spec fn view(&self) -> EmissionView {
        EmissionView { event: self.event@, payload: self.payload@ }
    }
}

impl View for Poller {
    type V = PollerView;

    closed spec fn view(&self) -> PollerView {
        PollerView {
            interval_secs: self.interval_secs,
            running: self.running,
            in_flight: self.in_flight,
        }
    }
}

/// The result of `start` or `stop`, in specifications.
pub open spec fn command_outcome(r: Result<(), String>) -> Result<(), Seq<char>> {
    match r {
        Ok(_) => Ok(()),
        Err(m) => Err(m@),
    }
}

impl PollerView {
    /// What holds of every poller: only a running poller has a poll in
    /// flight.
    pub open spec fn consistent(self) -> bool {
        self.in_flight ==> self.running
    }

    /// The poller after `start` was called with `interval_secs`: a poller
    /// that was stopped runs, with no poll in flight.
    pub open spec fn started(self, interval_secs: u64) -> PollerView {
        if self.running {
            self
        } else {
            PollerView { interval_secs, running: true, in_flight: false }
        }
    }

    /// What `start` answers.
    pub open spec fn start_answer(self) -> Result<(), Seq<char>> {
        if self.running {
            Err("poller already running"@)
        } else {
            Ok(())
        }
    }

    /// The poller after `stop` was called: a poll in flight is given up.
    pub open spec fn stopped(self) -> PollerView {
        if self.running {
            PollerView { interval_secs: self.interval_secs, running: false, in_flight: false }
        } else {
            self
        }
    }

    /// What `stop` answers.
    pub open spec fn stop_answer(self) -> Result<(), Seq<char>> {
        if self.running {
            Ok(())
        } else {
            Err("poller not running"@)
        }
    }

    /// What a tick leads to.
    pub open spec fn tick_kind(self) -> TickKind {
        if !self.running {
            TickKind::Stop
        } else if self.in_flight {
            TickKind::Skip
        } else {
            TickKind::Poll
        }
    }

    /// The poller after a tick: a poll is in flight where one was begun.
    pub open spec fn ticked(self) -> PollerView {
        if self.tick_kind() == TickKind::Poll {
            PollerView { interval_secs: self.interval_secs, running: true, in_flight: true }
        } else {
            self
        }
    }

    /// The poller after the end of a poll.
    pub open spec fn finished(self) -> PollerView {
        PollerView {
            interval_secs: self.interval_secs,
            running: self.running,
            in_flight: false,
        }
    }

    /// The poller after an event.
    pub open spec fn after(self, event: PollerEvent) -> PollerView {
        match event {
            PollerEvent::Start(interval_secs) => self.started(interval_secs),
            PollerEvent::Stop => self.stopped(),
            PollerEvent::Tick => self.ticked(),
            PollerEvent::Finished => self.finished(),
        }
    }

    /// The poller after a sequence of events.
    pub open spec fn after_all(self, events: Seq<PollerEvent>) -> PollerView
        decreases events.len(),
    {
        if events.len() == 0 {
            self
        } else {
            self.after_all(events.drop_last()).after(events.last())
        }
    }

    /// How many polls are alive after a sequence of events: each poll that a
    /// tick began counts until it ends or the poller is stopped.
    pub open spec fn alive(self, events: Seq<PollerEvent>) -> int
        decreases events.len(),
    {
        if events.len() == 0 {
            if self.in_flight {
                1
            } else {
                0
            }
        } else {
            let before = self.after_all(events.drop_last());
            let count = self.alive(events.drop_last());
            match events.last() {
                PollerEvent::Start(_) => if before.running {
                    count
                } else {
                    0
                },
                PollerEvent::Stop => if before.running {
                    0
                } else {
                    count
                },
                PollerEvent::Tick => if before.tick_kind() == TickKind::Poll {
                    count + 1
                } else {
                    count
                },
                PollerEvent::Finished => 0,
            }
        }
    }
}

/// A `TickAction` without its arguments.
pub open spec fn kind_of(action: TickAction) -> TickKind {
    match action {
        TickAction::Stop => TickKind::Stop,
        TickAction::Skip => TickKind::Skip,
        TickAction::Poll { .. } => TickKind::Poll,
    }
}

/// The arguments of a run that polls once.
pub open spec fn poll_arguments() -> Seq<Seq<char>> {
    seq![POLL_ARGUMENT@]
}

/// The event for the outcome of a poll.
pub open spec fn emitted(outcome: Result<UsageView, Failure>) -> EmissionView {
    match outcome {
        Ok(data) => EmissionView { event: UPDATE_EVENT@, payload: PayloadView::Usage(data) },
        Err(failure) => EmissionView {
            event: ERROR_EVENT@,
            payload: PayloadView::Error { status: "error"@, message: failure.text() },
        },
    }
}

/// The outcome of a poll whose run ended with `raw`.
pub open spec fn cycle_outcome(raw: Result<RawOutput, ScraperError>) -> Result<UsageView, Failure> {
    match raw {
        Ok(output) => decoded(output.stdout@, output.stderr@),
        Err(e) => Err(e@),
    }
}

impl Poller {
    #[verifier::type_invariant]
    spec fn well_formed(self) -> bool {
        self.interval_secs > 0 && (self.in_flight ==> self.running)
    }

    /// A stopped poller with the default interval.
    pub fn new_default() -> (p: Poller)
        ensures
            p@ == (PollerView {
                interval_secs: DEFAULT_INTERVAL_SECS,
                running: false,
                in_flight: false,
            }),
            p@.consistent(),
    {
        Poller { interval_secs: DEFAULT_INTERVAL_SECS, running: false, in_flight: false }
    }

    pub fn is_running(&self) -> (r: bool)
        ensures
            r == self@.running,
    {
        self.running
    }

    /// The interval of the last start, or the default before any.
    pub fn interval_secs(&self) -> (r: u64)
        ensures
            r == self@.interval_secs,
            r > 0,
    {
        proof {
            use_type_invariant(self);
        }
        self.interval_secs
    }

    /// Starts the poller with an interval in seconds.
    ///
    /// A stopped poller takes the interval and runs. A running poller stays
    /// as it is, and the answer is the error `poller already running`.
    pub fn start(&mut self, interval_secs: u64) -> (r: Result<(), String>)
        requires
            interval_secs > 0,
        ensures
            final(self)@ == old(self)@.started(interval_secs),
            command_outcome(r) == old(self)@.start_answer(),
            final(self)@.consistent(),
    {
        proof {
            use_type_invariant(&*self);
        }
        if self.running {
            return Err(String::from_str("poller already running"));
        }
        self.interval_secs = interval_secs;
        self.running = true;
        Ok(())
    }

    /// Stops the poller.
    ///
    /// A running poller stops and keeps its interval; a poll in flight is
    /// given up, and the caller abandons its run. A stopped poller stays as
    /// it is, and the answer is the error `poller not running`.
    pub fn stop(&mut self) -> (r: Result<(), String>)
        ensures
            final(self)@ == old(self)@.stopped(),
            command_outcome(r) == old(self)@.stop_answer(),
            final(self)@.consistent(),
    {
        proof {
            use_type_invariant(&*self);
        }
        if !self.running {
            return Err(String::from_str("poller not running"));
        }
        self.in_flight = false;
        self.running = false;
        Ok(())
    }

    /// The timer of the loop: it ticks every interval, and first after one
    /// whole interval.
    pub fn schedule(&self) -> (s: Schedule)
        ensures
            s.first_tick_after_secs == self@.interval_secs,
            s.period_secs == self@.interval_secs,
            s.period_secs > 0,
    {
        proof {
            use_type_invariant(self);
        }
        Schedule { first_tick_after_secs: self.interval_secs, period_secs: self.interval_secs }
    }

    /// Whether a poll is in flight; only a running poller has one.
    pub fn is_polling(&self) -> (r: bool)
        ensures
            r == self@.in_flight,
            r ==> self@.running,
            self@.consistent(),
    {
        proof {
            use_type_invariant(self);
        }
        self.in_flight
    }

    /// Decides what a tick leads to: the end of the loop once the poller is
    /// stopped; nothing while a poll is in flight; else one poll, which is in
    /// flight from now on.
    pub fn on_tick(&mut self) -> (a: TickAction)
        ensures
            final(self)@ == old(self)@.ticked(),
            final(self)@.consistent(),
            kind_of(a) == old(self)@.tick_kind(),
            a matches TickAction::Poll { args, timeout_secs } ==> texts(args@) == poll_arguments()
                && timeout_secs == POLL_TIMEOUT_SECS,
    {
        proof {
            use_type_invariant(&*self);
        }
        if !self.running {
            TickAction::Stop
        } else if self.in_flight {
            TickAction::Skip
        } else {
            self.in_flight = true;
            let mut args: Vec<String> = Vec::new();
            args.push(String::from_str(POLL_ARGUMENT));
            assert(texts(args@) =~= poll_arguments());
            TickAction::Poll { args, timeout_secs: POLL_TIMEOUT_SECS }
        }
    }

    /// Ends the poll in flight. It is called once the sink has taken the
    /// event of the poll; the next tick may then poll again.
    pub fn end_poll(&mut self)
        ensures
            final(self)@ == old(self)@.finished(),
            final(self)@.consistent(),
    {
        proof {
            use_type_invariant(&*self);
        }
        self.in_flight = false;
    }
}

/// The event that tells of an outcome: `usage-update` with the document of a
/// success, `usage-error` with the status `error` and the failure as one line.
pub fn emission(outcome: Result<UsageData, ScraperError>) -> (r: Emission)
    ensures
        r@ == emitted(usage_outcome(outcome)),
{
    match outcome {
        Ok(data) => Emission {
            event: String::from_str(UPDATE_EVENT),
            payload: Payload::Usage(data),
        },
        Err(failure) => Emission {
            event: String::from_str(ERROR_EVENT),
            payload: Payload::Error {
                status: String::from_str("error"),
                message: failure.to_string(),
            },
        },
    }
}

/// The event of one poll, from how its run ended: the streams of a run that
/// gave output are decoded; a run that failed gives its failure.
pub fn poll_cycle(raw: Result<RawOutput, ScraperError>) -> (r: Emission)
    ensures
        r@ == emitted(cycle_outcome(raw)),
{
    match raw {
        Ok(output) => emission(decode(output.stdout.as_str(), output.stderr.as_str())),
        Err(failure) => emission(Err(failure)),
    }
}

/// Two starts in a row: the second is refused, whatever came of the first.
pub proof fn lemma_second_start_fails(p: PollerView, first: u64, second: u64)
    ensures
        p.started(first).start_answer() matches Err(m) && m == "poller already running"@,
        p.started(first).started(second) == p.started(first),
{
}

/// Two stops in a row: the second is refused, whatever came of the first.
pub proof fn lemma_second_stop_fails(p: PollerView)
    ensures
        p.stopped().stop_answer() matches Err(m) && m == "poller not running"@,
        p.stopped().stopped() == p.stopped(),
{
}

/// A stopped poller can be started, stopped and started again: each of the
/// three calls succeeds, and the last interval is the one that holds.
pub proof fn lemma_restart_succeeds(p: PollerView, first: u64, second: u64)
    requires
        !p.running,
    ensures
        p.start_answer() is Ok,
        p.started(first).stop_answer() is Ok,
        p.started(first).stopped().start_answer() is Ok,
        p.started(first).stopped().started(second) == (PollerView {
            interval_secs: second,
            running: true,
            in_flight: false,
        }),
{
}

/// Whatever happens to a poller, only a running poller has a poll in flight.
pub proof fn lemma_consistency_is_kept(p: PollerView, event: PollerEvent)
    requires
        p.consistent(),
    ensures
        p.after(event).consistent(),
{
}

/// The first tick after a start begins a poll: a poller that was stopped
/// starts with no poll in flight.
pub proof fn lemma_first_tick_polls(p: PollerView, interval_secs: u64)
    requires
        !p.running,
    ensures
        !p.started(interval_secs).in_flight,
        p.started(interval_secs).tick_kind() == TickKind::Poll,
{
}

/// A poll is begun only while the poller runs and no poll is in flight, and
/// it is in flight from then on.
pub proof fn lemma_poll_only_when_idle(p: PollerView)
    ensures
        p.tick_kind() == TickKind::Poll <==> p.running && !p.in_flight,
        p.tick_kind() == TickKind::Poll ==> p.ticked().in_flight,
        p.in_flight ==> p.ticked() == p,
{
}

/// Whatever happens to a poller, at most one poll is alive: the polls that
/// ticks have begun and that have neither ended nor been given up number one
/// where a poll is in flight, and none otherwise.
pub proof fn lemma_at_most_one_poll(p: PollerView, events: Seq<PollerEvent>)
    ensures
        p.alive(events) == if p.after_all(events).in_flight {
            1int
        } else {
            0int
        },
        p.alive(events) <= 1,
    decreases events.len(),
{
    if events.len() > 0 {
        lemma_at_most_one_poll(p, events.drop_last());
    }
}

/// Every outcome goes out as exactly one of the two events, and a failure is
/// never lost: its event carries the failure's label and message.
pub proof fn lemma_one_event_per_outcome(outcome: Result<UsageView, Failure>)
    ensures
        outcome is Ok <==> emitted(outcome).event == "usage-update"@,
        outcome is Err <==> emitted(outcome).event == "usage-error"@,
        outcome matches Ok(data) ==> emitted(outcome).payload == PayloadView::Usage(data),
        outcome matches Err(failure) ==> emitted(outcome).payload == (PayloadView::Error {
            status: "error"@,
            message: failure.label() + ": "@ + failure.message(),
        }),
{
    reveal_strlit("usage-update");
    reveal_strlit("usage-error");
    assert("usage-update"@.len() != "usage-error"@.len());
}

} // verus!
