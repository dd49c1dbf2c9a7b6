//! The session loop state machine.
//!
//! A session owns either a writer (publisher role) or a reader (subscriber
//! role) and multiplexes its data source against its status-event stream
//! and an external cancellation signal until a terminal condition. The
//! decisions of the loop are a pure transition function from state and
//! event to next state and action; a driver performs the actions (the
//! actual write, the reporting) and hands the world's answers back as
//! events.
//!
//! States run `Starting -> Running -> Draining -> Terminated`. A transient
//! write failure is reported and the loop stays running; an invalid
//! endpoint, a sample that fails to decode, and cancellation each drain
//! the loop; draining releases the endpoint resource and terminates.

use vstd::prelude::*;

use crate::endpoint::{spec_submit_outcome, PublishingEndpoint, TransportAck};
use crate::errors::{DecodeError, WriteError};
use crate::payload::{payload_for_tick, spec_payload_for_tick, Payload, MAX_TICK};

verus! {

/// Which side of the channel this process drives, decided once at startup.
#[derive(Clone, Copy, Debug, PartialEq, Eq, Structural)]
pub enum Role {
    Publisher,
    Subscriber,
}

/// The states of the session loop.
#[derive(Clone, Copy, Debug, PartialEq, Eq, Structural)]
pub enum SessionState {
    /// Endpoint and streams are constructed.
    Starting,
    /// The multiplexed wait is being served.
    Running,
    /// No new work is accepted; resources are about to be released.
    Draining,
    /// The loop has returned; the process treats this as its exit signal.
    Terminated,
}

/// Why the loop left its running state.
#[derive(Clone, Copy, Debug, PartialEq, Eq, Structural)]
pub enum TerminalCause {
    /// A received sample failed to decode: likely a systemic type or
    /// policy mismatch that would recur, so the loop does not retry.
    DecodeFailure,
    /// A write failed because the endpoint itself is invalid.
    EndpointFailed,
    /// External cancellation, observed at the multiplexed wait.
    Cancelled,
}

/// Kind of an out-of-band status notification.
#[derive(Clone, Copy, Debug, PartialEq, Eq, Structural)]
pub enum StatusKind {
    PublicationMatched,
    SubscriptionMatched,
    LivelinessLost,
    DeadlineMissed,
    IncompatibleQos,
}

/// An out-of-band notification about the endpoint's health or peer
/// matching. Informational telemetry, never an error channel.
#[derive(Clone, Copy, Debug, PartialEq, Eq, Structural)]
pub struct StatusEvent {
    pub kind: StatusKind,
    /// Kind-specific count, e.g. how many peers are currently matched.
    pub count: u32,
}

/// One thing the world reports to the session loop.
#[derive(Clone, Copy, Debug, PartialEq, Eq)]
pub enum Event {
    /// The periodic timer fired (publisher role).
    TimerTick,
    /// The submit started on the last tick completed (publisher role).
    WriteDone { result: Result<(), WriteError> },
    /// A sample arrived and was decoded, or failed to (subscriber role).
    Sample { decoded: Result<Payload, DecodeError> },
    /// A status event arrived on the side channel.
    Status { event: StatusEvent },
    /// External cancellation was delivered.
    Cancelled,
}

/// One thing the session loop asks its driver to do.
#[derive(Clone, Copy, Debug, PartialEq, Eq)]
pub enum Action {
    /// Submit this payload for distribution on the bound topic.
    Submit { payload: Payload },
    /// Report that the last submit completed.
    ReportSent,
    /// Report a transient or terminal write failure.
    ReportWriteError { error: WriteError },
    /// Report one received payload.
    ReportPayload { payload: Payload },
    /// Report that a received sample failed to decode.
    ReportDecodeError,
    /// Report one status event.
    ReportStatus { event: StatusEvent },
    /// Nothing to do.
    Nothing,
}

/// Whether `ev` can reach a session of role `role` at all: a publisher
/// waits on its timer, write completions, status events and cancellation;
/// a subscriber on sample arrivals, status events and cancellation.
pub open spec fn event_fits_role(role: Role, ev: Event) -> bool {
    match ev {
        Event::TimerTick => role is Publisher,
        Event::WriteDone { .. } => role is Publisher,
        Event::Sample { .. } => role is Subscriber,
        Event::Status { .. } => true,
        Event::Cancelled => true,
    }
}

/// The session loop's entire mutable state.
#[derive(Clone, Copy, Debug, PartialEq, Eq)]
pub struct Session {
    pub role: Role,
    pub state: SessionState,
    /// Number of the next timer tick, and so the next payload's counter;
    /// monotonically increasing from zero (publisher role).
    pub next_tick: u32,
    /// Whether the endpoint resource has been released.
    pub released: bool,
    /// Why the loop left `Running`, once it has.
    pub cause: Option<TerminalCause>,
}

/// One transition of the session loop: the state after `ev` and the action
/// the driver owes for it. Outside `Running` no new work is accepted.
pub open spec fn spec_step(s: Session, ev: Event) -> (Session, Action) {
    if !(s.state is Running) {
        (s, Action::Nothing)
    } else {
        match ev {
            Event::TimerTick => (
                Session { next_tick: (s.next_tick + 1) as u32, ..s },
                Action::Submit { payload: spec_payload_for_tick(s.next_tick) },
            ),
            Event::WriteDone { result } => match result {
                Ok(_) => (s, Action::ReportSent),
                Err(e) => if e is EndpointInvalid {
                    (
                        Session {
                            state: SessionState::Draining,
                            cause: Some(TerminalCause::EndpointFailed),
                            ..s
                        },
                        Action::ReportWriteError { error: e },
                    )
                } else {
                    (s, Action::ReportWriteError { error: e })
                },
            },
            Event::Sample { decoded } => match decoded {
                Ok(p) => (s, Action::ReportPayload { payload: p }),
                Err(_) => (
                    Session {
                        state: SessionState::Draining,
                        cause: Some(TerminalCause::DecodeFailure),
                        ..s
                    },
                    Action::ReportDecodeError,
                ),
            },
            Event::Status { event } => (s, Action::ReportStatus { event }),
            Event::Cancelled => (
                Session {
                    state: SessionState::Draining,
                    cause: Some(TerminalCause::Cancelled),
                    ..s
                },
                Action::Nothing,
            ),
        }
    }
}

/// The state and actions after serving a whole sequence of events.
pub open spec fn spec_run(s: Session, evs: Seq<Event>) -> (Session, Seq<Action>)
    decreases evs.len(),
{
    if evs.len() == 0 {
        (s, Seq::empty())
    } else {
        let (s1, a) = spec_step(s, evs[0]);
        let (s2, rest) = spec_run(s1, evs.drop_first());
        (s2, seq![a] + rest)
    }
}

/// The exit status owed once the loop has terminated: nonzero exactly when
/// it ended on an error (a decode failure or an invalid endpoint); clean
/// cancellation and a never-started loop exit cleanly.
pub open spec fn spec_exit_code(s: Session) -> int {
    match s.cause {
        Some(TerminalCause::DecodeFailure) => 1,
        Some(TerminalCause::EndpointFailed) => 1,
        Some(TerminalCause::Cancelled) => 0,
        None => 0,
    }
}

impl Session {
    /// Well-formedness, established at construction and preserved by every
    /// transition: the endpoint resource is released exactly when the loop
    /// has terminated, a terminal cause is only recorded on the way out,
    /// and a subscriber never advances the tick counter.
    pub open spec fn wf(&self) -> bool {
        &&& self.state is Terminated <==> self.released
        &&& self.cause is Some ==> self.state is Draining || self.state is Terminated
        &&& self.role is Subscriber ==> self.next_tick == 0
    }

    /// A fresh session for `role`, its endpoint and streams constructed.
    pub fn new(role: Role) -> (s: Session)
        ensures
            s.role == role,
            s.state is Starting,
            s.next_tick == 0,
            !s.released,
            s.cause is None,
            s.wf(),
    {
        Session {
            role,
            state: SessionState::Starting,
            next_tick: 0,
            released: false,
            cause: None,
        }
    }

    /// Enters the running state: unconditional once construction has
    /// succeeded (a construction failure propagates before any session
    /// state is entered).
    pub fn start(&mut self)
        requires
            old(self).state is Starting,
        ensures
            *final(self) == (Session { state: SessionState::Running, ..*old(self) }),
            old(self).wf() ==> final(self).wf(),
    {
        self.state = SessionState::Running;
    }

    /// Serves one event: the successor state and the action owed follow
    /// `spec_step` exactly. Cancellation is honoured at once: it drains
    /// the loop in this very transition.
    pub fn handle_event(&mut self, ev: Event) -> (a: Action)
        requires
            old(self).wf(),
            event_fits_role(old(self).role, ev),
            ev is TimerTick && old(self).state is Running ==> old(self).next_tick
                <= MAX_TICK,
        ensures
            (*final(self), a) == spec_step(*old(self), ev),
            final(self).wf(),
            final(self).role == old(self).role,
            old(self).state is Running && ev is Cancelled ==> final(self).state is Draining,
    {
        if !matches!(self.state, SessionState::Running) {
            return Action::Nothing;
        }
        match ev {
            Event::TimerTick => {
                let payload = payload_for_tick(self.next_tick);
                self.next_tick = self.next_tick + 1;
                Action::Submit { payload }
            },
            Event::WriteDone { result } => match result {
                Ok(_) => Action::ReportSent,
                Err(e) => {
                    if matches!(e, WriteError::EndpointInvalid) {
                        self.state = SessionState::Draining;
                        self.cause = Some(TerminalCause::EndpointFailed);
                    }
                    Action::ReportWriteError { error: e }
                },
            },
            Event::Sample { decoded } => match decoded {
                Ok(p) => Action::ReportPayload { payload: p },
                Err(_) => {
                    self.state = SessionState::Draining;
                    self.cause = Some(TerminalCause::DecodeFailure);
                    Action::ReportDecodeError
                },
            },
            Event::Status { event } => Action::ReportStatus { event },
            Event::Cancelled => {
                self.state = SessionState::Draining;
                self.cause = Some(TerminalCause::Cancelled);
                Action::Nothing
            },
        }
    }

    /// Leaves the draining state: releases the endpoint resource — this is
    /// the one exit path, taken whatever drained the loop — and
    /// terminates.
    pub fn finish(&mut self)
        requires
            old(self).wf(),
            old(self).state is Draining,
        ensures
            *final(self) == (Session {
                state: SessionState::Terminated,
                released: true,
                ..*old(self)
            }),
            final(self).wf(),
    {
        self.released = true;
        self.state = SessionState::Terminated;
    }

    /// The process exit status: nonzero exactly when the session ended on
    /// a decode failure or an invalid endpoint.
    pub fn exit_code(&self) -> (c: i32)
        requires
            self.state is Terminated,
        ensures
            c == spec_exit_code(*self),
            (c != 0) <==> (self.cause == Some(TerminalCause::DecodeFailure) || self.cause
                == Some(TerminalCause::EndpointFailed)),
    {
        match self.cause {
            Some(TerminalCause::DecodeFailure) => 1,
            Some(TerminalCause::EndpointFailed) => 1,
            Some(TerminalCause::Cancelled) => 0,
            None => 0,
        }
    }

    /// Serves a whole sequence of events in order, returning the action
    /// owed for each: the loop is `spec_run`, made executable.
    #[verifier::loop_isolation(false)]
    pub fn run_events(&mut self, events: &Vec<Event>) -> (actions: Vec<Action>)
        requires
            old(self).wf(),
            forall|i: int|
                0 <= i < events@.len() ==> event_fits_role(
                    old(self).role,
                    #[trigger] events@[i],
                ),
            old(self).next_tick as int + events@.len() <= MAX_TICK as int + 1,
        ensures
            (*final(self), actions@) == spec_run(*old(self), events@),
            final(self).wf(),
            final(self).role == old(self).role,
    {
        let ghost s0 = *self;
        let mut actions: Vec<Action> = Vec::new();
        let mut i: usize = 0;
        proof {
            assert(events@.skip(0) =~= events@);
            let (sf, af) = spec_run(s0, events@);
            assert(Seq::<Action>::empty() + af =~= af);
        }
        while i < events.len()
            invariant
                0 <= i <= events@.len(),
                self.wf(),
                self.role == s0.role,
                self.next_tick as int <= s0.next_tick as int + i,
                spec_run(s0, events@) == {
                    let (sf, af) = spec_run(*self, events@.skip(i as int));
                    (sf, actions@ + af)
                },
            decreases events@.len() - i,
        {
            let ev = events[i];
            let ghost cur = *self;
            let ghost acts = actions@;
            let a = self.handle_event(ev);
            actions.push(a);
            proof {
                let rest = events@.skip(i as int);
                assert(rest[0] == events@[i as int]);
                assert(rest.drop_first() =~= events@.skip(i as int + 1));
                let (sf, af) = spec_run(*self, events@.skip(i as int + 1));
                assert(spec_run(cur, rest) == (sf, seq![a] + af));
                assert(acts + (seq![a] + af) =~= actions@ + af);
            }
            i = i + 1;
        }
        proof {
            assert(events@.skip(events@.len() as int) =~= Seq::<Event>::empty());
            assert(actions@ + Seq::<Action>::empty() =~= actions@);
        }
        actions
    }
}

/// One full publisher tick, run against the modelled endpoint: the
/// session decides the payload owed for its counter, the endpoint submits
/// it under its policy against the transport behaviour `ack`, and the
/// completion is fed back into the loop. On success the payload joins the
/// submission history and the loop keeps running; on a transient failure
/// nothing is recorded and the loop keeps running; an invalid endpoint
/// drains the loop. Outside the running state nothing happens at all.
pub fn publisher_tick(
    session: &mut Session,
    endpoint: &mut PublishingEndpoint,
    ack: TransportAck,
) -> (a: Action)
    requires
        old(session).wf(),
        old(session).role is Publisher,
        old(session).state is Running ==> old(session).next_tick <= MAX_TICK,
    ensures
        final(session).wf(),
        final(session).role is Publisher,
        final(endpoint).qos == old(endpoint).qos,
        final(endpoint).topic == old(endpoint).topic,
        !(old(session).state is Running) ==> {
            &&& *final(session) == *old(session)
            &&& *final(endpoint) == *old(endpoint)
            &&& a == Action::Nothing
        },
        old(session).state is Running ==> ({
            let outcome = spec_submit_outcome(old(endpoint).qos, ack);
            let sent = old(endpoint).history@.push(
                spec_payload_for_tick(old(session).next_tick),
            );
            &&& final(session).next_tick == old(session).next_tick + 1
            &&& (outcome is Ok ==> {
                &&& final(endpoint).history@ == sent
                &&& a == Action::ReportSent
                &&& final(session).state is Running
            })
            &&& (outcome matches Err(e) ==> {
                &&& final(endpoint).history@ == old(endpoint).history@
                &&& a == (Action::ReportWriteError { error: e })
                &&& (final(session).state is Running <==> !(e is EndpointInvalid))
            })
        }),
{
    let first = session.handle_event(Event::TimerTick);
    match first {
        Action::Submit { payload } => {
            let report = endpoint.submit(payload, ack);
            session.handle_event(Event::WriteDone { result: report.outcome })
        },
        _ => first,
    }
}

/// Lowercases one ASCII byte.
pub open spec fn ascii_lower(b: u8) -> u8 {
    if 65 <= b <= 90 {
        (b + 32) as u8
    } else {
        b
    }
}

/// The role a command-line argument selects, compared case-insensitively:
/// `pub` chooses the publisher role, `sub` the subscriber role, anything
/// else is invalid.
pub open spec fn spec_parse_role(s: Seq<u8>) -> Option<Role> {
    if s.len() == 3 && ascii_lower(s[0]) == 112 && ascii_lower(s[1]) == 117 && ascii_lower(
        s[2],
    ) == 98 {
        Some(Role::Publisher)
    } else if s.len() == 3 && ascii_lower(s[0]) == 115 && ascii_lower(s[1]) == 117
        && ascii_lower(s[2]) == 98 {
        Some(Role::Subscriber)
    } else {
        None
    }
}

/// Lowercases one ASCII byte.
fn lower_byte(b: u8) -> (r: u8)
    ensures
        r == ascii_lower(b),
{
    if 65 <= b && b <= 90 {
        b + 32
    } else {
        b
    }
}

/// Parses the role argument, case-insensitively: `"pub"` selects the
/// publisher role, `"sub"` the subscriber role; anything else — including
/// a missing argument, passed as the empty string — is invalid and yields
/// `None`, upon which the caller prints usage and exits nonzero before any
/// domain is joined.
pub fn parse_role(arg: &[u8]) -> (r: Option<Role>)
    ensures
        r == spec_parse_role(arg@),
{
    if arg.len() != 3 {
        return None;
    }
    let c0 = lower_byte(arg[0]);
    let c1 = lower_byte(arg[1]);
    let c2 = lower_byte(arg[2]);
    if c0 == 112 && c1 == 117 && c2 == 98 {
        Some(Role::Publisher)
    } else if c0 == 115 && c1 == 117 && c2 == 98 {
        Some(Role::Subscriber)
    } else {
        None
    }
}

} // verus!
