//! One live connection: the heartbeat, and what to do on each event.
//!
//! A session is a state machine. The caller owns the stream and the timers:
//! it waits for a frame, a heartbeat tick or a command, hands it to
//! [`ConnectionSession::handle`] with the reading of a monotonic clock, carries
//! out the action that comes back, and reports how a send went.

use vstd::prelude::*;
use crate::time::Span;
use crate::ws::types::WebsocketMessage;
use crate::ws::worker::ControlMessage;

verus! {

/// How a session ended.
#[derive(Debug, Clone, Copy, PartialEq, Eq, Structural)]
pub enum SessionOutcome {
    /// The application asked for it: do not connect again.
    Stopped,
    /// The connection was lost, timed out or was torn down to be renewed.
    Reconnect,
}

/// Tracks pings sent and pongs received against the ping timeout.
#[derive(Debug, Clone, Copy, PartialEq, Eq, Structural)]
pub struct HeartbeatMonitor {
    /// Time without a pong after which the connection counts as dead.
    pub ping_timeout: Span,
    /// Whether a ping was sent and no pong has come since.
    pub waiting_for_pong: bool,
    /// Clock reading at the last pong, or at the start of the session.
    pub last_pong: Span,
}

impl HeartbeatMonitor {
    /// Time from the last pong to `now`; zero if the clock reads earlier than then.
    pub open spec fn elapsed(&self, now: Span) -> int {
        if now.nanos >= self.last_pong.nanos {
            now.nanos - self.last_pong.nanos
        } else {
            0
        }
    }

    /// Whether the connection counts as dead at `now`: a ping is outstanding
    /// and more than the ping timeout has passed since the last pong.
    pub open spec fn timed_out(&self, now: Span) -> bool {
        self.waiting_for_pong && self.elapsed(now) > self.ping_timeout.nanos
    }

    /// The monitor after a ping was sent.
    pub open spec fn after_ping(self) -> HeartbeatMonitor {
        HeartbeatMonitor { waiting_for_pong: true, ..self }
    }

    /// The monitor after a pong came in at `now`.
    pub open spec fn after_pong(self, now: Span) -> HeartbeatMonitor {
        HeartbeatMonitor { waiting_for_pong: false, last_pong: now, ..self }
    }

    /// A monitor for a session that starts at `now`, with no ping outstanding.
    pub fn new(ping_timeout: Span, now: Span) -> (monitor: Self)
        ensures
            monitor == (HeartbeatMonitor { ping_timeout, waiting_for_pong: false, last_pong: now }),
    {
        HeartbeatMonitor { ping_timeout, waiting_for_pong: false, last_pong: now }
    }

    /// Whether to send a ping at `now`. False exactly when the connection has
    /// timed out, in which case the session must end.
    pub fn should_ping(&self, now: Span) -> (send: bool)
        ensures
            send == !self.timed_out(now),
    {
        if self.waiting_for_pong {
            let since = now.saturating_since(self.last_pong);
            if since.nanos > self.ping_timeout.nanos {
                return false;
            }
        }
        true
    }

    /// Records that a ping was sent.
    pub fn ping_sent(&mut self)
        ensures
            *final(self) == old(self).after_ping(),
    {
        self.waiting_for_pong = true;
    }

    /// Records a pong at `now`, whether or not a ping was outstanding.
    pub fn pong_received(&mut self, now: Span)
        ensures
            *final(self) == old(self).after_pong(now),
    {
        self.waiting_for_pong = false;
        self.last_pong = now;
    }
}

/// What came in on the stream.
#[derive(Debug, Clone, PartialEq)]
pub enum InboundFrame {
    /// A text frame, with the message it decodes to; `None` where it is malformed.
    Text(Option<WebsocketMessage>),
    /// A ping with its payload.
    Ping(Vec<u8>),
    /// A pong.
    Pong,
    /// A close frame from the peer.
    Close,
    /// Any other frame.
    Other,
}

/// What a session reacts to.
#[derive(Debug, Clone, PartialEq)]
pub enum SessionEvent {
    /// A frame arrived.
    Frame(InboundFrame),
    /// Reading from the stream failed.
    ReadError,
    /// The heartbeat timer ticked.
    Tick,
    /// A command arrived on the control channel.
    Control(ControlMessage),
    /// The send that the last action asked for is over; `true` if it went through.
    SendDone(bool),
}

/// What the caller has to do after an event.
#[derive(Debug, Clone, PartialEq)]
pub enum SessionAction {
    /// Nothing; wait for the next event.
    Wait,
    /// Hand the message to the application.
    Deliver(WebsocketMessage),
    /// Send a ping with an empty payload, then report `SendDone`.
    SendPing,
    /// Send a pong with this payload, then report `SendDone`.
    SendPong(Vec<u8>),
    /// Send a close frame without a reason, then report `SendDone`.
    SendClose,
}

/// Where a session stands.
#[derive(Debug, Clone, Copy, PartialEq, Eq, Structural)]
pub enum SessionPhase {
    /// The connection is up.
    Active,
    /// A close frame is being sent; the session ends with this outcome once it is out.
    Closing(SessionOutcome),
    /// The session is over.
    Ended(SessionOutcome),
}

/// The state of one live connection.
#[derive(Debug, Clone, Copy, PartialEq, Eq, Structural)]
pub struct ConnectionSession {
    /// The heartbeat of the connection.
    pub monitor: HeartbeatMonitor,
    /// Where the session stands.
    pub phase: SessionPhase,
}

impl ConnectionSession {
    /// The session with another phase.
    pub open spec fn in_phase(self, phase: SessionPhase) -> ConnectionSession {
        ConnectionSession { phase, ..self }
    }

    /// The outcome of a session that is over.
    pub open spec fn spec_outcome(&self) -> Option<SessionOutcome> {
        match self.phase {
            SessionPhase::Ended(outcome) => Some(outcome),
            _ => None,
        }
    }

    /// The session after `event` at clock reading `now`, and what the caller has to do.
    ///
    /// While the connection is up: a text frame that decoded to a message of
    /// one of the kinds that the server sends is delivered, and any other
    /// text frame is dropped; a ping is answered with a pong of the same
    /// payload; a pong resets the heartbeat; a close frame from the peer or a
    /// read error ends the session with `Reconnect`; a tick ends it with
    /// `Reconnect` if the heartbeat has timed out and sends a ping otherwise;
    /// a command sends a close frame and ends the session, with `Stopped` for
    /// `Stop` and `Reconnect` for `Reconnect`, whether or not the close frame
    /// goes through; any other send that fails ends it with `Reconnect`.
    /// While a close frame is on its way only the end of that send counts, and
    /// a session that is over ignores everything.
    pub open spec fn spec_handle(self, event: SessionEvent, now: Span) -> (
        ConnectionSession,
        SessionAction,
    ) {
        match self.phase {
            SessionPhase::Active => match event {
                SessionEvent::Frame(InboundFrame::Text(decoded)) => (self, text_action(decoded)),
                SessionEvent::Frame(InboundFrame::Ping(payload)) => (
                    self,
                    SessionAction::SendPong(payload),
                ),
                SessionEvent::Frame(InboundFrame::Pong) => (
                    ConnectionSession { monitor: self.monitor.after_pong(now), ..self },
                    SessionAction::Wait,
                ),
                SessionEvent::Frame(InboundFrame::Close) => (
                    self.in_phase(SessionPhase::Ended(SessionOutcome::Reconnect)),
                    SessionAction::Wait,
                ),
                SessionEvent::Frame(InboundFrame::Other) => (self, SessionAction::Wait),
                SessionEvent::ReadError => (
                    self.in_phase(SessionPhase::Ended(SessionOutcome::Reconnect)),
                    SessionAction::Wait,
                ),
                SessionEvent::Tick => if self.monitor.timed_out(now) {
                    (
                        self.in_phase(SessionPhase::Ended(SessionOutcome::Reconnect)),
                        SessionAction::Wait,
                    )
                } else {
                    (
                        ConnectionSession { monitor: self.monitor.after_ping(), ..self },
                        SessionAction::SendPing,
                    )
                },
                SessionEvent::Control(ControlMessage::Stop) => (
                    self.in_phase(SessionPhase::Closing(SessionOutcome::Stopped)),
                    SessionAction::SendClose,
                ),
                SessionEvent::Control(ControlMessage::Reconnect) => (
                    self.in_phase(SessionPhase::Closing(SessionOutcome::Reconnect)),
                    SessionAction::SendClose,
                ),
                SessionEvent::SendDone(ok) => if ok {
                    (self, SessionAction::Wait)
                } else {
                    (
                        self.in_phase(SessionPhase::Ended(SessionOutcome::Reconnect)),
                        SessionAction::Wait,
                    )
                },
            },
            SessionPhase::Closing(outcome) => match event {
                SessionEvent::SendDone(_) => (
                    self.in_phase(SessionPhase::Ended(outcome)),
                    SessionAction::Wait,
                ),
                _ => (self, SessionAction::Wait),
            },
            SessionPhase::Ended(_) => (self, SessionAction::Wait),
        }
    }

    /// A session on a connection that was established at `now`: the
    /// connection is up and no ping is outstanding.
    pub open spec fn spec_new(ping_timeout: Span, now: Span) -> ConnectionSession {
        ConnectionSession {
            monitor: HeartbeatMonitor { ping_timeout, waiting_for_pong: false, last_pong: now },
            phase: SessionPhase::Active,
        }
    }

    /// A session on a connection that was established at `now`.
    pub fn new(ping_timeout: Span, now: Span) -> (session: Self)
        ensures
            session == Self::spec_new(ping_timeout, now),
    {
        ConnectionSession {
            monitor: HeartbeatMonitor::new(ping_timeout, now),
            phase: SessionPhase::Active,
        }
    }

    /// How the session ended; `None` while it is not over.
    pub fn outcome(&self) -> (outcome: Option<SessionOutcome>)
        ensures
            outcome == self.spec_outcome(),
    {
        match self.phase {
            SessionPhase::Ended(outcome) => Some(outcome),
            _ => None,
        }
    }

    /// Takes `event` at clock reading `now` and says what the caller has to do.
    pub fn handle(&mut self, event: SessionEvent, now: Span) -> (action: SessionAction)
        ensures
            (*final(self), action) == old(self).spec_handle(event, now),
    {
        match event {
            SessionEvent::Frame(frame) => self.handle_message(frame, now),
            SessionEvent::Control(command) => self.handle_control_message(command),
            SessionEvent::ReadError => {
                if let SessionPhase::Active = self.phase {
                    self.phase = SessionPhase::Ended(SessionOutcome::Reconnect);
                }
                SessionAction::Wait
            },
            SessionEvent::Tick => self.handle_tick(now),
            SessionEvent::SendDone(sent) => {
                match self.phase {
                    SessionPhase::Active => {
                        if !sent {
                            self.phase = SessionPhase::Ended(SessionOutcome::Reconnect);
                        }
                    },
                    SessionPhase::Closing(outcome) => {
                        self.phase = SessionPhase::Ended(outcome);
                    },
                    SessionPhase::Ended(_) => {},
                }
                SessionAction::Wait
            },
        }
    }

    /// What a heartbeat tick leads to: a ping while the connection is alive,
    /// and the end of the session once it has timed out.
    pub fn handle_tick(&mut self, now: Span) -> (action: SessionAction)
        ensures
            (*final(self), action) == old(self).spec_handle(SessionEvent::Tick, now),
    {
        match self.phase {
            SessionPhase::Active => {
                if self.monitor.should_ping(now) {
                    self.monitor.ping_sent();
                    SessionAction::SendPing
                } else {
                    self.phase = SessionPhase::Ended(SessionOutcome::Reconnect);
                    SessionAction::Wait
                }
            },
            _ => SessionAction::Wait,
        }
    }

    /// What a frame leads to.
    pub fn handle_message(&mut self, frame: InboundFrame, now: Span) -> (action: SessionAction)
        ensures
            (*final(self), action) == old(self).spec_handle(SessionEvent::Frame(frame), now),
    {
        match self.phase {
            SessionPhase::Active => {},
            _ => {
                return SessionAction::Wait;
            },
        }
        match frame {
            InboundFrame::Text(decoded) => Self::process_text_message(decoded),
            InboundFrame::Ping(payload) => SessionAction::SendPong(payload),
            InboundFrame::Pong => {
                self.monitor.pong_received(now);
                SessionAction::Wait
            },
            InboundFrame::Close => {
                self.phase = SessionPhase::Ended(SessionOutcome::Reconnect);
                SessionAction::Wait
            },
            InboundFrame::Other => SessionAction::Wait,
        }
    }

    /// What a text frame leads to: the message is delivered where the frame
    /// decoded to one of a kind that the server sends. Nothing happens where
    /// it did not decode, and nothing where it decoded to the connection
    /// update, which is made locally and never taken from the wire.
    pub fn process_text_message(decoded: Option<WebsocketMessage>) -> (action: SessionAction)
        ensures
            action == text_action(decoded),
    {
        match decoded {
            Some(message) => {
                if message.wire_kind().is_some() {
                    SessionAction::Deliver(message)
                } else {
                    SessionAction::Wait
                }
            },
            None => SessionAction::Wait,
        }
    }

    /// What a command leads to: on a live connection a close frame, and then
    /// the end of the session with `Stopped` for `Stop` and `Reconnect` for
    /// `Reconnect`; nothing on any other.
    pub fn handle_control_message(&mut self, command: ControlMessage) -> (action: SessionAction)
        ensures
            forall|now: Span|
                (*final(self), action) == #[trigger] old(self).spec_handle(
                    SessionEvent::Control(command),
                    now,
                ),
    {
        match self.phase {
            SessionPhase::Active => {},
            _ => {
                return SessionAction::Wait;
            },
        }
        match command {
            ControlMessage::Stop => {
                self.phase = SessionPhase::Closing(SessionOutcome::Stopped);
            },
            ControlMessage::Reconnect => {
                self.phase = SessionPhase::Closing(SessionOutcome::Reconnect);
            },
        }
        SessionAction::SendClose
    }
}

/// An event together with the clock reading at which it is handled.
pub struct TimedEvent {
    /// The event.
    pub event: SessionEvent,
    /// The clock reading.
    pub now: Span,
}

/// The session after a run of events, and the actions that they led to, in order.
pub open spec fn spec_run(session: ConnectionSession, events: Seq<TimedEvent>) -> (
    ConnectionSession,
    Seq<SessionAction>,
)
    decreases events.len(),
{
    if events.len() == 0 {
        (session, Seq::empty())
    } else {
        let first = session.spec_handle(events[0].event, events[0].now);
        let rest = spec_run(first.0, events.drop_first());
        (rest.0, seq![first.1] + rest.1)
    }
}

/// Whether a text frame that decoded to this is a valid event frame: it
/// decoded to a message, and the message is of a kind that the server sends.
pub open spec fn is_wire_event(decoded: Option<WebsocketMessage>) -> bool {
    decoded matches Some(message) && message.spec_wire_kind() is Some
}

/// The action that a text frame leads to: its message is delivered where the
/// frame is a valid event frame, and nothing is done where it is not.
pub open spec fn text_action(decoded: Option<WebsocketMessage>) -> SessionAction {
    if is_wire_event(decoded) {
        SessionAction::Deliver(decoded->0)
    } else {
        SessionAction::Wait
    }
}

/// Whatever a session hands to the application came from the wire: every
/// message that is delivered is of a kind that the server sends, and is the
/// message that the text frame at hand decoded to. The connection update is
/// never among them.
pub proof fn lemma_only_wire_events_delivered(
    session: ConnectionSession,
    event: SessionEvent,
    now: Span,
)
    ensures
        session.spec_handle(event, now).1 matches SessionAction::Deliver(message) ==> {
            &&& message.spec_wire_kind() is Some
            &&& !(message is WebsocketConnectionUpdate)
            &&& session.phase == SessionPhase::Active
            &&& event == SessionEvent::Frame(InboundFrame::Text(Some(message)))
        },
{
}

/// A text frame that decodes to the connection update is dropped like a
/// malformed one: nothing is delivered and the session goes on as it was.
pub proof fn lemma_forged_connection_update_dropped(
    session: ConnectionSession,
    connected: bool,
    reconnect: bool,
    now: Span,
)
    ensures
        session.spec_handle(
            SessionEvent::Frame(
                InboundFrame::Text(
                    Some(WebsocketMessage::WebsocketConnectionUpdate { connected, reconnect }),
                ),
            ),
            now,
        ) == (session, SessionAction::Wait),
{
}

/// A dead connection is found at the first tick after the deadline: where a
/// ping is outstanding and more than the ping timeout has passed since the
/// last pong, a tick ends the session with `Reconnect` and sends nothing.
pub proof fn lemma_timeout_ends_session(session: ConnectionSession, now: Span)
    requires
        session.phase == SessionPhase::Active,
        session.monitor.waiting_for_pong,
        now.nanos > session.monitor.last_pong.nanos + session.monitor.ping_timeout.nanos,
    ensures
        session.spec_handle(SessionEvent::Tick, now).0.spec_outcome() == Some(
            SessionOutcome::Reconnect,
        ),
        session.spec_handle(SessionEvent::Tick, now).1 == SessionAction::Wait,
{
}

/// Before the deadline a tick keeps the session up and sends a ping, and so
/// does any tick while no ping is outstanding.
pub proof fn lemma_tick_before_deadline_pings(session: ConnectionSession, now: Span)
    requires
        session.phase == SessionPhase::Active,
        !session.monitor.waiting_for_pong || now.nanos <= session.monitor.last_pong.nanos
            + session.monitor.ping_timeout.nanos,
    ensures
        session.spec_handle(SessionEvent::Tick, now).0.phase == SessionPhase::Active,
        session.spec_handle(SessionEvent::Tick, now).0.monitor.waiting_for_pong,
        session.spec_handle(SessionEvent::Tick, now).1 == SessionAction::SendPing,
{
}

/// Ticks that come every `interval` from `first_tick` on do not skip the
/// deadline by more than one interval: some tick falls after `deadline` and
/// no later than `deadline + interval`.
pub proof fn lemma_tick_within_one_interval(first_tick: nat, interval: nat, deadline: nat) -> (k:
    nat)
    requires
        interval > 0,
        first_tick <= deadline,
    ensures
        deadline < first_tick + k * interval <= deadline + interval,
{
    let k: nat = ((deadline - first_tick) / (interval as int) + 1) as nat;
    assert(deadline < first_tick + k * interval <= deadline + interval) by (nonlinear_arith)
        requires
            interval > 0,
            first_tick <= deadline,
            k == (deadline - first_tick) / (interval as int) + 1,
    ;
    k
}

/// A pong at any time clears the outstanding ping and restarts the timeout:
/// no tick within the ping timeout of it ends the session.
pub proof fn lemma_pong_resets_heartbeat(session: ConnectionSession, pong_at: Span, tick_at: Span)
    requires
        session.phase == SessionPhase::Active,
        tick_at.nanos <= pong_at.nanos + session.monitor.ping_timeout.nanos,
    ensures
        ({
            let after = session.spec_handle(SessionEvent::Frame(InboundFrame::Pong), pong_at).0;
            &&& after.phase == SessionPhase::Active
            &&& !after.monitor.waiting_for_pong
            &&& after.monitor.last_pong == pong_at
            &&& after.spec_handle(SessionEvent::Tick, tick_at).0.phase == SessionPhase::Active
        }),
{
}

/// Text frames never end a session, and each leads to exactly its own
/// action: a run of text frames on a live connection leaves the session as it
/// was, delivers the message of every valid event frame, once and in order,
/// and does nothing for any other frame.
pub proof fn lemma_text_frames_delivered(session: ConnectionSession, events: Seq<TimedEvent>)
    requires
        session.phase == SessionPhase::Active,
        forall|i: int|
            0 <= i < events.len() ==> (#[trigger] events[i]).event is Frame
                && events[i].event->Frame_0 is Text,
    ensures
        spec_run(session, events).0 == session,
        spec_run(session, events).1.len() == events.len(),
        forall|i: int|
            0 <= i < events.len() ==> #[trigger] spec_run(session, events).1[i] == text_action(
                events[i].event->Frame_0->Text_0,
            ),
    decreases events.len(),
{
    if events.len() > 0 {
        let rest = events.drop_first();
        assert(events[0].event is Frame && events[0].event->Frame_0 is Text);
        assert forall|i: int| 0 <= i < rest.len() implies (#[trigger] rest[i]).event is Frame
            && rest[i].event->Frame_0 is Text by {
            assert(rest[i] == events[i + 1]);
        }
        lemma_text_frames_delivered(session, rest);
        let first = session.spec_handle(events[0].event, events[0].now);
        assert(first.0 == session);
        assert forall|i: int| 0 <= i < events.len() implies #[trigger] spec_run(
            session,
            events,
        ).1[i] == text_action(events[i].event->Frame_0->Text_0) by {
            if i > 0 {
                assert(rest[i - 1] == events[i]);
                assert(spec_run(session, events).1[i] == spec_run(session, rest).1[i - 1]);
            }
        }
    }
}

/// `Stop` on a live connection always ends the session with `Stopped`: it
/// asks for a close frame, and the session is over once that send is done,
/// whether it went through or not.
pub proof fn lemma_stop_ends_session(session: ConnectionSession, now: Span, later: Span, sent: bool)
    requires
        session.phase == SessionPhase::Active,
    ensures
        ({
            let closing = session.spec_handle(SessionEvent::Control(ControlMessage::Stop), now);
            &&& closing.1 == SessionAction::SendClose
            &&& closing.0.spec_handle(SessionEvent::SendDone(sent), later).0.spec_outcome()
                == Some(SessionOutcome::Stopped)
        }),
{
}

/// A session that is over stays as it is and asks for nothing.
pub proof fn lemma_ended_session_is_final(session: ConnectionSession, event: SessionEvent, now: Span)
    requires
        session.phase is Ended,
    ensures
        session.spec_handle(event, now) == (session, SessionAction::Wait),
{
}

} // verus!
