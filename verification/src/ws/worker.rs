//! The worker that keeps a connection alive: when to connect, when to wait,
//! when to give up.
//!
//! The worker is a state machine. The caller performs the handshake, runs the
//! session and sleeps; after each of these it reports what happened to
//! [`WorkerLoop::step`] and is told what to announce and what to do next.

use vstd::prelude::*;
use crate::config::WebSocketConfig;
use crate::time::Span;
use crate::ws::error::{WebsocketError, WebsocketResult};
use crate::ws::session::{ConnectionSession, SessionOutcome};
use crate::ws::types::WebsocketMessage;

verus! {

/// The longest wait between two attempts to connect, in nanoseconds: 60 seconds.
pub const MAX_BACKOFF_NANOS: u128 = 60_000_000_000;

/// Commands to a running worker.
#[derive(Debug, Clone, Copy, PartialEq, Eq, Structural)]
pub enum ControlMessage {
    /// End the worker for good.
    Stop,
    /// Tear the connection down and connect again at once.
    Reconnect,
}

/// The wait before attempt number `attempt`: `interval` times `attempt`, and
/// at most 60 seconds.
pub open spec fn spec_backoff_delay(interval: Span, attempt: u32) -> Span {
    Span {
        nanos: if interval.nanos * attempt <= MAX_BACKOFF_NANOS {
            (interval.nanos * attempt) as u128
        } else {
            MAX_BACKOFF_NANOS
        },
    }
}

/// The wait before attempt number `attempt`.
pub fn backoff_delay(interval: Span, attempt: u32) -> (delay: Span)
    ensures
        delay == spec_backoff_delay(interval, attempt),
{
    let count: u128 = attempt as u128;
    if count == 0 {
        return Span { nanos: 0 };
    }
    let limit: u128 = MAX_BACKOFF_NANOS / count;
    if interval.nanos > limit {
        assert(interval.nanos * count > MAX_BACKOFF_NANOS) by (nonlinear_arith)
            requires
                count > 0,
                interval.nanos >= MAX_BACKOFF_NANOS / count + 1,
        ;
        Span { nanos: MAX_BACKOFF_NANOS }
    } else {
        assert(interval.nanos * count <= MAX_BACKOFF_NANOS) by (nonlinear_arith)
            requires
                count > 0,
                interval.nanos <= MAX_BACKOFF_NANOS / count,
        ;
        Span { nanos: interval.nanos * count }
    }
}

/// The wait never shrinks from one attempt to the next, and never exceeds 60
/// seconds.
pub proof fn lemma_backoff_monotonic(interval: Span, earlier: u32, later: u32)
    requires
        earlier <= later,
    ensures
        spec_backoff_delay(interval, earlier).nanos <= spec_backoff_delay(interval, later).nanos,
        spec_backoff_delay(interval, later).nanos <= MAX_BACKOFF_NANOS,
{
    assert(interval.nanos * earlier <= interval.nanos * later) by (nonlinear_arith)
        requires
            earlier <= later,
            interval.nanos >= 0,
    ;
}

/// Where the worker stands.
#[derive(Debug, Clone, Copy, PartialEq, Eq, Structural)]
pub enum WorkerPhase {
    /// A handshake is to be made, or under way.
    Connecting,
    /// A session is running.
    Active,
    /// Waiting before the next attempt.
    Backoff,
    /// Ended for good, without an error.
    Stopped,
    /// Ended for good: the server refused the token.
    Unauthorized,
}

/// What the worker reacts to.
#[derive(Debug, Clone, PartialEq)]
pub enum WorkerEvent {
    /// The handshake went through.
    Connected,
    /// The handshake failed with this error.
    ConnectFailed(WebsocketError),
    /// The session ended.
    SessionEnded(SessionOutcome),
    /// The wait before the next attempt is over.
    BackoffElapsed,
    /// A command arrived while no session was running.
    Control(ControlMessage),
}

/// What the caller has to do next.
#[derive(Debug, Clone, PartialEq)]
pub enum NextOp {
    /// Make a handshake and report `Connected` or `ConnectFailed`.
    Connect,
    /// Run a session on the new connection and report `SessionEnded`.
    RunSession,
    /// Wait this long, or until a command arrives, and report which.
    Wait(Span),
    /// Return from the worker without an error.
    Exit,
    /// Return from the worker with this error.
    Fail(WebsocketError),
    /// Go on with what was under way; the event changed nothing.
    Continue,
}

/// The answer to an event.
#[derive(Debug, Clone, PartialEq)]
pub struct WorkerStep {
    /// The connection update to hand to the application, if any.
    pub notify: Option<WebsocketMessage>,
    /// What to do next.
    pub next: NextOp,
}

/// The part of the configuration that the worker and its sessions go by.
#[derive(Debug, Clone, Copy, PartialEq, Eq, Structural)]
pub struct WorkerPolicy {
    /// Whether to connect again after the connection is lost.
    pub auto_reconnect: bool,
    /// Base of the delay between attempts to connect.
    pub reconnect_interval: Span,
    /// How many times to connect again before giving up; `None` is no limit.
    pub max_reconnect_attempts: Option<u32>,
    /// Time between two pings.
    pub ping_interval: Span,
    /// Time without a pong after which the connection counts as dead.
    pub ping_timeout: Span,
}

impl WorkerPolicy {
    /// The policy that a configuration asks for.
    pub open spec fn spec_from_config(config: WebSocketConfig) -> WorkerPolicy {
        WorkerPolicy {
            auto_reconnect: config.auto_reconnect,
            reconnect_interval: config.reconnect_interval,
            max_reconnect_attempts: config.max_reconnect_attempts,
            ping_interval: config.ping_interval,
            ping_timeout: config.ping_timeout,
        }
    }

    /// The policy that a configuration asks for.
    pub fn from_config(config: &WebSocketConfig) -> (policy: Self)
        ensures
            policy == Self::spec_from_config(*config),
    {
        WorkerPolicy {
            auto_reconnect: config.auto_reconnect,
            reconnect_interval: config.reconnect_interval,
            max_reconnect_attempts: config.max_reconnect_attempts,
            ping_interval: config.ping_interval,
            ping_timeout: config.ping_timeout,
        }
    }
}

/// The state of the worker.
#[derive(Debug, Clone, Copy, PartialEq, Eq, Structural)]
pub struct WorkerLoop {
    /// The policy that the worker was started with.
    pub policy: WorkerPolicy,
    /// The number of attempts to connect again so far. It starts at zero and
    /// is never reset while the worker runs.
    pub reconnect_count: u32,
    /// Where the worker stands.
    pub phase: WorkerPhase,
    /// Whether a connection is up.
    pub connected: bool,
}

/// A connection update.
pub open spec fn connection_update(connected: bool, reconnect: bool) -> WebsocketMessage {
    WebsocketMessage::WebsocketConnectionUpdate { connected, reconnect }
}

impl WorkerLoop {
    /// Whether a lost connection is followed by another attempt: reconnecting
    /// is switched on, and fewer attempts were made than the limit allows.
    pub open spec fn will_retry(&self) -> bool {
        &&& self.policy.auto_reconnect
        &&& (self.policy.max_reconnect_attempts matches Some(limit) ==> self.reconnect_count
            < limit)
    }

    /// The attempt counter after one more attempt; it stays at the largest
    /// value it can hold.
    pub open spec fn next_count(&self) -> u32 {
        if self.reconnect_count < u32::MAX {
            (self.reconnect_count + 1) as u32
        } else {
            self.reconnect_count
        }
    }

    /// The connection flag is up exactly while a session runs.
    pub open spec fn wf(&self) -> bool {
        self.connected <==> self.phase == WorkerPhase::Active
    }

    /// The worker in another phase, with the connection flag that goes with it.
    pub open spec fn in_phase(self, phase: WorkerPhase) -> WorkerLoop {
        WorkerLoop { phase, connected: phase == WorkerPhase::Active, ..self }
    }

    /// The worker and the answer after a connection was lost or could not be
    /// made for a reason other than a refused token.
    pub open spec fn after_loss(self) -> (WorkerLoop, WorkerStep) {
        if self.will_retry() {
            let count = self.next_count();
            (
                WorkerLoop { reconnect_count: count, ..self.in_phase(WorkerPhase::Backoff) },
                WorkerStep {
                    notify: Some(connection_update(false, true)),
                    next: NextOp::Wait(spec_backoff_delay(self.policy.reconnect_interval, count)),
                },
            )
        } else {
            (
                self.in_phase(WorkerPhase::Stopped),
                WorkerStep { notify: Some(connection_update(false, false)), next: NextOp::Exit },
            )
        }
    }

    /// The answer to an event that changes nothing.
    pub open spec fn ignored() -> WorkerStep {
        WorkerStep { notify: None, next: NextOp::Continue }
    }

    /// The worker after `event`, and the answer to it.
    ///
    /// While connecting: success starts a session and announces the
    /// connection; a refused token ends the worker with that error and
    /// announces nothing; any other failure counts as a lost connection. While
    /// a session runs: its end with `Stopped` ends the worker and announces
    /// the disconnection without a retry; its end with `Reconnect` counts as a
    /// lost connection. After a lost connection the worker announces the
    /// disconnection and either waits before the next attempt or, where
    /// reconnecting is off or the limit of attempts is reached, ends. While
    /// waiting: the end of the wait starts the next attempt. `Stop` that
    /// arrives while no session runs, before a handshake or during the wait,
    /// ends the worker at once and announces nothing; `Reconnect` then changes
    /// nothing. Every other pair of phase and event changes nothing.
    pub open spec fn spec_step(self, event: WorkerEvent) -> (WorkerLoop, WorkerStep) {
        match (self.phase, event) {
            (WorkerPhase::Connecting, WorkerEvent::Connected) => (
                self.in_phase(WorkerPhase::Active),
                WorkerStep {
                    notify: Some(connection_update(true, false)),
                    next: NextOp::RunSession,
                },
            ),
            (WorkerPhase::Connecting, WorkerEvent::ConnectFailed(error)) => if error
                == WebsocketError::Unauthorized {
                (
                    self.in_phase(WorkerPhase::Unauthorized),
                    WorkerStep { notify: None, next: NextOp::Fail(WebsocketError::Unauthorized) },
                )
            } else {
                self.after_loss()
            },
            (WorkerPhase::Active, WorkerEvent::SessionEnded(SessionOutcome::Stopped)) => (
                self.in_phase(WorkerPhase::Stopped),
                WorkerStep { notify: Some(connection_update(false, false)), next: NextOp::Exit },
            ),
            (
                WorkerPhase::Active,
                WorkerEvent::SessionEnded(SessionOutcome::Reconnect),
            ) => self.after_loss(),
            (WorkerPhase::Backoff, WorkerEvent::BackoffElapsed) => (
                self.in_phase(WorkerPhase::Connecting),
                WorkerStep { notify: None, next: NextOp::Connect },
            ),
            (WorkerPhase::Backoff, WorkerEvent::Control(ControlMessage::Stop)) => (
                self.in_phase(WorkerPhase::Stopped),
                WorkerStep { notify: None, next: NextOp::Exit },
            ),
            (WorkerPhase::Connecting, WorkerEvent::Control(ControlMessage::Stop)) => (
                self.in_phase(WorkerPhase::Stopped),
                WorkerStep { notify: None, next: NextOp::Exit },
            ),
            _ => (self, Self::ignored()),
        }
    }

    /// What a worker that has ended returns: nothing while it runs, the
    /// refused token as an error, and success after any other end.
    pub open spec fn spec_result(&self) -> Option<WebsocketResult<()>> {
        match self.phase {
            WorkerPhase::Stopped => Some(Ok(())),
            WorkerPhase::Unauthorized => Some(Err(WebsocketError::Unauthorized)),
            _ => None,
        }
    }

    /// A worker for a configuration, before its first handshake.
    pub open spec fn spec_new(config: WebSocketConfig) -> WorkerLoop {
        WorkerLoop {
            policy: WorkerPolicy::spec_from_config(config),
            reconnect_count: 0,
            phase: WorkerPhase::Connecting,
            connected: false,
        }
    }

    /// A worker that is about to make its first handshake.
    pub fn new(config: &WebSocketConfig) -> (worker: Self)
        ensures
            worker == Self::spec_new(*config),
            worker.wf(),
    {
        WorkerLoop {
            policy: WorkerPolicy::from_config(config),
            reconnect_count: 0,
            phase: WorkerPhase::Connecting,
            connected: false,
        }
    }

    /// Whether a connection is up.
    pub fn is_connected(&self) -> (connected: bool)
        ensures
            connected == self.connected,
    {
        self.connected
    }

    /// What the worker returns once it has ended; `None` while it runs.
    pub fn result(&self) -> (result: Option<WebsocketResult<()>>)
        ensures
            result == self.spec_result(),
    {
        match self.phase {
            WorkerPhase::Stopped => Some(Ok(())),
            WorkerPhase::Unauthorized => Some(Err(WebsocketError::Unauthorized)),
            _ => None,
        }
    }

    /// The session to run on a connection that was established at `now`.
    pub fn start_session(&self, now: Span) -> (session: ConnectionSession)
        ensures
            session == ConnectionSession::spec_new(self.policy.ping_timeout, now),
    {
        ConnectionSession::new(self.policy.ping_timeout, now)
    }

    /// Whether a lost connection would be followed by another attempt.
    pub fn should_retry(&self) -> (retry: bool)
        ensures
            retry == self.will_retry(),
    {
        if !self.policy.auto_reconnect {
            return false;
        }
        match self.policy.max_reconnect_attempts {
            Some(limit) => self.reconnect_count < limit,
            None => true,
        }
    }

    /// Takes `event` and says what to announce and what to do next.
    pub fn step(&mut self, event: WorkerEvent) -> (answer: WorkerStep)
        ensures
            (*final(self), answer) == old(self).spec_step(event),
            old(self).wf() ==> final(self).wf(),
    {
        match (self.phase, event) {
            (WorkerPhase::Connecting, WorkerEvent::Connected) => {
                self.phase = WorkerPhase::Active;
                self.connected = true;
                WorkerStep {
                    notify: Some(
                        WebsocketMessage::WebsocketConnectionUpdate {
                            connected: true,
                            reconnect: false,
                        },
                    ),
                    next: NextOp::RunSession,
                }
            },
            (WorkerPhase::Connecting, WorkerEvent::ConnectFailed(error)) => {
                if is_unauthorized(&error) {
                    self.phase = WorkerPhase::Unauthorized;
                    self.connected = false;
                    WorkerStep { notify: None, next: NextOp::Fail(WebsocketError::Unauthorized) }
                } else {
                    self.connection_lost()
                }
            },
            (WorkerPhase::Active, WorkerEvent::SessionEnded(SessionOutcome::Stopped)) => {
                self.phase = WorkerPhase::Stopped;
                self.connected = false;
                WorkerStep {
                    notify: Some(
                        WebsocketMessage::WebsocketConnectionUpdate {
                            connected: false,
                            reconnect: false,
                        },
                    ),
                    next: NextOp::Exit,
                }
            },
            (WorkerPhase::Active, WorkerEvent::SessionEnded(SessionOutcome::Reconnect)) => {
                self.connection_lost()
            },
            (WorkerPhase::Backoff, WorkerEvent::BackoffElapsed) => {
                self.phase = WorkerPhase::Connecting;
                self.connected = false;
                WorkerStep { notify: None, next: NextOp::Connect }
            },
            (WorkerPhase::Backoff, WorkerEvent::Control(ControlMessage::Stop))
            | (WorkerPhase::Connecting, WorkerEvent::Control(ControlMessage::Stop)) => {
                self.phase = WorkerPhase::Stopped;
                self.connected = false;
                WorkerStep { notify: None, next: NextOp::Exit }
            },
            _ => WorkerStep { notify: None, next: NextOp::Continue },
        }
    }

    /// Records a lost connection: announces it, and either counts one more
    /// attempt and waits, or ends the worker.
    fn connection_lost(&mut self) -> (answer: WorkerStep)
        ensures
            (*final(self), answer) == old(self).after_loss(),
    {
        self.connected = false;
        if self.should_retry() {
            if self.reconnect_count < u32::MAX {
                self.reconnect_count = self.reconnect_count + 1;
            }
            self.phase = WorkerPhase::Backoff;
            WorkerStep {
                notify: Some(
                    WebsocketMessage::WebsocketConnectionUpdate {
                        connected: false,
                        reconnect: true,
                    },
                ),
                next: NextOp::Wait(
                    backoff_delay(self.policy.reconnect_interval, self.reconnect_count),
                ),
            }
        } else {
            self.phase = WorkerPhase::Stopped;
            WorkerStep {
                notify: Some(
                    WebsocketMessage::WebsocketConnectionUpdate {
                        connected: false,
                        reconnect: false,
                    },
                ),
                next: NextOp::Exit,
            }
        }
    }
}

/// Whether an error is the refused token.
pub fn is_unauthorized(error: &WebsocketError) -> (r: bool)
    ensures
        r == (*error == WebsocketError::Unauthorized),
{
    match error {
        WebsocketError::Unauthorized => true,
        _ => false,
    }
}

/// The worker after a run of events, and the answers to them, in order.
pub open spec fn spec_steps(worker: WorkerLoop, events: Seq<WorkerEvent>) -> (
    WorkerLoop,
    Seq<WorkerStep>,
)
    decreases events.len(),
{
    if events.len() == 0 {
        (worker, Seq::empty())
    } else {
        let first = worker.spec_step(events[0]);
        let rest = spec_steps(first.0, events.drop_first());
        (rest.0, seq![first.1] + rest.1)
    }
}

/// The connection flag is up exactly while a session runs, before and after
/// every event.
pub proof fn lemma_step_preserves_wf(worker: WorkerLoop, event: WorkerEvent)
    requires
        worker.wf(),
    ensures
        worker.spec_step(event).0.wf(),
{
}

/// A refused token is fatal whatever the configuration says: the worker ends
/// with the `Unauthorized` error, announces nothing, counts no attempt, and
/// its connection flag is down.
pub proof fn lemma_unauthorized_is_fatal(worker: WorkerLoop)
    requires
        worker.phase == WorkerPhase::Connecting,
    ensures
        ({
            let (after, answer) = worker.spec_step(
                WorkerEvent::ConnectFailed(WebsocketError::Unauthorized),
            );
            &&& after.phase == WorkerPhase::Unauthorized
            &&& after.reconnect_count == worker.reconnect_count
            &&& !after.connected
            &&& after.spec_result() == Some(Err::<(), WebsocketError>(WebsocketError::Unauthorized))
            &&& answer.notify is None
            &&& answer.next == NextOp::Fail(WebsocketError::Unauthorized)
        }),
{
}

/// A worker that has ended stays ended: whatever events follow, it does not
/// change, announces nothing and never asks for another handshake.
pub proof fn lemma_ended_worker_is_final(worker: WorkerLoop, events: Seq<WorkerEvent>)
    requires
        worker.phase == WorkerPhase::Stopped || worker.phase == WorkerPhase::Unauthorized,
    ensures
        spec_steps(worker, events).0 == worker,
        spec_steps(worker, events).1.len() == events.len(),
        forall|i: int|
            0 <= i < events.len() ==> #[trigger] spec_steps(worker, events).1[i]
                == WorkerLoop::ignored(),
    decreases events.len(),
{
    if events.len() > 0 {
        let rest = events.drop_first();
        lemma_ended_worker_is_final(worker, rest);
        assert(worker.spec_step(events[0]) == (worker, WorkerLoop::ignored()));
        assert forall|i: int| 0 <= i < events.len() implies #[trigger] spec_steps(
            worker,
            events,
        ).1[i] == WorkerLoop::ignored() by {
            if i > 0 {
                assert(spec_steps(worker, events).1[i] == spec_steps(worker, rest).1[i - 1]);
            }
        }
    }
}

/// `Stop` ends the worker at any point. While no session runs, before a
/// handshake or between attempts, it ends the worker at once; during a
/// session it ends the session with `Stopped`, which ends the worker. Either
/// way the worker is then `Stopped`, its connection flag is down, it returns
/// without an error, no attempt was counted, and by
/// `lemma_ended_worker_is_final` it asks for no further handshake.
pub proof fn lemma_stop_ends_worker(worker: WorkerLoop)
    requires
        worker.phase == WorkerPhase::Connecting || worker.phase == WorkerPhase::Backoff
            || worker.phase == WorkerPhase::Active,
    ensures
        ({
            let event = if worker.phase == WorkerPhase::Active {
                WorkerEvent::SessionEnded(SessionOutcome::Stopped)
            } else {
                WorkerEvent::Control(ControlMessage::Stop)
            };
            let (after, answer) = worker.spec_step(event);
            &&& after.phase == WorkerPhase::Stopped
            &&& !after.connected
            &&& after.reconnect_count == worker.reconnect_count
            &&& after.spec_result() == Some(Ok::<(), WebsocketError>(()))
            &&& answer.next == NextOp::Exit
        }),
{
}

/// `Reconnect` while no session runs changes nothing and is no error. During
/// the wait between attempts the wait goes on, and the handshake that follows
/// it is the same with and without the command; before a handshake the
/// handshake goes ahead.
pub proof fn lemma_reconnect_during_backoff(worker: WorkerLoop)
    requires
        worker.phase == WorkerPhase::Backoff,
    ensures
        worker.spec_step(WorkerEvent::Control(ControlMessage::Reconnect)) == (
            worker,
            WorkerLoop::ignored(),
        ),
        spec_steps(
            worker,
            seq![WorkerEvent::Control(ControlMessage::Reconnect), WorkerEvent::BackoffElapsed],
        ).0 == worker.spec_step(WorkerEvent::BackoffElapsed).0,
        worker.spec_step(WorkerEvent::BackoffElapsed).1.next == NextOp::Connect,
        worker.spec_step(WorkerEvent::BackoffElapsed).0.phase == WorkerPhase::Connecting,
{
    let events = seq![
        WorkerEvent::Control(ControlMessage::Reconnect),
        WorkerEvent::BackoffElapsed,
    ];
    reveal_with_fuel(spec_steps, 3);
    let rest = events.drop_first();
    assert(rest[0] == WorkerEvent::BackoffElapsed);
    assert(rest.drop_first().len() == 0);
}

/// `Reconnect` before a handshake changes nothing: the handshake goes ahead.
pub proof fn lemma_reconnect_while_connecting(worker: WorkerLoop)
    requires
        worker.phase == WorkerPhase::Connecting,
    ensures
        worker.spec_step(WorkerEvent::Control(ControlMessage::Reconnect)) == (
            worker,
            WorkerLoop::ignored(),
        ),
{
}

/// What is announced follows what happened to the connection. A connection
/// that comes up is announced as connected, and nothing else is; a connection
/// that goes down is announced as disconnected; and an announced
/// disconnection promises a retry exactly when the worker goes on to wait for
/// one.
pub proof fn lemma_announcements_follow_transitions(worker: WorkerLoop, event: WorkerEvent)
    requires
        worker.wf(),
    ensures
        ({
            let (after, answer) = worker.spec_step(event);
            &&& (!worker.connected && after.connected) <==> answer.notify == Some(
                connection_update(true, false),
            )
            &&& (worker.connected && !after.connected) ==> answer.notify == Some(
                connection_update(false, after.phase == WorkerPhase::Backoff),
            )
            &&& answer.notify matches Some(
                WebsocketMessage::WebsocketConnectionUpdate { connected, reconnect },
            ) ==> (reconnect <==> after.phase == WorkerPhase::Backoff)
            &&& answer.notify matches Some(message) ==> message
                is WebsocketConnectionUpdate
        }),
{
}

/// After a lost connection the worker waits `interval` times the number of
/// the attempt, capped at 60 seconds; the attempt counter goes up by one and
/// never beyond the configured limit.
pub proof fn lemma_retry_counts_and_waits(worker: WorkerLoop)
    requires
        worker.phase == WorkerPhase::Active,
        worker.will_retry(),
        worker.reconnect_count < u32::MAX,
    ensures
        ({
            let (after, answer) = worker.spec_step(
                WorkerEvent::SessionEnded(SessionOutcome::Reconnect),
            );
            &&& after.phase == WorkerPhase::Backoff
            &&& after.reconnect_count == worker.reconnect_count + 1
            &&& worker.policy.max_reconnect_attempts matches Some(limit)
                ==> after.reconnect_count <= limit
            &&& answer.next == NextOp::Wait(
                spec_backoff_delay(worker.policy.reconnect_interval, after.reconnect_count),
            )
            &&& answer.notify == Some(connection_update(false, true))
        }),
{
}

/// Where reconnecting is switched off, or the limit of attempts is reached,
/// a lost connection ends the worker: it announces the disconnection without
/// a retry and asks for no further handshake.
pub proof fn lemma_no_retry_ends_worker(worker: WorkerLoop)
    requires
        worker.phase == WorkerPhase::Active,
        !worker.policy.auto_reconnect || (worker.policy.max_reconnect_attempts matches Some(limit)
            && worker.reconnect_count >= limit),
    ensures
        ({
            let (after, answer) = worker.spec_step(
                WorkerEvent::SessionEnded(SessionOutcome::Reconnect),
            );
            &&& after.phase == WorkerPhase::Stopped
            &&& after.reconnect_count == worker.reconnect_count
            &&& answer.next == NextOp::Exit
            &&& answer.notify == Some(connection_update(false, false))
        }),
{
}

} // verus!
