//! The application's handle on the worker: whether one runs, and what each
//! operation on it comes to.
//!
//! The handle keeps no channel and no task of its own. The caller creates
//! them when an operation here says so, and reports back how a send went.

use vstd::prelude::*;
use crate::config::{TLSConfig, WebSocketConfig};
use crate::time::{Span, NANOS_PER_SEC};
use crate::ws::error::{WebsocketError, WebsocketResult};
use crate::ws::worker::{ControlMessage, WorkerLoop};

verus! {

/// How long `stop_background` waits for the worker to end, in seconds.
pub const STOP_GRACE_SECS: u64 = 5;

/// What the caller has to do to stop the worker.
#[derive(Debug, Clone, Copy, PartialEq, Eq, Structural)]
pub struct StopPlan {
    /// Whether to send `Stop` on the control channel.
    pub send_stop: bool,
    /// How long to wait for the worker to end, if one was started in the background.
    pub wait: Option<Span>,
}

/// The client of the event feed.
#[derive(Debug, Clone)]
pub struct WebSocketClient {
    /// The configuration of the connection.
    pub config: WebSocketConfig,
    /// The TLS configuration, if any.
    pub tls_config: Option<TLSConfig>,
    /// Whether the application has set a callback.
    pub has_callback: bool,
    /// Whether a control channel to a worker is open.
    pub has_control: bool,
    /// Whether a worker was started in the background and not stopped since.
    pub worker_running: bool,
}

impl WebSocketClient {
    /// A client without a callback and without a worker.
    pub fn new(config: WebSocketConfig, tls_config: Option<TLSConfig>) -> (client: Self)
        ensures
            client == (WebSocketClient {
                config,
                tls_config,
                has_callback: false,
                has_control: false,
                worker_running: false,
            }),
    {
        WebSocketClient {
            config,
            tls_config,
            has_callback: false,
            has_control: false,
            worker_running: false,
        }
    }

    /// Records that the application has set its callback. A worker that
    /// already runs keeps the callback it was started with.
    pub fn on_message(&mut self)
        ensures
            *final(self) == (WebSocketClient { has_callback: true, ..*old(self) }),
    {
        self.has_callback = true;
    }

    /// Starts a worker in the background: fails with `AlreadyConnected`
    /// where one runs, and else opens a control channel and hands out the
    /// worker to run.
    pub fn start_background(&mut self) -> (r: WebsocketResult<WorkerLoop>)
        ensures
            old(self).worker_running ==> {
                &&& r == Err::<WorkerLoop, WebsocketError>(WebsocketError::AlreadyConnected)
                &&& *final(self) == *old(self)
            },
            !old(self).worker_running ==> {
                &&& r == Ok::<WorkerLoop, WebsocketError>(WorkerLoop::spec_new(old(self).config))
                &&& *final(self) == (WebSocketClient {
                    has_control: true,
                    worker_running: true,
                    ..*old(self)
                })
            },
    {
        if self.worker_running {
            return Err(WebsocketError::AlreadyConnected);
        }
        self.has_control = true;
        self.worker_running = true;
        Ok(WorkerLoop::new(&self.config))
    }

    /// Starts a worker that the caller runs itself: opens a control channel
    /// and hands out the worker.
    pub fn start_blocking(&mut self) -> (worker: WorkerLoop)
        ensures
            worker == WorkerLoop::spec_new(old(self).config),
            *final(self) == (WebSocketClient { has_control: true, ..*old(self) }),
    {
        self.has_control = true;
        WorkerLoop::new(&self.config)
    }

    /// What stopping asks of the caller: `Stop` is sent where a control
    /// channel is open, and a worker in the background is waited for, for
    /// five seconds at most.
    pub open spec fn stop_plan(self) -> StopPlan {
        StopPlan {
            send_stop: self.has_control,
            wait: if self.worker_running {
                Some(Span { nanos: (STOP_GRACE_SECS * NANOS_PER_SEC) as u128 })
            } else {
                None
            },
        }
    }

    /// The client after it was stopped: it has neither channel nor worker.
    pub open spec fn after_stop(self) -> WebSocketClient {
        WebSocketClient { has_control: false, worker_running: false, ..self }
    }

    /// Whether the connection is up, given the flag that the worker keeps:
    /// only a client with an open control channel is connected.
    pub open spec fn spec_is_connected(self, worker_connected: bool) -> bool {
        self.has_control && worker_connected
    }

    /// What asking for a new connection comes to.
    pub open spec fn spec_reconnect(self) -> WebsocketResult<ControlMessage> {
        if self.has_control {
            Ok(ControlMessage::Reconnect)
        } else {
            Err(WebsocketError::NotConnected)
        }
    }

    /// Stops the worker: `Stop` is sent where a control channel is open, a
    /// worker in the background is waited for, for five seconds at most, and
    /// then the client has neither.
    pub fn stop_background(&mut self) -> (plan: StopPlan)
        ensures
            plan == old(self).stop_plan(),
            *final(self) == old(self).after_stop(),
    {
        let plan = StopPlan {
            send_stop: self.has_control,
            wait: if self.worker_running {
                Some(Span::from_secs(STOP_GRACE_SECS))
            } else {
                None
            },
        };
        self.has_control = false;
        self.worker_running = false;
        plan
    }

    /// Whether the connection is up, given the flag that the worker keeps. A
    /// client that was never started, or was stopped, is not connected
    /// whatever a worker that is still winding down reports.
    pub fn is_connected(&self, worker_connected: bool) -> (connected: bool)
        ensures
            connected == self.spec_is_connected(worker_connected),
    {
        self.has_control && worker_connected
    }

    /// Asks for a new connection: the command to send where a control
    /// channel is open, and `NotConnected` where none is.
    pub fn reconnect(&self) -> (r: WebsocketResult<ControlMessage>)
        ensures
            r == self.spec_reconnect(),
    {
        if self.has_control {
            Ok(ControlMessage::Reconnect)
        } else {
            Err(WebsocketError::NotConnected)
        }
    }

    /// What sending a command came to: a command that the channel did not
    /// take is a `ChannelError`.
    pub fn command_sent(delivered: bool) -> (r: WebsocketResult<()>)
        ensures
            r == if delivered {
                Ok::<(), WebsocketError>(())
            } else {
                Err(WebsocketError::ChannelError)
            },
    {
        if delivered {
            Ok(())
        } else {
            Err(WebsocketError::ChannelError)
        }
    }
}

/// Stopping settles the client whatever state it was in: never started, with
/// a worker in the background, or with one that the caller runs. `Stop` is
/// sent exactly where a control channel was open, the wait is there exactly
/// for a worker in the background and is five seconds, and afterwards the
/// client has neither channel nor worker, reports no connection whatever the
/// worker's flag says, and answers a request to reconnect with `NotConnected`.
pub proof fn lemma_stop_background_settles(client: WebSocketClient, worker_connected: bool)
    ensures
        client.stop_plan().send_stop == client.has_control,
        client.stop_plan().wait is Some == client.worker_running,
        client.stop_plan().wait matches Some(grace) ==> grace.nanos == 5 * NANOS_PER_SEC,
        !client.after_stop().has_control,
        !client.after_stop().worker_running,
        !client.after_stop().spec_is_connected(worker_connected),
        client.after_stop().spec_reconnect() == Err::<ControlMessage, WebsocketError>(
            WebsocketError::NotConnected,
        ),
        client.after_stop().after_stop() == client.after_stop(),
        client.after_stop().stop_plan() == (StopPlan { send_stop: false, wait: None }),
{
}

} // verus!
