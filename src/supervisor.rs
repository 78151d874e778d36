//! The reconnect supervisor's decisions: it owns the connection lifecycle,
//! retries after a fixed delay without limit and never reaches a terminal
//! state. When nobody reads the records of a connection, only the forwarding
//! for that connection ends. The task that runs it performs each command and
//! reports the outcome as the next event.

use crate::handler::AppEvent;
use crate::record::Transaction;
use vstd::prelude::*;
use vstd::string::*;

verus! {

/// Where the connection lifecycle stands.
#[derive(Debug, Clone, Copy, PartialEq, Eq, Structural)]
pub enum SupervisorState {
    Idle,
    Connecting,
    Subscribing,
    Streaming,
    Waiting,
}

/// What the running task observed.
#[derive(Debug)]
pub enum SupervisorEvent {
    Start,
    ConnectSucceeded,
    ConnectFailed(String),
    SubscribeSucceeded,
    SubscribeFailed(String),
    StreamEnded,
    DownstreamClosed,
    DelayElapsed,
}

/// What the running task must do next.
#[derive(Debug, Clone, Copy, PartialEq, Eq, Structural)]
pub enum Command {
    Connect,
    Subscribe,
    /// Forward every record of the stream until it ends or the receiver is gone.
    Forward,
    Wait(u64),
    Nothing,
}

/// What the supervisor reports to the event loop on a step.
pub enum Notice {
    Silent,
    Connected,
    Disconnected(Seq<char>),
}

/// The supervisor's next state.
pub open spec fn next_state(s: SupervisorState, e: SupervisorEvent) -> SupervisorState {
    match (s, e) {
        (SupervisorState::Idle, SupervisorEvent::Start) => SupervisorState::Connecting,
        (SupervisorState::Connecting, SupervisorEvent::ConnectSucceeded) => SupervisorState::Subscribing,
        (SupervisorState::Connecting, SupervisorEvent::ConnectFailed(_)) => SupervisorState::Waiting,
        (SupervisorState::Subscribing, SupervisorEvent::SubscribeSucceeded) => SupervisorState::Streaming,
        (SupervisorState::Subscribing, SupervisorEvent::SubscribeFailed(_)) => SupervisorState::Waiting,
        (SupervisorState::Streaming, SupervisorEvent::StreamEnded) => SupervisorState::Waiting,
        (SupervisorState::Streaming, SupervisorEvent::DownstreamClosed) => SupervisorState::Waiting,
        (SupervisorState::Waiting, SupervisorEvent::DelayElapsed) => SupervisorState::Connecting,
        _ => s,
    }
}

/// The command for the next state; an event that does not fit the state
/// asks for nothing.
pub open spec fn next_command(s: SupervisorState, e: SupervisorEvent, delay_ms: u64) -> Command {
    let n = next_state(s, e);
    if n == s {
        Command::Nothing
    } else {
        match n {
            SupervisorState::Connecting => Command::Connect,
            SupervisorState::Subscribing => Command::Subscribe,
            SupervisorState::Streaming => Command::Forward,
            SupervisorState::Waiting => Command::Wait(delay_ms),
            SupervisorState::Idle => Command::Nothing,
        }
    }
}

/// What a step reports: a connection is reported as connected; a failed
/// connect, a failed subscription and an ended stream as disconnected,
/// with the reason.
pub open spec fn next_notice(s: SupervisorState, e: SupervisorEvent) -> Notice {
    match (s, e) {
        (SupervisorState::Connecting, SupervisorEvent::ConnectSucceeded) => Notice::Connected,
        (SupervisorState::Connecting, SupervisorEvent::ConnectFailed(m)) => Notice::Disconnected(
            "Connection error: "@ + m@,
        ),
        (SupervisorState::Subscribing, SupervisorEvent::SubscribeFailed(m)) => Notice::Disconnected(
            "Subscription error: "@ + m@,
        ),
        (SupervisorState::Streaming, SupervisorEvent::StreamEnded) => Notice::Disconnected(
            "Stream ended"@,
        ),
        _ => Notice::Silent,
    }
}

/// The event handed to the loop carries the notice.
pub open spec fn carries(emit: Option<AppEvent>, n: Notice) -> bool {
    match n {
        Notice::Silent => emit is None,
        Notice::Connected => emit matches Some(AppEvent::Connected),
        Notice::Disconnected(m) => match emit {
            Some(AppEvent::Disconnected(text)) => text@ == m,
            _ => false,
        },
    }
}

/// The supervisor: its state and its fixed retry delay.
#[derive(Debug)]
pub struct ReconnectSupervisor {
    pub state: SupervisorState,
    pub delay_ms: u64,
}

impl ReconnectSupervisor {
    /// Not yet started; retries wait `delay_ms`.
    pub fn new(delay_ms: u64) -> (r: Self)
        ensures
            r.state == SupervisorState::Idle,
            r.delay_ms == delay_ms,
    {
        ReconnectSupervisor { state: SupervisorState::Idle, delay_ms }
    }

    /// Takes one event: moves to the next state, and returns what to report
    /// and what to do.
    pub fn step(&mut self, event: SupervisorEvent) -> (r: (Option<AppEvent>, Command))
        ensures
            final(self).state == next_state(old(self).state, event),
            final(self).delay_ms == old(self).delay_ms,
            r.1 == next_command(old(self).state, event, old(self).delay_ms),
            carries(r.0, next_notice(old(self).state, event)),
    {
        let s = self.state;
        let (next, emit): (SupervisorState, Option<AppEvent>) = match (s, event) {
            (SupervisorState::Idle, SupervisorEvent::Start) => (SupervisorState::Connecting, None),
            (SupervisorState::Connecting, SupervisorEvent::ConnectSucceeded) => (
                SupervisorState::Subscribing,
                Some(AppEvent::Connected),
            ),
            (SupervisorState::Connecting, SupervisorEvent::ConnectFailed(m)) => {
                let text = String::from_str("Connection error: ").concat(m.as_str());
                (SupervisorState::Waiting, Some(AppEvent::Disconnected(text)))
            },
            (SupervisorState::Subscribing, SupervisorEvent::SubscribeSucceeded) => (
                SupervisorState::Streaming,
                None,
            ),
            (SupervisorState::Subscribing, SupervisorEvent::SubscribeFailed(m)) => {
                let text = String::from_str("Subscription error: ").concat(m.as_str());
                (SupervisorState::Waiting, Some(AppEvent::Disconnected(text)))
            },
            (SupervisorState::Streaming, SupervisorEvent::StreamEnded) => (
                SupervisorState::Waiting,
                Some(AppEvent::Disconnected(String::from_str("Stream ended"))),
            ),
            (SupervisorState::Streaming, SupervisorEvent::DownstreamClosed) => (
                SupervisorState::Waiting,
                None,
            ),
            (SupervisorState::Waiting, SupervisorEvent::DelayElapsed) => (
                SupervisorState::Connecting,
                None,
            ),
            _ => (s, None),
        };
        self.state = next;
        let command = if next == s {
            Command::Nothing
        } else {
            match next {
                SupervisorState::Connecting => Command::Connect,
                SupervisorState::Subscribing => Command::Subscribe,
                SupervisorState::Streaming => Command::Forward,
                SupervisorState::Waiting => Command::Wait(self.delay_ms),
                SupervisorState::Idle => Command::Nothing,
            }
        };
        (emit, command)
    }
}

/// The supervisor never gives up: once started it never returns to idle;
/// a failed connect, a failed subscription, an ended stream or a receiver
/// that is gone all lead to a wait of the fixed delay, the failures
/// reporting a disconnection; after the wait it connects again.
pub proof fn lemma_retries_without_end(s: SupervisorState, e: SupervisorEvent, delay_ms: u64)
    ensures
        s != SupervisorState::Idle ==> next_state(s, e) != SupervisorState::Idle,
        next_state(s, e) == SupervisorState::Waiting && s != SupervisorState::Waiting ==> {
            &&& next_command(s, e, delay_ms) == Command::Wait(delay_ms)
            &&& (e is DownstreamClosed || next_notice(s, e) is Disconnected)
        },
        s == SupervisorState::Streaming && e is DownstreamClosed ==> next_state(s, e)
            == SupervisorState::Waiting,
        next_state(SupervisorState::Waiting, SupervisorEvent::DelayElapsed)
            == SupervisorState::Connecting,
        next_command(SupervisorState::Waiting, SupervisorEvent::DelayElapsed, delay_ms)
            == Command::Connect,
{
}

/// What a one-shot lookup by hash came to.
#[derive(Debug)]
pub enum LookupOutcome {
    ConnectFailed(String),
    Found(Transaction),
    NotFound,
    FetchFailed(String),
}

/// The event a finished lookup of `hash` hands to the loop.
pub fn lookup_event(hash: String, outcome: LookupOutcome) -> (r: AppEvent)
    ensures
        match outcome {
            LookupOutcome::Found(tx) => r == AppEvent::TransactionFetched(tx),
            LookupOutcome::NotFound => r == AppEvent::TransactionNotFound(hash),
            LookupOutcome::ConnectFailed(m) => match r {
                AppEvent::Disconnected(text) => text@ == "Connection error: "@ + m@,
                _ => false,
            },
            LookupOutcome::FetchFailed(m) => match r {
                AppEvent::Disconnected(text) => text@ == "Failed to fetch transaction: "@ + m@,
                _ => false,
            },
        },
{
    match outcome {
        LookupOutcome::Found(tx) => AppEvent::TransactionFetched(tx),
        LookupOutcome::NotFound => AppEvent::TransactionNotFound(hash),
        LookupOutcome::ConnectFailed(m) => AppEvent::Disconnected(
            String::from_str("Connection error: ").concat(m.as_str()),
        ),
        LookupOutcome::FetchFailed(m) => AppEvent::Disconnected(
            String::from_str("Failed to fetch transaction: ").concat(m.as_str()),
        ),
    }
}

} // verus!
