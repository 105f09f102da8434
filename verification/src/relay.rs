//! The forwarding rules of one relay session.
//!
//! A session owns two bound sockets, one per side. The sockets, the clock and
//! the waiting belong to the caller; this module decides. The caller reports
//! each thing that happened as an [`Event`] to [`relaying`], which updates the
//! session and answers with the [`Action`] to perform next.

use crate::endpoint::Endpoint;
use vstd::prelude::*;
use vstd::slice::slice_subrange;

verus! {

/// Nanoseconds in one second. All times of this module are in nanoseconds
/// on a monotonic clock of the caller's choice.
pub const NANOS_PER_SEC: u64 = 1_000_000_000;

/// Time between two checks of the watchdog.
pub const CHECK_INTERVAL: u64 = 30 * 60 * NANOS_PER_SEC;

/// Longest wait for a datagram before the loop looks at the exit flag again.
pub const SELECT_TIMEOUT: u64 = 30 * 60 * NANOS_PER_SEC;

/// Idle time beyond which the watchdog asks the session to end.
pub const MAX_INACTIVITY: u64 = 30 * 60 * NANOS_PER_SEC;

/// Largest payload that is forwarded; a longer datagram is cut to this length.
pub const BUFFER_SIZE: usize = 2048;

/// One side of a session: a relay port and the peer expected behind it.
#[derive(Clone, Copy, Debug, PartialEq, Eq)]
pub struct RelayEntity {
    /// The local port that the relay binds for this side.
    pub port: u16,
    /// The endpoint configured for this side when the session was created.
    pub peer_addr: Endpoint,
}

/// The two sides of a session.
#[derive(Clone, Copy, Debug, PartialEq, Eq)]
pub enum Side {
    /// The side of the first entity.
    A,
    /// The side of the second entity.
    B,
}

impl Side {
    /// The other side.
    pub open spec fn spec_opposite(self) -> Side {
        match self {
            Side::A => Side::B,
            Side::B => Side::A,
        }
    }

    /// The other side.
    #[verifier::when_used_as_spec(spec_opposite)]
    pub fn opposite(self) -> (other: Side)
        ensures
            other == self.spec_opposite(),
    {
        match self {
            Side::A => Side::B,
            Side::B => Side::A,
        }
    }
}

/// What happened since the last call of [`relaying`].
#[derive(Clone, Copy, Debug, PartialEq, Eq)]
pub enum Event<'a> {
    /// The forwarding loop stands at the start of a wait cycle: the session
    /// has just started, or a datagram has just been sent on.
    CycleStart,
    /// A datagram arrived on the socket of `side`.
    Datagram {
        /// The side whose socket received it.
        side: Side,
        /// The address it came from.
        source: Endpoint,
        /// Its bytes, as many as were received.
        payload: &'a [u8],
        /// The time of arrival.
        now: u64,
    },
    /// The bounded wait ended and no datagram had arrived.
    WaitTimedOut,
    /// A send or a receive failed on either socket.
    TransportError,
    /// The watchdog woke up.
    WatchdogTick {
        /// The time of the check.
        now: u64,
    },
}

/// The message that a session leaves behind when it ends: its two ports.
///
/// A value of this type is made only by [`relaying`], in the step that ends
/// the session, and it cannot be copied.
#[derive(Debug, PartialEq, Eq)]
pub struct CompletionSignal {
    port_a: u16,
    port_b: u16,
}

impl View for CompletionSignal {
    type V = (u16, u16);

    closed spec fn view(&self) -> (u16, u16) {
        (self.port_a, self.port_b)
    }
}

impl CompletionSignal {
    /// The two ports of the session that ended.
    pub fn ports(&self) -> (ports: (u16, u16))
        ensures
            ports == self@,
    {
        (self.port_a, self.port_b)
    }
}

/// What the caller is to do next.
#[derive(Debug, PartialEq, Eq)]
pub enum Action<'a> {
    /// Wait for a datagram on either socket, for at most [`SELECT_TIMEOUT`].
    Wait,
    /// Send `payload` from the socket of side `via` to `target`.
    Forward {
        /// The side whose socket sends.
        via: Side,
        /// Where to send.
        target: Endpoint,
        /// The bytes to send.
        payload: &'a [u8],
    },
    /// The session has ended: deliver the signal and close both sockets.
    Complete(CompletionSignal),
    /// Watchdog only: sleep for [`CHECK_INTERVAL`], then check again.
    Sleep,
    /// Nothing is left to do for the task that reported the event.
    Stop,
}

/// An [`Action`] as a mathematical value: the same five cases, with the
/// payload as a sequence of bytes and the signal as its two ports.
pub enum Effect {
    /// [`Action::Wait`].
    Wait,
    /// [`Action::Forward`] of these bytes.
    Forward { via: Side, target: Endpoint, payload: Seq<u8> },
    /// [`Action::Complete`] with the signal for these two ports.
    Complete { port_a: u16, port_b: u16 },
    /// [`Action::Sleep`].
    Sleep,
    /// [`Action::Stop`].
    Stop,
}

impl<'a> View for Action<'a> {
    type V = Effect;

    open spec fn view(&self) -> Effect {
        match *self {
            Action::Wait => Effect::Wait,
            Action::Forward { via, target, payload } => Effect::Forward {
                via,
                target,
                payload: payload@,
            },
            Action::Complete(signal) => Effect::Complete { port_a: signal@.0, port_b: signal@.1 },
            Action::Sleep => Effect::Sleep,
            Action::Stop => Effect::Stop,
        }
    }
}

/// The bytes of a datagram that are sent on: all of them, or the first
/// [`BUFFER_SIZE`] of a longer one.
pub open spec fn truncated(datagram: Seq<u8>) -> Seq<u8> {
    if datagram.len() > BUFFER_SIZE {
        datagram.take(BUFFER_SIZE as int)
    } else {
        datagram
    }
}

/// Everything a session knows, as plain values.
#[derive(Clone, Copy, Debug, PartialEq, Eq)]
pub struct SessionState {
    /// Side A as it was configured.
    pub entity_a: RelayEntity,
    /// Side B as it was configured.
    pub entity_b: RelayEntity,
    /// Source of the latest datagram received on side A, or the configured
    /// endpoint while there was none.
    pub last_known_a: Endpoint,
    /// The same for side B.
    pub last_known_b: Endpoint,
    /// Time of the latest datagram from either side, or of the start.
    pub last_activity: u64,
    /// Set by the watchdog; read by the loop at the start of a wait cycle.
    pub exit_requested: bool,
    /// `true` from the start until the session ends, `false` ever after.
    pub running: bool,
}

impl SessionState {
    /// The state of a session that starts at time `now`.
    pub open spec fn started(entity_a: RelayEntity, entity_b: RelayEntity, now: u64) -> SessionState {
        SessionState {
            entity_a,
            entity_b,
            last_known_a: entity_a.peer_addr,
            last_known_b: entity_b.peer_addr,
            last_activity: now,
            exit_requested: false,
            running: true,
        }
    }

    /// The endpoint that datagrams for `side` are sent to.
    pub open spec fn last_known(self, side: Side) -> Endpoint {
        match side {
            Side::A => self.last_known_a,
            Side::B => self.last_known_b,
        }
    }

    /// The endpoint that `side` was configured with.
    pub open spec fn configured(self, side: Side) -> Endpoint {
        match side {
            Side::A => self.entity_a.peer_addr,
            Side::B => self.entity_b.peer_addr,
        }
    }

    /// This state with `source` as the last known endpoint of `side`.
    pub open spec fn rebound(self, side: Side, source: Endpoint) -> SessionState {
        match side {
            Side::A => SessionState { last_known_a: source, ..self },
            Side::B => SessionState { last_known_b: source, ..self },
        }
    }

    /// Time without traffic at time `now`; zero if `now` lies before the
    /// latest activity.
    pub open spec fn idle(self, now: u64) -> int {
        if now >= self.last_activity {
            now - self.last_activity
        } else {
            0
        }
    }

    /// Whether the session has been idle for longer than [`MAX_INACTIVITY`].
    pub open spec fn expired(self, now: u64) -> bool {
        self.idle(now) > MAX_INACTIVITY
    }

    /// The state after `event`.
    pub open spec fn next(self, event: Event) -> SessionState {
        if !self.running {
            self
        } else {
            match event {
                Event::CycleStart | Event::WaitTimedOut => SessionState {
                    running: !self.exit_requested,
                    ..self
                },
                Event::Datagram { side, source, payload, now } => SessionState {
                    last_activity: now,
                    ..self.rebound(side, source)
                },
                Event::TransportError => SessionState { running: false, ..self },
                Event::WatchdogTick { now } => SessionState {
                    exit_requested: self.exit_requested || self.expired(now),
                    ..self
                },
            }
        }
    }

    /// What the caller is told to do on `event`.
    pub open spec fn effect(self, event: Event) -> Effect {
        let signal = Effect::Complete { port_a: self.entity_a.port, port_b: self.entity_b.port };
        if !self.running {
            Effect::Stop
        } else {
            match event {
                Event::CycleStart | Event::WaitTimedOut => if self.exit_requested {
                    signal
                } else {
                    Effect::Wait
                },
                Event::Datagram { side, source, payload, now } => Effect::Forward {
                    via: side.opposite(),
                    target: self.last_known(side.opposite()),
                    payload: truncated(payload@),
                },
                Event::TransportError => signal,
                Event::WatchdogTick { now } => if self.exit_requested || self.expired(now) {
                    Effect::Stop
                } else {
                    Effect::Sleep
                },
            }
        }
    }
}

/// A relay session, from the moment both of its sockets are bound.
pub struct RelaySession {
    state: SessionState,
}

impl View for RelaySession {
    type V = SessionState;

    closed spec fn view(&self) -> SessionState {
        self.state
    }
}

impl RelaySession {
    /// A running session between the two entities, started at time `now`.
    /// Each side's forwarding target is the endpoint it was configured with.
    pub fn start(entity_a: RelayEntity, entity_b: RelayEntity, now: u64) -> (session: RelaySession)
        ensures
            session@ == SessionState::started(entity_a, entity_b, now),
    {
        RelaySession {
            state: SessionState {
                entity_a,
                entity_b,
                last_known_a: entity_a.peer_addr,
                last_known_b: entity_b.peer_addr,
                last_activity: now,
                exit_requested: false,
                running: true,
            },
        }
    }

    /// A copy of what the session knows.
    pub fn state(&self) -> (state: SessionState)
        ensures
            state == self@,
    {
        self.state
    }
}

/// One step of a session: takes note of `event` and says what to do next.
///
/// While the session runs:
/// - at the start of a wait cycle, and when a wait timed out, the session ends
///   if the watchdog has asked for it, and waits otherwise;
/// - a datagram from one side is sent on to the last known endpoint of the
///   other side, cut to [`BUFFER_SIZE`] bytes and otherwise untouched; its
///   source becomes the last known endpoint of its own side, whatever it is,
///   and its time the time of the latest activity;
/// - a transport error ends the session;
/// - a watchdog tick asks the session to end if it has been idle for more
///   than [`MAX_INACTIVITY`].
///
/// The step that ends the session answers with its one completion signal.
/// Every later step answers [`Action::Stop`] and changes nothing.
pub fn relaying<'a>(session: &mut RelaySession, event: Event<'a>) -> (action: Action<'a>)
    ensures
        final(session)@ == old(session)@.next(event),
        action@ == old(session)@.effect(event),
        event matches Event::Datagram { side, payload, .. } ==> (old(session)@.running
            && payload@.len() <= BUFFER_SIZE ==> action@ == (Effect::Forward {
            via: side.opposite(),
            target: old(session)@.last_known(side.opposite()),
            payload: payload@,
        })),
{
    if !session.state.running {
        return Action::Stop;
    }
    match event {
        Event::CycleStart | Event::WaitTimedOut => {
            if session.state.exit_requested {
                session.state.running = false;
                Action::Complete(
                    CompletionSignal {
                        port_a: session.state.entity_a.port,
                        port_b: session.state.entity_b.port,
                    },
                )
            } else {
                Action::Wait
            }
        },
        Event::Datagram { side, source, payload, now } => {
            let len: usize = if payload.len() > BUFFER_SIZE {
                BUFFER_SIZE
            } else {
                payload.len()
            };
            let bytes = slice_subrange(payload, 0, len);
            assert(bytes@ =~= truncated(payload@));
            let target = match side {
                Side::A => session.state.last_known_b,
                Side::B => session.state.last_known_a,
            };
            match side {
                Side::A => {
                    session.state.last_known_a = source;
                },
                Side::B => {
                    session.state.last_known_b = source;
                },
            }
            session.state.last_activity = now;
            Action::Forward { via: side.opposite(), target, payload: bytes }
        },
        Event::TransportError => {
            session.state.running = false;
            Action::Complete(
                CompletionSignal {
                    port_a: session.state.entity_a.port,
                    port_b: session.state.entity_b.port,
                },
            )
        },
        Event::WatchdogTick { now } => {
            if session.state.exit_requested {
                Action::Stop
            } else if now >= session.state.last_activity && now - session.state.last_activity
                > MAX_INACTIVITY {
                session.state.exit_requested = true;
                Action::Stop
            } else {
                Action::Sleep
            }
        },
    }
}

} // verus!
