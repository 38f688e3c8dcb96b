use vstd::prelude::*;

verus! {

/// Connection state of one session.
#[derive(Clone, Copy, Debug, PartialEq, Eq, Structural)]
pub enum SessionState {
    /// Allocated, no connection attempt begun yet (before `start`).
    Unconnected,
    /// An asynchronous connection attempt is under way.
    Connecting,
    /// The transport is up and a logon was sent; its answer is pending.
    LoggingOn,
    /// The authentication handshake completed; the session is live.
    LoggedOn,
    /// A logout was sent during a graceful stop; its answer is pending.
    LoggingOff,
    /// The transport is down; the reconnect timer decides the next attempt.
    Disconnected,
}

/// Whether a session holds no bound network resource in this state.
pub open spec fn spec_inactive(s: SessionState) -> bool {
    s is Unconnected || s is Disconnected
}

/// What the runtime host reports back about one session.  Message events
/// carry an opaque handle chosen by the host.
#[derive(Clone, Copy, Debug, PartialEq, Eq, Structural)]
pub enum SessionEvent {
    /// The outbound connection attempt completed.
    ConnectSucceeded,
    /// The outbound connection attempt failed.
    ConnectFailed,
    /// The counterparty accepted the logon.
    LogonAccepted,
    /// The counterparty rejected the logon.
    LogonRejected,
    /// An administrative message arrived.
    AdminMessageIn(u64),
    /// A business message arrived.
    AppMessageIn(u64),
    /// The counterparty acknowledged a logout.
    LogoutAcknowledged,
    /// The transport dropped without a handshake.
    PeerDisconnected,
}

/// What the runtime host must do next for one session.
#[derive(Clone, Copy, Debug, PartialEq, Eq, Structural)]
pub enum SessionAction {
    /// Nothing to do.
    Idle,
    /// Begin an asynchronous connection attempt.
    OpenConnection,
    /// Send the logon message.
    SendLogon,
    /// Send a keepalive heartbeat.
    SendHeartbeat,
    /// Send the logout message.
    SendLogout,
    /// Close the transport and release its resources.
    CloseConnection,
}

/// One managed session: its state machine plus its two timers, both measured
/// in dispatch iterations (one `poll` call is one tick).
#[derive(Clone, Copy, Debug, PartialEq, Eq, Structural)]
pub struct Session {
    pub state: SessionState,
    /// Ticks a disconnected session waits before retrying (from settings).
    pub reconnect_interval: u64,
    /// Ticks between heartbeats while logged on (from settings).
    pub heartbeat_interval: u64,
    /// Countdown to the next connection attempt; meaningful in
    /// `Disconnected`.
    pub ticks_until_retry: u64,
    /// Countdown to the next heartbeat; meaningful in `LoggedOn`.
    pub ticks_until_heartbeat: u64,
}

/// The session after losing (or giving up) its connection: the reconnect
/// timer is re-armed from the configured interval.
pub open spec fn spec_disconnected(s: Session) -> Session {
    Session { state: SessionState::Disconnected, ticks_until_retry: s.reconnect_interval, ..s }
}

/// The per-session state machine: the session after the host reported
/// `e`.  Events that make no sense in the current state are ignored; in
/// particular a session that holds no connection ignores everything, so a
/// stale in-flight event cannot disturb a session that was already torn
/// down.
pub open spec fn spec_after_event(s: Session, e: SessionEvent) -> Session {
    match s.state {
        SessionState::Connecting => match e {
            SessionEvent::ConnectSucceeded => Session { state: SessionState::LoggingOn, ..s },
            SessionEvent::ConnectFailed => spec_disconnected(s),
            _ => s,
        },
        SessionState::LoggingOn => match e {
            SessionEvent::LogonAccepted => Session {
                state: SessionState::LoggedOn,
                ticks_until_heartbeat: s.heartbeat_interval,
                ..s
            },
            SessionEvent::LogonRejected => spec_disconnected(s),
            SessionEvent::PeerDisconnected => spec_disconnected(s),
            _ => s,
        },
        SessionState::LoggedOn => match e {
            SessionEvent::LogoutAcknowledged => spec_disconnected(s),
            SessionEvent::PeerDisconnected => spec_disconnected(s),
            _ => s,
        },
        SessionState::LoggingOff => match e {
            SessionEvent::LogoutAcknowledged => spec_disconnected(s),
            SessionEvent::PeerDisconnected => spec_disconnected(s),
            _ => s,
        },
        _ => s,
    }
}

/// The instruction the host gets back for event `e`: a logon after a
/// successful connect, and a close wherever this side decides to drop a
/// transport that the peer still considers open.
pub open spec fn spec_event_action(s: Session, e: SessionEvent) -> SessionAction {
    match s.state {
        SessionState::Connecting => match e {
            SessionEvent::ConnectSucceeded => SessionAction::SendLogon,
            _ => SessionAction::Idle,
        },
        SessionState::LoggingOn => match e {
            SessionEvent::LogonRejected => SessionAction::CloseConnection,
            _ => SessionAction::Idle,
        },
        SessionState::LoggedOn => match e {
            SessionEvent::LogoutAcknowledged => SessionAction::CloseConnection,
            _ => SessionAction::Idle,
        },
        SessionState::LoggingOff => match e {
            SessionEvent::LogoutAcknowledged => SessionAction::CloseConnection,
            _ => SessionAction::Idle,
        },
        _ => SessionAction::Idle,
    }
}

/// One timer tick while the initiator is `Running`: a disconnected session
/// counts down to its next connection attempt, a logged-on session counts
/// down to its next heartbeat, every other state is left alone.
pub open spec fn spec_poll_running(s: Session) -> Session {
    if s.state is Disconnected {
        if s.ticks_until_retry == 0 {
            Session { state: SessionState::Connecting, ..s }
        } else {
            Session { ticks_until_retry: (s.ticks_until_retry - 1) as u64, ..s }
        }
    } else if s.state is LoggedOn {
        if s.ticks_until_heartbeat == 0 {
            Session { ticks_until_heartbeat: s.heartbeat_interval, ..s }
        } else {
            Session { ticks_until_heartbeat: (s.ticks_until_heartbeat - 1) as u64, ..s }
        }
    } else {
        s
    }
}

/// The instruction that goes with [`spec_poll_running`]: open a connection
/// when the retry timer fires, send a heartbeat when the keepalive timer
/// fires.
pub open spec fn spec_poll_running_action(s: Session) -> SessionAction {
    if s.state is Disconnected && s.ticks_until_retry == 0 {
        SessionAction::OpenConnection
    } else if s.state is LoggedOn && s.ticks_until_heartbeat == 0 {
        SessionAction::SendHeartbeat
    } else {
        SessionAction::Idle
    }
}

/// Forced teardown of one session, used when the stop grace period expires
/// and on disposal: whatever still holds a connection is disconnected.
pub open spec fn spec_force_stop(s: Session) -> Session {
    if spec_inactive(s.state) {
        s
    } else {
        spec_disconnected(s)
    }
}

/// The instruction that goes with [`spec_force_stop`].
pub open spec fn spec_force_stop_action(s: Session) -> SessionAction {
    if spec_inactive(s.state) {
        SessionAction::Idle
    } else {
        SessionAction::CloseConnection
    }
}

/// A graceful stop request reaching one session: a logged-on session is
/// asked to log out and waits for the acknowledgment; a session still in
/// its handshake is dropped at once; an inactive session is left alone.
pub open spec fn spec_after_stop(s: Session) -> Session {
    match s.state {
        SessionState::LoggedOn => Session { state: SessionState::LoggingOff, ..s },
        SessionState::Connecting => spec_disconnected(s),
        SessionState::LoggingOn => spec_disconnected(s),
        _ => s,
    }
}

/// The instruction that goes with [`spec_after_stop`].
pub open spec fn spec_after_stop_action(s: Session) -> SessionAction {
    match s.state {
        SessionState::LoggedOn => SessionAction::SendLogout,
        SessionState::Connecting => SessionAction::CloseConnection,
        SessionState::LoggingOn => SessionAction::CloseConnection,
        _ => SessionAction::Idle,
    }
}

impl Session {
    /// A fresh session for one settings block: unconnected, both timers
    /// armed from the configured intervals.
    pub fn new(reconnect_interval: u64, heartbeat_interval: u64) -> (r: Session)
        ensures
            r.state is Unconnected,
            r.reconnect_interval == reconnect_interval,
            r.heartbeat_interval == heartbeat_interval,
            r.ticks_until_retry == reconnect_interval,
            r.ticks_until_heartbeat == heartbeat_interval,
    {
        Session {
            state: SessionState::Unconnected,
            reconnect_interval,
            heartbeat_interval,
            ticks_until_retry: reconnect_interval,
            ticks_until_heartbeat: heartbeat_interval,
        }
    }

    /// Executable counterpart of [`spec_after_event`].
    pub fn after_event(self, e: SessionEvent) -> (r: Session)
        ensures
            r == spec_after_event(self, e),
    {
        match self.state {
            SessionState::Connecting => match e {
                SessionEvent::ConnectSucceeded => Session {
                    state: SessionState::LoggingOn,
                    ..self
                },
                SessionEvent::ConnectFailed => self.disconnected(),
                _ => self,
            },
            SessionState::LoggingOn => match e {
                SessionEvent::LogonAccepted => Session {
                    state: SessionState::LoggedOn,
                    ticks_until_heartbeat: self.heartbeat_interval,
                    ..self
                },
                SessionEvent::LogonRejected => self.disconnected(),
                SessionEvent::PeerDisconnected => self.disconnected(),
                _ => self,
            },
            SessionState::LoggedOn => match e {
                SessionEvent::LogoutAcknowledged => self.disconnected(),
                SessionEvent::PeerDisconnected => self.disconnected(),
                _ => self,
            },
            SessionState::LoggingOff => match e {
                SessionEvent::LogoutAcknowledged => self.disconnected(),
                SessionEvent::PeerDisconnected => self.disconnected(),
                _ => self,
            },
            _ => self,
        }
    }

    /// Executable counterpart of [`spec_event_action`].
    pub fn event_action(self, e: SessionEvent) -> (r: SessionAction)
        ensures
            r == spec_event_action(self, e),
    {
        match (self.state, e) {
            (SessionState::Connecting, SessionEvent::ConnectSucceeded) => SessionAction::SendLogon,
            (SessionState::LoggingOn, SessionEvent::LogonRejected) => SessionAction::CloseConnection,
            (SessionState::LoggedOn, SessionEvent::LogoutAcknowledged) => SessionAction::CloseConnection,
            (SessionState::LoggingOff, SessionEvent::LogoutAcknowledged) => SessionAction::CloseConnection,
            _ => SessionAction::Idle,
        }
    }

    fn disconnected(self) -> (r: Session)
        ensures
            r == spec_disconnected(self),
    {
        Session {
            state: SessionState::Disconnected,
            ticks_until_retry: self.reconnect_interval,
            ..self
        }
    }
}

} // verus!
