use vstd::prelude::*;

use crate::callbacks::ApplicationCallback;
use crate::callbacks::LogFactory;
use crate::callbacks::MessageStoreFactory;
use crate::errors::QuickFixError;
use crate::session::spec_after_event;
use crate::session::spec_after_stop;
use crate::session::spec_after_stop_action;
use crate::session::spec_event_action;
use crate::session::spec_force_stop;
use crate::session::spec_force_stop_action;
use crate::session::spec_inactive;
use crate::session::spec_poll_running;
use crate::session::spec_poll_running_action;
use crate::session::Session;
use crate::session::SessionAction;
use crate::session::SessionEvent;
use crate::session::SessionState;
use crate::settings::SessionSettings;

verus! {

/// Ticks of the bounded grace period a graceful stop waits for logout
/// acknowledgments before force-disconnecting the remaining sessions.
pub const LOGOUT_GRACE_TICKS: u64 = 10;

/// Lifecycle state of the whole initiator.
#[derive(Clone, Copy, Debug, PartialEq, Eq, Structural)]
pub enum InitiatorState {
    /// Constructed, no connection attempt begun.
    Created,
    /// Connection attempts are under way or live.
    Running,
    /// A stop was requested; logout acknowledgments are awaited.
    Stopping,
    /// Every session is down; the terminal signal `is_stopped` holds.
    Stopped,
    /// All resources released; the instance is inert.
    Disposed,
}

/// One queued instruction for the runtime host: perform `action` for the
/// session identified by `session`.  `Idle` entries carry no work and may be
/// skipped.
#[derive(Clone, Copy, Debug, PartialEq, Eq, Structural)]
pub struct PendingAction {
    pub session: usize,
    pub action: SessionAction,
}

/// Every session of `ss` holds no bound network resource.
pub open spec fn spec_all_inactive(ss: Seq<Session>) -> bool {
    forall|i: int| 0 <= i < ss.len() ==> spec_inactive((#[trigger] ss[i]).state)
}

/// The session-connection lifecycle manager for the initiator role.
///
/// It owns the runtime state — one state machine for the whole instance and
/// one per configured session — and borrows its four collaborators for its
/// entire lifetime, so none of them can be dropped while the initiator is
/// alive.
///
/// The instance is driven cooperatively and is not reentrant: the caller
/// serializes all calls on one instance.  Network and timer work is split
/// with the host: every mutating operation appends instructions to a queue
/// that the host drains with [`SocketInitiator::take_actions`], performs,
/// and answers via [`SocketInitiator::on_session_event`].
pub struct SocketInitiator<'a, A, F, G> where
    A: ApplicationCallback,
    F: MessageStoreFactory,
    G: LogFactory,
 {
    pub application: &'a A,
    pub store_factory: &'a F,
    pub log_factory: &'a G,
    /// One message store per session, created lazily on `start`.
    pub stores: Vec<F::Store>,
    /// One audit log per session, created lazily on `start`.
    pub logs: Vec<G::Log>,
    pub state: InitiatorState,
    pub sessions: Vec<Session>,
    /// Instructions the host has not picked up yet.
    pub pending: Vec<PendingAction>,
    /// Remaining ticks of the stop grace period; meaningful in `Stopping`.
    pub grace_remaining: u64,
    /// Whether `stop` (or `dispose`) was ever called on this instance.
    pub stop_requested: bool,
    /// Whether the host reported an initiator-wide fatal failure.
    pub fatal: bool,
}

impl<'a, A, F, G> SocketInitiator<'a, A, F, G> where
    A: ApplicationCallback,
    F: MessageStoreFactory,
    G: LogFactory,
 {
    /// Every session holds no bound network resource.
    pub open spec fn all_inactive(self) -> bool {
        spec_all_inactive(self.sessions@)
    }

    /// The terminal signal: the instance has fully reached `Stopped` (or was
    /// disposed) and every session is down.  Once true it stays true for the
    /// rest of the instance's life.
    pub open spec fn spec_is_stopped(self) -> bool {
        (self.state is Stopped || self.state is Disposed) && self.all_inactive()
    }

    /// At least one session currently holds `LoggedOn` (aggregate OR).
    pub open spec fn spec_is_logged_on(self) -> bool {
        exists|i: int|
            0 <= i < self.sessions@.len() && (#[trigger] self.sessions@[i]).state is LoggedOn
    }

    /// Well-formedness: established by `try_new`, preserved by every
    /// operation.
    pub open spec fn wf(self) -> bool {
        &&& self.sessions@.len() >= 1
        &&& self.state is Created ==> spec_all_unconnected(self.sessions@)
        &&& self.state is Created ==> self.pending@.len() == 0
        &&& self.state is Created ==> !self.stop_requested
        &&& self.state is Created ==> self.stores@.len() == 0 && self.logs@.len() == 0
        &&& self.state is Running ==> spec_none_logging_off(self.sessions@)
        &&& (self.state is Stopping || self.state is Stopped || self.state is Disposed)
            ==> self.stop_requested
        &&& (self.state is Stopped || self.state is Disposed) ==> self.all_inactive()
        &&& self.state is Disposed ==> self.pending@.len() == 0
        &&& self.state is Disposed ==> self.stores@.len() == 0 && self.logs@.len() == 0
        &&& forall|i: int|
            0 <= i < self.pending@.len() ==> (#[trigger] self.pending@[i]).session
                < self.sessions@.len()
    }

    /// Validates the settings and allocates the per-session state.
    ///
    /// Returns `Err(ConfigError)` — allocating nothing — exactly when the
    /// settings are not valid: no session block, or a block with a mandatory
    /// key missing or not describing an initiator.  On success the instance
    /// is in `Created`, every session is `Unconnected` with its timers armed
    /// from its block, and `on_session_created` was invoked once per
    /// session, in block order.
    pub fn try_new(
        settings: &SessionSettings,
        application: &'a A,
        store_factory: &'a F,
        log_factory: &'a G,
    ) -> (r: Result<Self, QuickFixError>)
        ensures
            r is Ok <==> settings.spec_valid(),
            r is Err ==> r == Err::<Self, _>(QuickFixError::ConfigError),
            r matches Ok(ini) ==> ini.wf(),
            r matches Ok(ini) ==> ini.state is Created,
            r matches Ok(ini) ==> !ini.stop_requested && !ini.fatal,
            r matches Ok(ini) ==> !ini.spec_is_stopped() && !ini.spec_is_logged_on(),
            r matches Ok(ini) ==> ini.sessions@.len() == settings.blocks@.len(),
            r matches Ok(ini) ==> forall|i: int|
                0 <= i < ini.sessions@.len() ==> (#[trigger] ini.sessions@[i]).state
                    is Unconnected,
            r matches Ok(ini) ==> forall|i: int|
                0 <= i < ini.sessions@.len() ==> (#[trigger] ini.sessions@[i]).reconnect_interval
                    == settings.blocks@[i].reconnect_interval.unwrap()
                    && ini.sessions@[i].heartbeat_interval
                    == settings.blocks@[i].heartbeat_interval.unwrap()
                    && ini.sessions@[i].ticks_until_retry == ini.sessions@[i].reconnect_interval
                    && ini.sessions@[i].ticks_until_heartbeat
                    == ini.sessions@[i].heartbeat_interval,
    {
        if !settings.valid() {
            return Err(QuickFixError::ConfigError);
        }
        let n = settings.blocks.len();
        let mut sessions: Vec<Session> = Vec::new();
        let mut i: usize = 0;
        while i < n
            invariant
                0 <= i <= n,
                n == settings.blocks@.len(),
                settings.spec_valid(),
                sessions@.len() == i,
                forall|j: int|
                    0 <= j < i ==> (#[trigger] sessions@[j]).state is Unconnected
                        && sessions@[j].reconnect_interval
                        == settings.blocks@[j].reconnect_interval.unwrap()
                        && sessions@[j].heartbeat_interval
                        == settings.blocks@[j].heartbeat_interval.unwrap()
                        && sessions@[j].ticks_until_retry == sessions@[j].reconnect_interval
                        && sessions@[j].ticks_until_heartbeat == sessions@[j].heartbeat_interval,
            decreases n - i,
        {
            assert(settings.blocks@[i as int].spec_complete());
            let block = &settings.blocks[i];
            let reconnect = block.reconnect_interval.unwrap();
            let heartbeat = block.heartbeat_interval.unwrap();
            sessions.push(Session::new(reconnect, heartbeat));
            application.on_session_created(i);
            i += 1;
        }
        Ok(
            SocketInitiator {
                application,
                store_factory,
                log_factory,
                stores: Vec::new(),
                logs: Vec::new(),
                state: InitiatorState::Created,
                sessions,
                pending: Vec::new(),
                grace_remaining: LOGOUT_GRACE_TICKS,
                stop_requested: false,
                fatal: false,
            },
        )
    }

    /// Transitions `Created` to `Running` and begins an asynchronous
    /// connection attempt for every configured session: each session enters
    /// `Connecting`, one `OpenConnection` instruction per session is queued
    /// for the host, and the per-session store and log are created (their
    /// first and only creation for this instance).
    ///
    /// From any state other than `Created` it returns
    /// `Err(AlreadyRunningError)` and leaves the instance exactly as it was,
    /// so a second `start` cannot disturb the first one's effect.  After a
    /// successful `start` the instance is not stopped, and stays so until a
    /// stop is requested.
    pub fn start(&mut self) -> (r: Result<(), QuickFixError>)
        requires
            old(self).wf(),
        ensures
            final(self).wf(),
            old(self).state !is Created ==> r == Err::<(), _>(QuickFixError::AlreadyRunningError)
                && *final(self) == *old(self),
            old(self).state is Created ==> r == Ok::<(), QuickFixError>(()),
            old(self).state is Created ==> final(self).state is Running,
            old(self).state is Created ==> final(self).sessions@.len() == old(self).sessions@.len(),
            old(self).state is Created ==> forall|i: int|
                0 <= i < old(self).sessions@.len() ==> final(self).sessions@[i] == (Session {
                    state: SessionState::Connecting,
                    ..old(self).sessions@[i]
                }),
            old(self).state is Created ==> final(self).pending@ == Seq::new(
                old(self).sessions@.len(),
                |i: int|
                    (PendingAction { session: i as usize, action: SessionAction::OpenConnection }),
            ),
            old(self).state is Created ==> final(self).stores@.len() == old(self).sessions@.len()
                && final(self).logs@.len() == old(self).sessions@.len(),
            old(self).state is Created ==> !final(self).spec_is_stopped(),
            final(self).stop_requested == old(self).stop_requested,
            final(self).fatal == old(self).fatal,
            old(self).spec_is_stopped() ==> final(self).spec_is_stopped(),
    {
        match self.state {
            InitiatorState::Created => {},
            _ => {
                return Err(QuickFixError::AlreadyRunningError);
            },
        }
        let ghost init = *self;
        let n = self.sessions.len();
        let mut i: usize = 0;
        while i < n
            invariant
                0 <= i <= n,
                n == init.sessions@.len(),
                init.wf(),
                init.state is Created,
                self.application == init.application,
                self.store_factory == init.store_factory,
                self.log_factory == init.log_factory,
                self.state == init.state,
                self.grace_remaining == init.grace_remaining,
                self.stop_requested == init.stop_requested,
                self.fatal == init.fatal,
                self.sessions@.len() == n,
                forall|j: int|
                    0 <= j < i ==> self.sessions@[j] == (Session {
                        state: SessionState::Connecting,
                        ..init.sessions@[j]
                    }),
                forall|j: int| i <= j < n ==> self.sessions@[j] == init.sessions@[j],
                self.pending@ == Seq::new(
                    i as nat,
                    |j: int|
                        (PendingAction {
                            session: j as usize,
                            action: SessionAction::OpenConnection,
                        }),
                ),
                self.stores@.len() == i,
                self.logs@.len() == i,
            decreases n - i,
        {
            let s = self.sessions[i];
            self.sessions[i] = Session { state: SessionState::Connecting, ..s };
            self.pending.push(
                PendingAction { session: i, action: SessionAction::OpenConnection },
            );
            let store = self.store_factory.create(i);
            self.stores.push(store);
            let log = self.log_factory.create(i);
            self.logs.push(log);
            proof {
                assert(self.pending@ =~= Seq::new(
                    (i + 1) as nat,
                    |j: int|
                        (PendingAction {
                            session: j as usize,
                            action: SessionAction::OpenConnection,
                        }),
                ));
            }
            i += 1;
        }
        self.state = InitiatorState::Running;
        Ok(())
    }

    /// Idempotent request for graceful shutdown; it always succeeds.
    ///
    /// On a never-started (`Created`) instance it is a no-op that resolves
    /// straight to `Stopped`, after which `is_stopped` is true.  From
    /// `Running`, every `LoggedOn` session is sent a logout and enters
    /// `LoggingOff`, every session still in its connection handshake is
    /// dropped at once, the grace period is armed, and the instance enters
    /// `Stopping` — or directly `Stopped` when no session was logged on.
    /// From `Stopping`, `Stopped` or `Disposed` it changes nothing.
    pub fn stop(&mut self) -> (r: Result<(), QuickFixError>)
        requires
            old(self).wf(),
        ensures
            final(self).wf(),
            r == Ok::<(), QuickFixError>(()),
            final(self).stop_requested,
            old(self).state is Created ==> final(self).state is Stopped && final(self).sessions@
                == old(self).sessions@ && final(self).pending@ == old(self).pending@,
            old(self).state is Created ==> final(self).spec_is_stopped(),
            old(self).state is Running ==> final(self).sessions@.len()
                == old(self).sessions@.len(),
            old(self).state is Running ==> forall|i: int|
                0 <= i < old(self).sessions@.len() ==> final(self).sessions@[i]
                    == spec_after_stop(old(self).sessions@[i]),
            old(self).state is Running ==> final(self).pending@ == old(self).pending@ + Seq::new(
                old(self).sessions@.len(),
                |i: int|
                    (PendingAction {
                        session: i as usize,
                        action: spec_after_stop_action(old(self).sessions@[i]),
                    }),
            ),
            old(self).state is Running ==> final(self).state == (if old(self).spec_is_logged_on() {
                InitiatorState::Stopping
            } else {
                InitiatorState::Stopped
            }),
            old(self).state is Running ==> final(self).grace_remaining == LOGOUT_GRACE_TICKS,
            (old(self).state is Stopping || old(self).state is Stopped || old(self).state
                is Disposed) ==> *final(self) == *old(self),
            old(self).spec_is_stopped() ==> final(self).spec_is_stopped(),
            final(self).fatal == old(self).fatal,
            final(self).stores@ == old(self).stores@,
            final(self).logs@ == old(self).logs@,
    {
        match self.state {
            InitiatorState::Created => {
                self.state = InitiatorState::Stopped;
                self.stop_requested = true;
                return Ok(());
            },
            InitiatorState::Running => {},
            _ => {
                return Ok(());
            },
        }
        let ghost init = *self;
        let n = self.sessions.len();
        let mut any_logged_on = false;
        let mut i: usize = 0;
        while i < n
            invariant
                0 <= i <= n,
                n == init.sessions@.len(),
                init.wf(),
                init.state is Running,
                self.application == init.application,
                self.store_factory == init.store_factory,
                self.log_factory == init.log_factory,
                self.state == init.state,
                self.grace_remaining == init.grace_remaining,
                self.stop_requested == init.stop_requested,
                self.fatal == init.fatal,
                self.stores@ == init.stores@,
                self.logs@ == init.logs@,
                self.sessions@.len() == n,
                forall|j: int|
                    0 <= j < i ==> self.sessions@[j] == spec_after_stop(init.sessions@[j]),
                forall|j: int| i <= j < n ==> self.sessions@[j] == init.sessions@[j],
                self.pending@ == init.pending@ + Seq::new(
                    i as nat,
                    |j: int|
                        (PendingAction {
                            session: j as usize,
                            action: spec_after_stop_action(init.sessions@[j]),
                        }),
                ),
                any_logged_on == exists|j: int|
                    0 <= j < i && (#[trigger] init.sessions@[j]).state is LoggedOn,
            decreases n - i,
        {
            let s = self.sessions[i];
            let stepped = session_stop_step(s);
            let action = session_stop_action(s);
            match s.state {
                SessionState::LoggedOn => {
                    any_logged_on = true;
                    // the logout that goes out next is an administrative message
                    self.application.on_admin_message_out(i);
                },
                _ => {},
            }
            self.sessions[i] = stepped;
            self.pending.push(PendingAction { session: i, action });
            proof {
                assert(self.pending@ =~= init.pending@ + Seq::new(
                    (i + 1) as nat,
                    |j: int|
                        (PendingAction {
                            session: j as usize,
                            action: spec_after_stop_action(init.sessions@[j]),
                        }),
                ));
            }
            i += 1;
        }
        self.grace_remaining = LOGOUT_GRACE_TICKS;
        self.stop_requested = true;
        if any_logged_on {
            self.state = InitiatorState::Stopping;
        } else {
            self.state = InitiatorState::Stopped;
            assert forall|j: int| 0 <= j < n implies spec_inactive(
                (#[trigger] self.sessions@[j]).state,
            ) by {
                assert(self.sessions@[j] == spec_after_stop(init.sessions@[j]));
            }
        }
        Ok(())
    }

    /// Performs exactly one non-blocking iteration of the dispatch loop and
    /// returns `Ok(true)` iff the instance has fully reached `Stopped`.
    ///
    /// While `Running` it fires the due timers: every disconnected session
    /// counts down to its automatic reconnect (queueing `OpenConnection`
    /// when the timer fires — a session's failure never changes the
    /// initiator's own state), and every logged-on session counts down to
    /// its next heartbeat.  While `Stopping` it resolves to `Stopped` as
    /// soon as every session is down, counts the grace period down while
    /// logout acknowledgments are awaited, and when the grace period is
    /// exhausted force-disconnects whatever is left.  Once the terminal
    /// state is reached, further calls keep returning `Ok(true)` and change
    /// nothing.
    ///
    /// Returns `Err(NotStartedError)` while still `Created`, and
    /// `Err(RuntimeError)` — changing nothing — on every call after the
    /// host reported a fatal failure, unless the instance already stopped.
    pub fn poll(&mut self) -> (r: Result<bool, QuickFixError>)
        requires
            old(self).wf(),
        ensures
            final(self).wf(),
            old(self).state is Created ==> r == Err::<bool, _>(QuickFixError::NotStartedError)
                && *final(self) == *old(self),
            old(self).spec_is_stopped() ==> r == Ok::<_, QuickFixError>(true) && *final(self)
                == *old(self),
            old(self).state !is Created && !old(self).spec_is_stopped() && old(self).fatal ==> r
                == Err::<bool, _>(QuickFixError::RuntimeError) && *final(self) == *old(self),
            old(self).state is Running && !old(self).fatal ==> r == Ok::<_, QuickFixError>(false)
                && final(self).state is Running,
            old(self).state is Running && !old(self).fatal ==> final(self).sessions@.len() == old(self).sessions@.len() && forall|i: int|
                0 <= i < old(self).sessions@.len() ==> final(self).sessions@[i]
                    == spec_poll_running(old(self).sessions@[i]),
            old(self).state is Running && !old(self).fatal ==> final(self).pending@ == old(self).pending@ + Seq::new(
                old(self).sessions@.len(),
                |i: int|
                    (PendingAction {
                        session: i as usize,
                        action: spec_poll_running_action(old(self).sessions@[i]),
                    }),
            ),
            old(self).state is Stopping && !old(self).fatal && spec_all_inactive(
                old(self).sessions@,
            ) ==> r == Ok::<_, QuickFixError>(true) && final(self).state is Stopped && final(self).sessions@ == old(self).sessions@ && final(self).pending@ == old(self).pending@,
            old(self).state is Stopping && !old(self).fatal && !spec_all_inactive(
                old(self).sessions@,
            ) && old(self).grace_remaining > 0 ==> r == Ok::<_, QuickFixError>(false) && final(self).state is Stopping && final(self).sessions@ == old(self).sessions@ && final(self).pending@ == old(self).pending@ && final(self).grace_remaining == old(self).grace_remaining - 1,
            old(self).state is Stopping && !old(self).fatal && !spec_all_inactive(
                old(self).sessions@,
            ) && old(self).grace_remaining == 0 ==> r == Ok::<_, QuickFixError>(true) && final(self).state is Stopped && final(self).sessions@.len() == old(self).sessions@.len()
                && (forall|i: int|
                0 <= i < old(self).sessions@.len() ==> final(self).sessions@[i]
                    == spec_force_stop(old(self).sessions@[i])) && final(self).pending@ == old(self).pending@ + Seq::new(
                old(self).sessions@.len(),
                |i: int|
                    (PendingAction {
                        session: i as usize,
                        action: spec_force_stop_action(old(self).sessions@[i]),
                    }),
            ),
            old(self).spec_is_stopped() ==> final(self).spec_is_stopped(),
            final(self).stop_requested == old(self).stop_requested,
            final(self).fatal == old(self).fatal,
            final(self).stores@ == old(self).stores@,
            final(self).logs@ == old(self).logs@,
    {
        match self.state {
            InitiatorState::Created => {
                return Err(QuickFixError::NotStartedError);
            },
            InitiatorState::Stopped => {
                return Ok(true);
            },
            InitiatorState::Disposed => {
                return Ok(true);
            },
            _ => {},
        }
        if self.fatal {
            return Err(QuickFixError::RuntimeError);
        }
        let ghost init = *self;
        let n = self.sessions.len();
        match self.state {
            InitiatorState::Running => {
                let mut i: usize = 0;
                while i < n
                    invariant
                        0 <= i <= n,
                        n == init.sessions@.len(),
                        init.wf(),
                        init.state is Running,
                        self.application == init.application,
                        self.store_factory == init.store_factory,
                        self.log_factory == init.log_factory,
                        self.state == init.state,
                        self.grace_remaining == init.grace_remaining,
                        self.stop_requested == init.stop_requested,
                        self.fatal == init.fatal,
                        self.stores@ == init.stores@,
                        self.logs@ == init.logs@,
                        self.sessions@.len() == n,
                        forall|j: int|
                            0 <= j < i ==> self.sessions@[j] == spec_poll_running(
                                init.sessions@[j],
                            ),
                        forall|j: int| i <= j < n ==> self.sessions@[j] == init.sessions@[j],
                        self.pending@ == init.pending@ + Seq::new(
                            i as nat,
                            |j: int|
                                (PendingAction {
                                    session: j as usize,
                                    action: spec_poll_running_action(init.sessions@[j]),
                                }),
                        ),
                    decreases n - i,
                {
                    let s = self.sessions[i];
                    let stepped = session_poll_step(s);
                    let action = session_poll_action(s);
                    match action {
                        SessionAction::SendHeartbeat => {
                            self.application.on_admin_message_out(i);
                        },
                        _ => {},
                    }
                    self.sessions[i] = stepped;
                    self.pending.push(PendingAction { session: i, action });
                    proof {
                        assert(self.pending@ =~= init.pending@ + Seq::new(
                            (i + 1) as nat,
                            |j: int|
                                (PendingAction {
                                    session: j as usize,
                                    action: spec_poll_running_action(init.sessions@[j]),
                                }),
                        ));
                    }
                    i += 1;
                }
                Ok(false)
            },
            _ => {
                if self.all_sessions_inactive() {
                    self.state = InitiatorState::Stopped;
                    return Ok(true);
                }
                if self.grace_remaining > 0 {
                    self.grace_remaining = self.grace_remaining - 1;
                    return Ok(false);
                }
                let mut i: usize = 0;
                while i < n
                    invariant
                        0 <= i <= n,
                        n == init.sessions@.len(),
                        init.wf(),
                        init.state is Stopping,
                        self.application == init.application,
                        self.store_factory == init.store_factory,
                        self.log_factory == init.log_factory,
                        self.state == init.state,
                        self.grace_remaining == init.grace_remaining,
                        self.stop_requested == init.stop_requested,
                        self.fatal == init.fatal,
                        self.stores@ == init.stores@,
                        self.logs@ == init.logs@,
                        self.sessions@.len() == n,
                        forall|j: int|
                            0 <= j < i ==> self.sessions@[j] == spec_force_stop(init.sessions@[j]),
                        forall|j: int| i <= j < n ==> self.sessions@[j] == init.sessions@[j],
                        self.pending@ == init.pending@ + Seq::new(
                            i as nat,
                            |j: int|
                                (PendingAction {
                                    session: j as usize,
                                    action: spec_force_stop_action(init.sessions@[j]),
                                }),
                        ),
                    decreases n - i,
                {
                    let s = self.sessions[i];
                    match s.state {
                        SessionState::LoggedOn => {
                            self.application.on_logout(i);
                        },
                        SessionState::LoggingOff => {
                            self.application.on_logout(i);
                        },
                        _ => {},
                    }
                    let stepped = session_force_step(s);
                    let action = session_force_action(s);
                    self.sessions[i] = stepped;
                    self.pending.push(PendingAction { session: i, action });
                    proof {
                        assert(self.pending@ =~= init.pending@ + Seq::new(
                            (i + 1) as nat,
                            |j: int|
                                (PendingAction {
                                    session: j as usize,
                                    action: spec_force_stop_action(init.sessions@[j]),
                                }),
                        ));
                    }
                    i += 1;
                }
                self.state = InitiatorState::Stopped;
                Ok(true)
            },
        }
    }

    /// Delivers one event the host observed for the session identified by
    /// `session`: the session's state machine advances by
    /// [`spec_after_event`], the matching callback hooks fire, and the
    /// instruction of [`spec_event_action`] is queued for the host.  Events
    /// that make no sense in the session's current state are ignored, so a
    /// stale event cannot disturb a torn-down session, and the terminal
    /// signal, once reached, is never undone.  While `Stopping`, the
    /// instance resolves to `Stopped` as soon as the last session goes
    /// down.
    ///
    /// Returns `Err(NotStartedError)` while still `Created` (no connection
    /// exists whose events could arrive); after disposal the event is
    /// dropped and nothing changes.
    pub fn on_session_event(&mut self, session: usize, event: SessionEvent) -> (r: Result<
        (),
        QuickFixError,
    >)
        requires
            old(self).wf(),
            session < old(self).sessions@.len(),
        ensures
            final(self).wf(),
            old(self).state is Created ==> r == Err::<(), _>(QuickFixError::NotStartedError)
                && *final(self) == *old(self),
            old(self).state is Disposed ==> r == Ok::<(), QuickFixError>(()) && *final(self)
                == *old(self),
            old(self).state !is Created && old(self).state !is Disposed ==> r == Ok::<
                (),
                QuickFixError,
            >(()) && final(self).sessions@ == old(self).sessions@.update(
                session as int,
                spec_after_event(old(self).sessions@[session as int], event),
            ) && final(self).pending@ == old(self).pending@.push(
                (PendingAction {
                    session,
                    action: spec_event_action(old(self).sessions@[session as int], event),
                }),
            ) && final(self).state == (if old(self).state is Stopping && spec_all_inactive(
                old(self).sessions@.update(
                    session as int,
                    spec_after_event(old(self).sessions@[session as int], event),
                ),
            ) {
                InitiatorState::Stopped
            } else {
                old(self).state
            }),
            old(self).spec_is_stopped() ==> final(self).spec_is_stopped(),
            final(self).stop_requested == old(self).stop_requested,
            final(self).fatal == old(self).fatal,
            final(self).grace_remaining == old(self).grace_remaining,
            final(self).stores@ == old(self).stores@,
            final(self).logs@ == old(self).logs@,
    {
        match self.state {
            InitiatorState::Created => {
                return Err(QuickFixError::NotStartedError);
            },
            InitiatorState::Disposed => {
                return Ok(());
            },
            _ => {},
        }
        let ghost init = *self;
        let s = self.sessions[session];
        match (s.state, event) {
            (SessionState::Connecting, SessionEvent::ConnectSucceeded) => {
                // the logon that goes out next is an administrative message
                self.application.on_admin_message_out(session);
            },
            (SessionState::LoggingOn, SessionEvent::LogonAccepted) => {
                self.application.on_logon(session);
            },
            (SessionState::LoggingOn, SessionEvent::AdminMessageIn(message)) => {
                self.application.on_admin_message_in(session, message);
            },
            (SessionState::LoggedOn, SessionEvent::AdminMessageIn(message)) => {
                self.application.on_admin_message_in(session, message);
            },
            (SessionState::LoggingOff, SessionEvent::AdminMessageIn(message)) => {
                self.application.on_admin_message_in(session, message);
            },
            (SessionState::LoggedOn, SessionEvent::AppMessageIn(message)) => {
                self.application.on_app_message_in(session, message);
            },
            (SessionState::LoggedOn, SessionEvent::LogoutAcknowledged) => {
                self.application.on_logout(session);
            },
            (SessionState::LoggedOn, SessionEvent::PeerDisconnected) => {
                self.application.on_logout(session);
            },
            (SessionState::LoggingOff, SessionEvent::LogoutAcknowledged) => {
                self.application.on_logout(session);
            },
            (SessionState::LoggingOff, SessionEvent::PeerDisconnected) => {
                self.application.on_logout(session);
            },
            _ => {},
        }
        let stepped = s.after_event(event);
        let action = s.event_action(event);
        self.sessions[session] = stepped;
        self.pending.push(PendingAction { session, action });
        match self.state {
            InitiatorState::Stopping => {
                if self.all_sessions_inactive() {
                    self.state = InitiatorState::Stopped;
                }
            },
            _ => {},
        }
        proof {
            if init.spec_is_stopped() {
                assert(init.sessions@.update(
                    session as int,
                    spec_after_event(init.sessions@[session as int], event),
                ) =~= init.sessions@);
            }
        }
        Ok(())
    }

    /// Hands the host every instruction queued since the last call, in the
    /// order it was queued, and empties the queue.  Nothing else changes.
    pub fn take_actions(&mut self) -> (r: Vec<PendingAction>)
        requires
            old(self).wf(),
        ensures
            final(self).wf(),
            r@ == old(self).pending@,
            final(self).pending@.len() == 0,
            *final(self) == (SocketInitiator { pending: final(self).pending, ..*old(self) }),
            old(self).spec_is_stopped() ==> final(self).spec_is_stopped(),
    {
        let n = self.pending.len();
        let mut out: Vec<PendingAction> = Vec::new();
        let mut i: usize = 0;
        while i < n
            invariant
                0 <= i <= n,
                n == self.pending@.len(),
                self.pending@ == old(self).pending@,
                out@ == self.pending@.take(i as int),
            decreases n - i,
        {
            let p = self.pending[i];
            out.push(p);
            proof {
                assert(out@ =~= self.pending@.take(i + 1 as int));
            }
            i += 1;
        }
        proof {
            assert(out@ =~= self.pending@);
        }
        self.pending.clear();
        out
    }

    /// True iff at least one managed session currently holds `LoggedOn`.
    pub fn is_logged_on(&self) -> (r: bool)
        ensures
            r == self.spec_is_logged_on(),
    {
        let n = self.sessions.len();
        let mut i: usize = 0;
        while i < n
            invariant
                0 <= i <= n,
                n == self.sessions@.len(),
                forall|j: int| 0 <= j < i ==> !((#[trigger] self.sessions@[j]).state is LoggedOn),
            decreases n - i,
        {
            match self.sessions[i].state {
                SessionState::LoggedOn => {
                    assert(self.sessions@[i as int].state is LoggedOn);
                    return true;
                },
                _ => {},
            }
            i += 1;
        }
        false
    }

    /// True iff the instance has fully reached `Stopped` (or was disposed)
    /// and every session is down: the universal terminal signal.  Monotonic
    /// for a given instance — every operation's contract keeps it true once
    /// it is true.
    pub fn is_stopped(&self) -> (r: bool)
        requires
            self.wf(),
        ensures
            r == self.spec_is_stopped(),
    {
        match self.state {
            InitiatorState::Stopped => true,
            InitiatorState::Disposed => true,
            _ => false,
        }
    }

    /// Records an initiator-wide fatal runtime failure reported by the
    /// host.  The next `poll` surfaces it as `Err(RuntimeError)` unless the
    /// instance already reached the terminal state.
    pub fn on_fatal_error(&mut self)
        requires
            old(self).wf(),
        ensures
            final(self).wf(),
            final(self).fatal,
            *final(self) == (SocketInitiator { fatal: true, ..*old(self) }),
            old(self).spec_is_stopped() ==> final(self).spec_is_stopped(),
    {
        self.fatal = true;
    }

    /// Deterministic, exactly-once release of everything the instance still
    /// holds: every session that still holds a connection is disconnected,
    /// the instruction queue and the per-session stores and logs are
    /// dropped, and the instance becomes `Disposed`, terminal and inert.
    /// Safe to call even if `start` never ran, and a second call changes
    /// nothing.
    pub fn dispose(&mut self)
        requires
            old(self).wf(),
        ensures
            final(self).wf(),
            final(self).state is Disposed,
            final(self).spec_is_stopped(),
            final(self).sessions@.len() == old(self).sessions@.len(),
            forall|i: int|
                0 <= i < old(self).sessions@.len() ==> final(self).sessions@[i] == spec_force_stop(
                    old(self).sessions@[i],
                ),
            final(self).pending@.len() == 0,
            final(self).stores@.len() == 0,
            final(self).logs@.len() == 0,
            final(self).stop_requested,
            old(self).state is Disposed ==> *final(self) == *old(self),
            old(self).spec_is_stopped() ==> final(self).spec_is_stopped(),
    {
        match self.state {
            InitiatorState::Disposed => {
                proof {
                    assert forall|i: int| 0 <= i < self.sessions@.len() implies self.sessions@[i]
                        == spec_force_stop(self.sessions@[i]) by {
                        assert(spec_inactive(self.sessions@[i].state));
                    }
                }
                return ;
            },
            _ => {},
        }
        let ghost init = *self;
        let n = self.sessions.len();
        let mut i: usize = 0;
        while i < n
            invariant
                0 <= i <= n,
                n == init.sessions@.len(),
                self.sessions@.len() == n,
                self.state == init.state,
                init.state !is Disposed,
                forall|j: int| 0 <= j < i ==> self.sessions@[j] == spec_force_stop(init.sessions@[j]),
                forall|j: int| i <= j < n ==> self.sessions@[j] == init.sessions@[j],
            decreases n - i,
        {
            let s = self.sessions[i];
            let stepped = session_force_step(s);
            self.sessions[i] = stepped;
            i += 1;
        }
        self.pending.clear();
        self.stores.clear();
        self.logs.clear();
        self.stop_requested = true;
        self.state = InitiatorState::Disposed;
    }

    /// Executable counterpart of [`spec_all_inactive`] over this instance's
    /// sessions.
    fn all_sessions_inactive(&self) -> (r: bool)
        ensures
            r == spec_all_inactive(self.sessions@),
    {
        let n = self.sessions.len();
        let mut i: usize = 0;
        while i < n
            invariant
                0 <= i <= n,
                n == self.sessions@.len(),
                forall|j: int| 0 <= j < i ==> spec_inactive((#[trigger] self.sessions@[j]).state),
            decreases n - i,
        {
            match self.sessions[i].state {
                SessionState::Unconnected => {},
                SessionState::Disconnected => {},
                _ => {
                    assert(!spec_inactive(self.sessions@[i as int].state));
                    return false;
                },
            }
            i += 1;
        }
        true
    }

    /// Law: the terminal signal only ever follows a stop request — an
    /// instance that was never asked to stop (nor disposed) never reports
    /// stopped.  Together with the monotonicity clause on every mutating
    /// operation, this pins `is_stopped` down: false from `start` until a
    /// stop request, true forever once reached.
    pub proof fn lemma_stopped_only_after_stop_request(self)
        requires
            self.wf(),
            self.spec_is_stopped(),
        ensures
            self.stop_requested,
    {
    }
}

/// Executable counterpart of [`spec_poll_running`].
fn session_poll_step(s: Session) -> (r: Session)
    ensures
        r == spec_poll_running(s),
{
    match s.state {
        SessionState::Disconnected => {
            if s.ticks_until_retry == 0 {
                Session { state: SessionState::Connecting, ..s }
            } else {
                Session { ticks_until_retry: s.ticks_until_retry - 1, ..s }
            }
        },
        SessionState::LoggedOn => {
            if s.ticks_until_heartbeat == 0 {
                Session { ticks_until_heartbeat: s.heartbeat_interval, ..s }
            } else {
                Session { ticks_until_heartbeat: s.ticks_until_heartbeat - 1, ..s }
            }
        },
        _ => s,
    }
}

/// Executable counterpart of [`spec_poll_running_action`].
fn session_poll_action(s: Session) -> (r: SessionAction)
    ensures
        r == spec_poll_running_action(s),
{
    match s.state {
        SessionState::Disconnected => {
            if s.ticks_until_retry == 0 {
                SessionAction::OpenConnection
            } else {
                SessionAction::Idle
            }
        },
        SessionState::LoggedOn => {
            if s.ticks_until_heartbeat == 0 {
                SessionAction::SendHeartbeat
            } else {
                SessionAction::Idle
            }
        },
        _ => SessionAction::Idle,
    }
}

/// Executable counterpart of [`spec_force_stop`].
fn session_force_step(s: Session) -> (r: Session)
    ensures
        r == spec_force_stop(s),
{
    match s.state {
        SessionState::Unconnected => s,
        SessionState::Disconnected => s,
        _ => Session {
            state: SessionState::Disconnected,
            ticks_until_retry: s.reconnect_interval,
            ..s
        },
    }
}

/// Executable counterpart of [`spec_force_stop_action`].
fn session_force_action(s: Session) -> (r: SessionAction)
    ensures
        r == spec_force_stop_action(s),
{
    match s.state {
        SessionState::Unconnected => SessionAction::Idle,
        SessionState::Disconnected => SessionAction::Idle,
        _ => SessionAction::CloseConnection,
    }
}

/// Executable counterpart of [`spec_after_stop`].
fn session_stop_step(s: Session) -> (r: Session)
    ensures
        r == spec_after_stop(s),
{
    match s.state {
        SessionState::LoggedOn => Session { state: SessionState::LoggingOff, ..s },
        SessionState::Connecting => Session {
            state: SessionState::Disconnected,
            ticks_until_retry: s.reconnect_interval,
            ..s
        },
        SessionState::LoggingOn => Session {
            state: SessionState::Disconnected,
            ticks_until_retry: s.reconnect_interval,
            ..s
        },
        _ => s,
    }
}

/// Executable counterpart of [`spec_after_stop_action`].
fn session_stop_action(s: Session) -> (r: SessionAction)
    ensures
        r == spec_after_stop_action(s),
{
    match s.state {
        SessionState::LoggedOn => SessionAction::SendLogout,
        SessionState::Connecting => SessionAction::CloseConnection,
        SessionState::LoggingOn => SessionAction::CloseConnection,
        _ => SessionAction::Idle,
    }
}

/// No session of `ss` is waiting for a logout acknowledgment.  That state
/// exists only while the initiator itself is stopping.
pub open spec fn spec_none_logging_off(ss: Seq<Session>) -> bool {
    forall|i: int| 0 <= i < ss.len() ==> !((#[trigger] ss[i]).state is LoggingOff)
}

/// Every session of `ss` is still `Unconnected`.
pub open spec fn spec_all_unconnected(ss: Seq<Session>) -> bool {
    forall|i: int| 0 <= i < ss.len() ==> (#[trigger] ss[i]).state is Unconnected
}

} // verus!
