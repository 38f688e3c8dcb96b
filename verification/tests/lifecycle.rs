use std::cell::RefCell;

use quickfix::ApplicationCallback;
use quickfix::LogFactory;
use quickfix::MessageStoreFactory;
use quickfix::QuickFixError;
use quickfix::SessionAction;
use quickfix::SessionBlock;
use quickfix::SessionEvent;
use quickfix::SessionSettings;
use quickfix::SessionState;
use quickfix::SocketInitiator;
use quickfix::LOGOUT_GRACE_TICKS;

#[derive(Clone, Copy, PartialEq, Eq, Debug)]
enum Hook {
    SessionCreated(usize),
    Logon(usize),
    Logout(usize),
    AdminOut(usize),
    AdminIn(usize, u64),
    AppIn(usize, u64),
}

struct Recorder {
    hooks: RefCell<Vec<Hook>>,
}

impl Recorder {
    fn new() -> Recorder {
        Recorder { hooks: RefCell::new(Vec::new()) }
    }

    fn recorded(&self) -> Vec<Hook> {
        self.hooks.borrow().clone()
    }
}

impl ApplicationCallback for Recorder {
    fn on_session_created(&self, session: usize) {
        self.hooks.borrow_mut().push(Hook::SessionCreated(session));
    }

    fn on_logon(&self, session: usize) {
        self.hooks.borrow_mut().push(Hook::Logon(session));
    }

    fn on_logout(&self, session: usize) {
        self.hooks.borrow_mut().push(Hook::Logout(session));
    }

    fn on_admin_message_out(&self, session: usize) {
        self.hooks.borrow_mut().push(Hook::AdminOut(session));
    }

    fn on_admin_message_in(&self, session: usize, message: u64) {
        self.hooks.borrow_mut().push(Hook::AdminIn(session, message));
    }

    fn on_app_message_out(&self, _session: usize, _message: u64) {}

    fn on_app_message_in(&self, session: usize, message: u64) {
        self.hooks.borrow_mut().push(Hook::AppIn(session, message));
    }
}

struct CountingStores {
    created: RefCell<Vec<usize>>,
}

impl CountingStores {
    fn new() -> CountingStores {
        CountingStores { created: RefCell::new(Vec::new()) }
    }
}

impl MessageStoreFactory for CountingStores {
    type Store = usize;

    fn create(&self, session: usize) -> usize {
        self.created.borrow_mut().push(session);
        session
    }
}

struct NullLogs;

impl LogFactory for NullLogs {
    type Log = ();

    fn create(&self, _session: usize) {}
}

fn one_session_settings(heartbeat: u64, reconnect: u64) -> SessionSettings {
    let mut settings = SessionSettings::new();
    settings.add_block(SessionBlock::new(
        "counterparty.example".to_string(),
        5001,
        "SENDER".to_string(),
        "TARGET".to_string(),
        heartbeat,
        reconnect,
    ));
    settings
}

#[test]
fn try_new_rejects_empty_settings() {
    let settings = SessionSettings::new();
    let app = Recorder::new();
    let stores = CountingStores::new();
    let logs = NullLogs;
    let r = SocketInitiator::try_new(&settings, &app, &stores, &logs);
    assert!(matches!(r, Err(QuickFixError::ConfigError)));
    // nothing was allocated: no session hook fired, no store created
    assert_eq!(app.recorded().len(), 0);
    assert_eq!(stores.created.borrow().len(), 0);
}

#[test]
fn try_new_rejects_missing_mandatory_key() {
    let mut block = SessionBlock::new(
        "counterparty.example".to_string(),
        5001,
        "SENDER".to_string(),
        "TARGET".to_string(),
        30,
        5,
    );
    block.port = None;
    let mut settings = SessionSettings::new();
    settings.add_block(block);
    let app = Recorder::new();
    let stores = CountingStores::new();
    let logs = NullLogs;
    let r = SocketInitiator::try_new(&settings, &app, &stores, &logs);
    assert!(matches!(r, Err(QuickFixError::ConfigError)));
    assert_eq!(stores.created.borrow().len(), 0);
}

#[test]
fn try_new_rejects_acceptor_block() {
    let mut block = SessionBlock::new(
        "counterparty.example".to_string(),
        5001,
        "SENDER".to_string(),
        "TARGET".to_string(),
        30,
        5,
    );
    block.connection_type = Some(quickfix::ConnectionType::Acceptor);
    let mut settings = SessionSettings::new();
    settings.add_block(block);
    let app = Recorder::new();
    let stores = CountingStores::new();
    let logs = NullLogs;
    let r = SocketInitiator::try_new(&settings, &app, &stores, &logs);
    assert!(matches!(r, Err(QuickFixError::ConfigError)));
}

#[test]
fn try_new_creates_one_session_per_block() {
    let mut settings = one_session_settings(30, 5);
    settings.add_block(SessionBlock::new(
        "other.example".to_string(),
        5002,
        "SENDER2".to_string(),
        "TARGET2".to_string(),
        10,
        3,
    ));
    let app = Recorder::new();
    let stores = CountingStores::new();
    let logs = NullLogs;
    let ini = SocketInitiator::try_new(&settings, &app, &stores, &logs).unwrap();
    assert_eq!(ini.sessions.len(), 2);
    assert_eq!(ini.sessions[0].state, SessionState::Unconnected);
    assert_eq!(ini.sessions[1].state, SessionState::Unconnected);
    assert_eq!(app.recorded(), vec![Hook::SessionCreated(0), Hook::SessionCreated(1)]);
    assert!(!ini.is_stopped());
    assert!(!ini.is_logged_on());
    // stores are created lazily: none before start
    assert_eq!(stores.created.borrow().len(), 0);
}

#[test]
fn poll_before_start_is_not_started() {
    let settings = one_session_settings(30, 5);
    let app = Recorder::new();
    let stores = CountingStores::new();
    let logs = NullLogs;
    let mut ini = SocketInitiator::try_new(&settings, &app, &stores, &logs).unwrap();
    assert!(matches!(ini.poll(), Err(QuickFixError::NotStartedError)));
}

#[test]
fn event_before_start_is_not_started() {
    let settings = one_session_settings(30, 5);
    let app = Recorder::new();
    let stores = CountingStores::new();
    let logs = NullLogs;
    let mut ini = SocketInitiator::try_new(&settings, &app, &stores, &logs).unwrap();
    let r = ini.on_session_event(0, SessionEvent::ConnectSucceeded);
    assert!(matches!(r, Err(QuickFixError::NotStartedError)));
    assert_eq!(ini.sessions[0].state, SessionState::Unconnected);
}

#[test]
fn start_connects_every_session_and_creates_stores() {
    let mut settings = one_session_settings(30, 5);
    settings.add_block(SessionBlock::new(
        "other.example".to_string(),
        5002,
        "SENDER2".to_string(),
        "TARGET2".to_string(),
        10,
        3,
    ));
    let app = Recorder::new();
    let stores = CountingStores::new();
    let logs = NullLogs;
    let mut ini = SocketInitiator::try_new(&settings, &app, &stores, &logs).unwrap();
    assert!(ini.start().is_ok());
    assert_eq!(ini.sessions[0].state, SessionState::Connecting);
    assert_eq!(ini.sessions[1].state, SessionState::Connecting);
    assert!(!ini.is_stopped());
    // each store and log created exactly once, per session, in order
    assert_eq!(*stores.created.borrow(), vec![0, 1]);
    let actions = ini.take_actions();
    let work: Vec<(usize, SessionAction)> =
        actions.iter().map(|p| (p.session, p.action)).collect();
    assert_eq!(
        work,
        vec![(0, SessionAction::OpenConnection), (1, SessionAction::OpenConnection)]
    );
    // the queue was drained
    assert_eq!(ini.take_actions().len(), 0);
}

#[test]
fn second_start_is_already_running_and_disturbs_nothing() {
    let settings = one_session_settings(30, 5);
    let app = Recorder::new();
    let stores = CountingStores::new();
    let logs = NullLogs;
    let mut ini = SocketInitiator::try_new(&settings, &app, &stores, &logs).unwrap();
    assert!(ini.start().is_ok());
    let r = ini.start();
    assert!(matches!(r, Err(QuickFixError::AlreadyRunningError)));
    // the first call's effect stands
    assert_eq!(ini.sessions[0].state, SessionState::Connecting);
    assert!(!ini.is_stopped());
    assert_eq!(*stores.created.borrow(), vec![0]);
    assert!(matches!(ini.poll(), Ok(false)));
}

#[test]
fn stop_on_never_started_instance_is_stopped() {
    let settings = one_session_settings(30, 5);
    let app = Recorder::new();
    let stores = CountingStores::new();
    let logs = NullLogs;
    let mut ini = SocketInitiator::try_new(&settings, &app, &stores, &logs).unwrap();
    assert!(!ini.is_stopped());
    assert!(ini.stop().is_ok());
    assert!(ini.is_stopped());
    // a second stop stays a successful no-op
    assert!(ini.stop().is_ok());
    assert!(ini.is_stopped());
}

#[test]
fn poll_keeps_returning_true_once_stopped() {
    let settings = one_session_settings(30, 5);
    let app = Recorder::new();
    let stores = CountingStores::new();
    let logs = NullLogs;
    let mut ini = SocketInitiator::try_new(&settings, &app, &stores, &logs).unwrap();
    assert!(ini.stop().is_ok());
    for _ in 0..5 {
        assert!(matches!(ini.poll(), Ok(true)));
        assert!(ini.is_stopped());
    }
}

#[test]
fn disconnected_session_reconnects_after_interval() {
    let settings = one_session_settings(30, 2);
    let app = Recorder::new();
    let stores = CountingStores::new();
    let logs = NullLogs;
    let mut ini = SocketInitiator::try_new(&settings, &app, &stores, &logs).unwrap();
    assert!(ini.start().is_ok());
    ini.take_actions();
    assert!(ini.on_session_event(0, SessionEvent::ConnectFailed).is_ok());
    assert_eq!(ini.sessions[0].state, SessionState::Disconnected);
    // the initiator itself stays running while its only session is down
    assert!(!ini.is_stopped());
    ini.take_actions();
    // two ticks count the reconnect interval down; the third fires the retry
    assert!(matches!(ini.poll(), Ok(false)));
    assert!(matches!(ini.poll(), Ok(false)));
    let idle: Vec<SessionAction> =
        ini.take_actions().iter().map(|p| p.action).collect();
    assert_eq!(idle, vec![SessionAction::Idle, SessionAction::Idle]);
    assert!(matches!(ini.poll(), Ok(false)));
    assert_eq!(ini.sessions[0].state, SessionState::Connecting);
    let retry: Vec<SessionAction> =
        ini.take_actions().iter().map(|p| p.action).collect();
    assert_eq!(retry, vec![SessionAction::OpenConnection]);
}

#[test]
fn heartbeat_fires_when_its_timer_expires() {
    let settings = one_session_settings(1, 5);
    let app = Recorder::new();
    let stores = CountingStores::new();
    let logs = NullLogs;
    let mut ini = SocketInitiator::try_new(&settings, &app, &stores, &logs).unwrap();
    assert!(ini.start().is_ok());
    assert!(ini.on_session_event(0, SessionEvent::ConnectSucceeded).is_ok());
    assert!(ini.on_session_event(0, SessionEvent::LogonAccepted).is_ok());
    assert!(ini.is_logged_on());
    ini.take_actions();
    // heartbeat interval 1: the first poll counts down, the second fires
    assert!(matches!(ini.poll(), Ok(false)));
    assert!(matches!(ini.poll(), Ok(false)));
    let actions: Vec<SessionAction> =
        ini.take_actions().iter().map(|p| p.action).collect();
    assert_eq!(actions, vec![SessionAction::Idle, SessionAction::SendHeartbeat]);
    assert!(app.recorded().contains(&Hook::AdminOut(0)));
}

#[test]
fn incoming_messages_reach_the_callback() {
    let settings = one_session_settings(30, 5);
    let app = Recorder::new();
    let stores = CountingStores::new();
    let logs = NullLogs;
    let mut ini = SocketInitiator::try_new(&settings, &app, &stores, &logs).unwrap();
    assert!(ini.start().is_ok());
    assert!(ini.on_session_event(0, SessionEvent::ConnectSucceeded).is_ok());
    assert!(ini.on_session_event(0, SessionEvent::AdminMessageIn(41)).is_ok());
    assert!(ini.on_session_event(0, SessionEvent::LogonAccepted).is_ok());
    assert!(ini.on_session_event(0, SessionEvent::AppMessageIn(7)).is_ok());
    let hooks = app.recorded();
    assert!(hooks.contains(&Hook::AdminIn(0, 41)));
    assert!(hooks.contains(&Hook::AppIn(0, 7)));
}

#[test]
fn stale_event_does_not_disturb_a_torn_down_session() {
    let settings = one_session_settings(30, 5);
    let app = Recorder::new();
    let stores = CountingStores::new();
    let logs = NullLogs;
    let mut ini = SocketInitiator::try_new(&settings, &app, &stores, &logs).unwrap();
    assert!(ini.start().is_ok());
    assert!(ini.stop().is_ok());
    assert!(ini.is_stopped());
    // the connection attempt that was in flight resolves late: ignored
    assert!(ini.on_session_event(0, SessionEvent::ConnectSucceeded).is_ok());
    assert!(ini.is_stopped());
    assert_eq!(ini.sessions[0].state, SessionState::Disconnected);
}

#[test]
fn graceful_stop_waits_for_logout_acknowledgment() {
    let settings = one_session_settings(30, 5);
    let app = Recorder::new();
    let stores = CountingStores::new();
    let logs = NullLogs;
    let mut ini = SocketInitiator::try_new(&settings, &app, &stores, &logs).unwrap();
    assert!(ini.start().is_ok());
    assert!(ini.on_session_event(0, SessionEvent::ConnectSucceeded).is_ok());
    assert!(ini.on_session_event(0, SessionEvent::LogonAccepted).is_ok());
    ini.take_actions();
    assert!(ini.stop().is_ok());
    assert!(!ini.is_stopped());
    assert_eq!(ini.sessions[0].state, SessionState::LoggingOff);
    let actions: Vec<SessionAction> =
        ini.take_actions().iter().map(|p| p.action).collect();
    assert_eq!(actions, vec![SessionAction::SendLogout]);
    // the acknowledgment arrives: logout is recorded before the session is down
    assert!(ini.on_session_event(0, SessionEvent::LogoutAcknowledged).is_ok());
    assert!(app.recorded().contains(&Hook::Logout(0)));
    assert_eq!(ini.sessions[0].state, SessionState::Disconnected);
    assert!(ini.is_stopped());
    assert!(matches!(ini.poll(), Ok(true)));
}

#[test]
fn graceful_stop_forces_disconnect_after_grace_period() {
    let settings = one_session_settings(30, 5);
    let app = Recorder::new();
    let stores = CountingStores::new();
    let logs = NullLogs;
    let mut ini = SocketInitiator::try_new(&settings, &app, &stores, &logs).unwrap();
    assert!(ini.start().is_ok());
    assert!(ini.on_session_event(0, SessionEvent::ConnectSucceeded).is_ok());
    assert!(ini.on_session_event(0, SessionEvent::LogonAccepted).is_ok());
    assert!(ini.stop().is_ok());
    // no acknowledgment ever arrives: the grace period counts down
    for _ in 0..LOGOUT_GRACE_TICKS {
        assert!(matches!(ini.poll(), Ok(false)));
        assert!(!ini.is_stopped());
    }
    // the next iteration forces the disconnect
    assert!(matches!(ini.poll(), Ok(true)));
    assert!(ini.is_stopped());
    assert_eq!(ini.sessions[0].state, SessionState::Disconnected);
    assert!(app.recorded().contains(&Hook::Logout(0)));
    let actions: Vec<SessionAction> =
        ini.take_actions().into_iter().map(|p| p.action).collect();
    assert!(actions.contains(&SessionAction::CloseConnection));
}

#[test]
fn fatal_error_surfaces_on_next_poll() {
    let settings = one_session_settings(30, 5);
    let app = Recorder::new();
    let stores = CountingStores::new();
    let logs = NullLogs;
    let mut ini = SocketInitiator::try_new(&settings, &app, &stores, &logs).unwrap();
    assert!(ini.start().is_ok());
    ini.on_fatal_error();
    assert!(matches!(ini.poll(), Err(QuickFixError::RuntimeError)));
    // the condition persists rather than silently stopping
    assert!(matches!(ini.poll(), Err(QuickFixError::RuntimeError)));
    // stop still works, and the terminal signal wins over the error
    assert!(ini.stop().is_ok());
    assert!(matches!(ini.poll(), Ok(true)));
}

#[test]
fn dispose_releases_everything() {
    let settings = one_session_settings(30, 5);
    let app = Recorder::new();
    let stores = CountingStores::new();
    let logs = NullLogs;
    let mut ini = SocketInitiator::try_new(&settings, &app, &stores, &logs).unwrap();
    assert!(ini.start().is_ok());
    assert!(ini.on_session_event(0, SessionEvent::ConnectSucceeded).is_ok());
    assert!(ini.on_session_event(0, SessionEvent::LogonAccepted).is_ok());
    assert!(ini.stop().is_ok());
    ini.dispose();
    assert!(ini.is_stopped());
    assert_eq!(ini.sessions[0].state, SessionState::Disconnected);
    assert_eq!(ini.stores.len(), 0);
    assert_eq!(ini.logs.len(), 0);
    assert_eq!(ini.take_actions().len(), 0);
    // a second dispose changes nothing
    ini.dispose();
    assert!(ini.is_stopped());
}

#[test]
fn dispose_is_safe_on_a_never_started_instance() {
    let settings = one_session_settings(30, 5);
    let app = Recorder::new();
    let stores = CountingStores::new();
    let logs = NullLogs;
    let mut ini = SocketInitiator::try_new(&settings, &app, &stores, &logs).unwrap();
    ini.dispose();
    assert!(ini.is_stopped());
    assert_eq!(ini.sessions[0].state, SessionState::Unconnected);
}
