use std::cell::RefCell;

use quickfix::ApplicationCallback;
use quickfix::LogFactory;
use quickfix::MessageStoreFactory;
use quickfix::SessionAction;
use quickfix::SessionBlock;
use quickfix::SessionEvent;
use quickfix::SessionSettings;
use quickfix::SessionState;
use quickfix::SocketInitiator;

#[derive(Clone, Copy, PartialEq, Eq, Debug)]
enum Hook {
    Logon(usize),
    Logout(usize),
    AppIn(usize, u64),
    Other,
}

struct Journal {
    hooks: RefCell<Vec<Hook>>,
}

impl Journal {
    fn new() -> Journal {
        Journal { hooks: RefCell::new(Vec::new()) }
    }

    fn recorded(&self) -> Vec<Hook> {
        self.hooks.borrow().clone()
    }
}

impl ApplicationCallback for Journal {
    fn on_session_created(&self, _session: usize) {
        self.hooks.borrow_mut().push(Hook::Other);
    }

    fn on_logon(&self, session: usize) {
        self.hooks.borrow_mut().push(Hook::Logon(session));
    }

    fn on_logout(&self, session: usize) {
        self.hooks.borrow_mut().push(Hook::Logout(session));
    }

    fn on_admin_message_out(&self, _session: usize) {
        self.hooks.borrow_mut().push(Hook::Other);
    }

    fn on_admin_message_in(&self, _session: usize, _message: u64) {
        self.hooks.borrow_mut().push(Hook::Other);
    }

    fn on_app_message_out(&self, _session: usize, _message: u64) {}

    fn on_app_message_in(&self, session: usize, message: u64) {
        self.hooks.borrow_mut().push(Hook::AppIn(session, message));
    }
}

struct UnitStores;

impl MessageStoreFactory for UnitStores {
    type Store = ();

    fn create(&self, _session: usize) {}
}

struct UnitLogs;

impl LogFactory for UnitLogs {
    type Log = ();

    fn create(&self, _session: usize) {}
}

/// A reachable counterparty stub: answers a connection attempt with success,
/// a logon with an acceptance, and a logout with its acknowledgment.
fn stub_response(action: SessionAction) -> Option<SessionEvent> {
    match action {
        SessionAction::OpenConnection => Some(SessionEvent::ConnectSucceeded),
        SessionAction::SendLogon => Some(SessionEvent::LogonAccepted),
        SessionAction::SendLogout => Some(SessionEvent::LogoutAcknowledged),
        _ => None,
    }
}

#[test]
fn one_session_against_a_reachable_counterparty() {
    let mut settings = SessionSettings::new();
    settings.add_block(SessionBlock::new(
        "counterparty.example".to_string(),
        5001,
        "SENDER".to_string(),
        "TARGET".to_string(),
        30,
        5,
    ));
    let app = Journal::new();
    let stores = UnitStores;
    let logs = UnitLogs;
    let mut ini = SocketInitiator::try_new(&settings, &app, &stores, &logs).unwrap();
    assert!(ini.start().is_ok());

    // drive the dispatch loop until logged on, within a bounded number of
    // iterations
    let mut rounds: u32 = 0;
    while !ini.is_logged_on() {
        assert!(rounds < 20, "no logon within the bounded timeout");
        rounds += 1;
        for pending in ini.take_actions() {
            if let Some(event) = stub_response(pending.action) {
                assert!(ini.on_session_event(pending.session, event).is_ok());
            }
        }
        assert!(matches!(ini.poll(), Ok(false)));
    }

    // a business message arrives once the session is live
    assert!(ini.on_session_event(0, SessionEvent::AppMessageIn(99)).is_ok());

    // the callback recorded the logon exactly once, before any inbound
    // business message
    let hooks = app.recorded();
    let logons = hooks.iter().filter(|h| matches!(h, Hook::Logon(0))).count();
    assert_eq!(logons, 1);
    let logon_at = hooks.iter().position(|h| matches!(h, Hook::Logon(0))).unwrap();
    let first_app_in = hooks.iter().position(|h| matches!(h, Hook::AppIn(0, _))).unwrap();
    assert!(logon_at < first_app_in);

    // graceful stop: logout goes out, its acknowledgment comes back
    assert!(ini.stop().is_ok());
    let mut rounds: u32 = 0;
    while !ini.is_stopped() {
        assert!(rounds < 20, "no stop within the bounded timeout");
        rounds += 1;
        for pending in ini.take_actions() {
            if let Some(event) = stub_response(pending.action) {
                assert!(ini.on_session_event(pending.session, event).is_ok());
            }
        }
        // the moment the session reaches Disconnected, the logout hook must
        // already be on record
        if ini.sessions[0].state == SessionState::Disconnected {
            assert!(app.recorded().contains(&Hook::Logout(0)));
        }
        let _ = ini.poll();
    }
    assert_eq!(ini.sessions[0].state, SessionState::Disconnected);
    assert!(app.recorded().contains(&Hook::Logout(0)));
}
