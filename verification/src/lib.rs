//! Session-connection lifecycle manager for an outbound ("initiator")
//! financial-messaging client.
//!
//! The core type, [`SocketInitiator`], owns one state machine for the whole
//! connection runtime and one per configured session.  A host drives it
//! cooperatively: `start` begins connection attempts, `poll` runs one
//! dispatch iteration (timers, reconnects, the stop grace period), events
//! reported by the host advance the per-session machines, and `stop` /
//! `dispose` tear everything down deterministically.

mod callbacks;
mod errors;
mod initiator;
mod session;
mod settings;

pub use callbacks::ApplicationCallback;
pub use callbacks::LogFactory;
pub use callbacks::MessageStoreFactory;
pub use errors::QuickFixError;
pub use initiator::InitiatorState;
pub use initiator::PendingAction;
pub use initiator::SocketInitiator;
pub use initiator::LOGOUT_GRACE_TICKS;
pub use session::Session;
pub use session::SessionAction;
pub use session::SessionEvent;
pub use session::SessionState;
pub use settings::ConnectionType;
pub use settings::SessionBlock;
pub use settings::SessionSettings;
