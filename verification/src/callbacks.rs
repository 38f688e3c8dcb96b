use vstd::prelude::*;

verus! {

/// Business/administrative hooks that the dispatch path invokes as session
/// state changes and as messages arrive.  Each hook receives the session
/// identifier (the position of the session's block in the settings) and,
/// where relevant, the opaque message handle the host chose for the event.
///
/// Hooks are invoked by the initiator, never by the caller directly, and
/// must not perform long blocking work: they stall dispatch for every
/// session of the same initiator.
pub trait ApplicationCallback {
    /// A session was allocated for a settings block.
    fn on_session_created(&self, session: usize);

    /// A session completed its logon handshake.
    fn on_logon(&self, session: usize);

    /// A session left the logged-on state (graceful or not).
    fn on_logout(&self, session: usize);

    /// An administrative message is about to go out.
    fn on_admin_message_out(&self, session: usize);

    /// An administrative message arrived.
    fn on_admin_message_in(&self, session: usize, message: u64);

    /// A business message is about to go out.
    fn on_app_message_out(&self, session: usize, message: u64);

    /// A business message arrived.  Within one session this is only ever
    /// delivered after `on_logon`.
    fn on_app_message_in(&self, session: usize, message: u64);
}

/// Produces one persistent message store per session, lazily, at most once
/// per session identifier over the initiator's lifetime.  The produced
/// stores are owned by the initiator; their internals are the collaborator's
/// own affair.
pub trait MessageStoreFactory {
    type Store;

    fn create(&self, session: usize) -> Self::Store;
}

/// Produces one audit log per session, lazily, at most once per session
/// identifier over the initiator's lifetime.  The produced logs are owned by
/// the initiator.
pub trait LogFactory {
    type Log;

    fn create(&self, session: usize) -> Self::Log;
}

} // verus!
