use vstd::prelude::*;

verus! {

/// The role a session block configures.  This library only drives the
/// initiator role (actively opening outbound connections).
#[derive(Clone, Copy, Debug, PartialEq, Eq, Structural)]
pub enum ConnectionType {
    Initiator,
    Acceptor,
}

/// One session block: the configuration of one logical session, as typed
/// values.  Every field is a mandatory key; a missing key is `None` and makes
/// the block incomplete, which `SocketInitiator::try_new` rejects with
/// `QuickFixError::ConfigError`.
///
/// Timing parameters are measured in dispatch iterations: one `poll` call is
/// one tick.
#[derive(Debug)]
pub struct SessionBlock {
    /// Role of the session; must be `Initiator` for this runtime.
    pub connection_type: Option<ConnectionType>,
    /// Counterparty host to connect to.
    pub host: Option<String>,
    /// Counterparty port to connect to.
    pub port: Option<u16>,
    /// Identifier of the local (sending) party.
    pub sender_id: Option<String>,
    /// Identifier of the counterparty.
    pub target_id: Option<String>,
    /// Ticks between keepalive heartbeats while logged on.
    pub heartbeat_interval: Option<u64>,
    /// Ticks a disconnected session waits before the next connection attempt.
    pub reconnect_interval: Option<u64>,
}

impl SessionBlock {
    /// Every mandatory key is present and the block describes an initiator.
    pub open spec fn spec_complete(self) -> bool {
        &&& self.connection_type == Some(ConnectionType::Initiator)
        &&& self.host is Some
        &&& self.port is Some
        &&& self.sender_id is Some
        &&& self.target_id is Some
        &&& self.heartbeat_interval is Some
        &&& self.reconnect_interval is Some
    }

    /// A block with every key absent, to be filled field by field.
    pub fn empty() -> (r: SessionBlock)
        ensures
            !r.spec_complete(),
            r.connection_type is None,
            r.host is None,
            r.port is None,
            r.sender_id is None,
            r.target_id is None,
            r.heartbeat_interval is None,
            r.reconnect_interval is None,
    {
        SessionBlock {
            connection_type: None,
            host: None,
            port: None,
            sender_id: None,
            target_id: None,
            heartbeat_interval: None,
            reconnect_interval: None,
        }
    }

    /// A block with every mandatory key present.
    pub fn new(
        host: String,
        port: u16,
        sender_id: String,
        target_id: String,
        heartbeat_interval: u64,
        reconnect_interval: u64,
    ) -> (r: SessionBlock)
        ensures
            r.spec_complete(),
            r.heartbeat_interval == Some(heartbeat_interval),
            r.reconnect_interval == Some(reconnect_interval),
    {
        SessionBlock {
            connection_type: Some(ConnectionType::Initiator),
            host: Some(host),
            port: Some(port),
            sender_id: Some(sender_id),
            target_id: Some(target_id),
            heartbeat_interval: Some(heartbeat_interval),
            reconnect_interval: Some(reconnect_interval),
        }
    }

    /// Whether every mandatory key is present for an initiator session.
    pub fn complete(&self) -> (r: bool)
        ensures
            r == self.spec_complete(),
    {
        let role_ok = match self.connection_type {
            Some(ConnectionType::Initiator) => true,
            _ => false,
        };
        role_ok && self.host.is_some() && self.port.is_some() && self.sender_id.is_some()
            && self.target_id.is_some() && self.heartbeat_interval.is_some()
            && self.reconnect_interval.is_some()
    }
}

/// Parsed, immutable configuration: an ordered sequence of session blocks,
/// one per session, indexed by position.  The position of a block is the
/// session identifier that the runtime and the callbacks use.
#[derive(Debug)]
pub struct SessionSettings {
    pub blocks: Vec<SessionBlock>,
}

impl SessionSettings {
    /// At least one session block, and every block complete.
    pub open spec fn spec_valid(self) -> bool {
        &&& self.blocks@.len() >= 1
        &&& forall|i: int|
            0 <= i < self.blocks@.len() ==> (#[trigger] self.blocks@[i]).spec_complete()
    }

    /// Settings with no session block yet (not valid until one is added).
    pub fn new() -> (r: SessionSettings)
        ensures
            r.blocks@.len() == 0,
            !r.spec_valid(),
    {
        SessionSettings { blocks: Vec::new() }
    }

    /// Appends one session block; its session identifier is its position.
    pub fn add_block(&mut self, block: SessionBlock)
        ensures
            final(self).blocks@ == old(self).blocks@.push(block),
    {
        self.blocks.push(block);
    }

    /// Whether the settings hold at least one block and every block is
    /// complete.
    pub fn valid(&self) -> (r: bool)
        ensures
            r == self.spec_valid(),
    {
        if self.blocks.len() == 0 {
            return false;
        }
        let n = self.blocks.len();
        let mut i: usize = 0;
        while i < n
            invariant
                0 <= i <= n,
                n == self.blocks@.len(),
                forall|j: int| 0 <= j < i ==> (#[trigger] self.blocks@[j]).spec_complete(),
            decreases n - i,
        {
            if !self.blocks[i].complete() {
                return false;
            }
            i += 1;
        }
        true
    }
}

} // verus!
