use vstd::prelude::*;

verus! {

/// Which side opened a connection. It selects the role that each upgrade
/// takes in its handshake: responder for `Inbound`, initiator for `Outbound`.
#[derive(Debug, Clone, Copy, PartialEq, Eq, Hash, Structural)]
pub enum ConnectionDirection {
    Inbound,
    Outbound,
}

} // verus!
