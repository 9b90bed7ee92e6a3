//! The events of the transport that commands react to.
use vstd::prelude::*;

use crate::network::peer::PeerId;

verus! {

/// Which side opened a connection.
#[derive(Debug, Clone, Copy, PartialEq, Eq)]
pub enum Endpoint {
    /// This node dialed the peer.
    Dialer,
    /// The peer dialed this node.
    Listener,
}

/// An event of the transport, as far as the commands read it.
#[allow(inconsistent_fields)]
#[derive(Debug)]
pub enum SwarmEvent {
    /// A connection to `peer_id` is up.
    ConnectionEstablished { peer_id: PeerId, endpoint: Endpoint },
    /// An outgoing connection attempt failed; the peer may be unknown.
    OutgoingConnectionError { peer_id: Option<PeerId>, error: String },
    /// A connection to `peer_id` was closed.
    ConnectionClosed { peer_id: PeerId },
    /// Any other event.
    Other,
}

} // verus!
