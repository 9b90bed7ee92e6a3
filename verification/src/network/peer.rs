//! Peer identifiers as the network layer compares and reports them.
use vstd::prelude::*;

verus! {

/// A peer of the network, held as the canonical text of its identifier (the
/// base58 form that the transport prints and parses).
#[derive(Debug)]
pub struct PeerId {
    text: String,
}

impl View for PeerId {
    type V = Seq<char>;

    closed spec fn view(&self) -> Seq<char> {
        self.text@
    }
}

impl PeerId {
    /// The peer whose identifier has the text `text`.
    pub fn new(text: String) -> (peer: PeerId)
        ensures
            peer@ == text@,
    {
        PeerId { text }
    }

    /// The text of the identifier.
    pub fn as_str(&self) -> (text: &str)
        ensures
            text@ == self@,
    {
        self.text.as_str()
    }

    /// Whether both name the same peer.
    pub fn same_as(&self, other: &PeerId) -> (same: bool)
        ensures
            same == (self@ == other@),
    {
        self.text == other.text
    }

    /// A second value that names the same peer.
    pub fn duplicate(&self) -> (peer: PeerId)
        ensures
            peer@ == self@,
    {
        PeerId { text: self.text.clone() }
    }
}

} // verus!
