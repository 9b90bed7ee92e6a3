//! The errors of the library.
use vstd::prelude::*;

use crate::network::peer::PeerId;

verus! {

/// What can go wrong in the library.
#[derive(Debug)]
pub enum Error {
    /// A dial towards `peer_id` failed; `reason` is the transport's description.
    DialFailed { peer_id: PeerId, reason: String },
    /// There was no connection to `peer_id` to close.
    NoActiveConnection { peer_id: PeerId },
    /// The channel to the network event loop is closed.
    CommandChannelClosed,
    /// A PEM text did not hold a valid PKCS#8 Ed25519 private key; `reason` is
    /// the decoder's description.
    InvalidKey { reason: String },
    /// A key could not be encoded; `reason` is the encoder's description.
    KeyEncoding { reason: String },
    /// Bytes did not hold a protobuf-encoded key pair; `reason` is the decoder's
    /// description.
    InvalidKeypair { reason: String },
    /// A device record lacks the property with this name.
    MissingProperty(String),
}

/// An error as plain values.
pub enum ErrorView {
    DialFailed { peer_id: Seq<char>, reason: Seq<char> },
    NoActiveConnection { peer_id: Seq<char> },
    CommandChannelClosed,
    InvalidKey { reason: Seq<char> },
    KeyEncoding { reason: Seq<char> },
    InvalidKeypair { reason: Seq<char> },
    MissingProperty(Seq<char>),
}

impl View for Error {
    type V = ErrorView;

    open spec fn view(&self) -> ErrorView {
        match self {
            Error::DialFailed { peer_id, reason } => ErrorView::DialFailed {
                peer_id: peer_id@,
                reason: reason@,
            },
            Error::NoActiveConnection { peer_id } => ErrorView::NoActiveConnection {
                peer_id: peer_id@,
            },
            Error::CommandChannelClosed => ErrorView::CommandChannelClosed,
            Error::InvalidKey { reason } => ErrorView::InvalidKey { reason: reason@ },
            Error::KeyEncoding { reason } => ErrorView::KeyEncoding { reason: reason@ },
            Error::InvalidKeypair { reason } => ErrorView::InvalidKeypair { reason: reason@ },
            Error::MissingProperty(name) => ErrorView::MissingProperty(name@),
        }
    }
}

/// The outcome of a command as plain values.
pub open spec fn outcome_view(outcome: Result<(), Error>) -> Result<(), ErrorView> {
    match outcome {
        Ok(()) => Ok(()),
        Err(e) => Err(e@),
    }
}

} // verus!
