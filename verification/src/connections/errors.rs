//! What can go wrong on a connection.

use vstd::prelude::*;
use vstd::string::*;

verus! {

/// `std::io::Error`, the platform's I/O error. It is carried through
/// unopened: nothing is stated of what it holds.
#[verifier::external_type_specification]
#[verifier::external_body]
pub struct ExIoError(std::io::Error);

/// The ways an operation on a connection fails.
#[derive(Debug)]
pub enum ConnectionError {
    /// The transport has no live link: it was never connected, or it was
    /// disconnected or stopped since.
    NotConnected,
    /// `connect` was called on a transport that already holds a live link.
    AlreadyConnected,
    /// The remote side ended the stream in an orderly way.
    PeerClosed,
    /// The platform reported a fault; its error is kept whole.
    IoFault(std::io::Error),
    /// The bytes received break the transport's framing rules.
    ProtocolViolation(String),
    /// Anything else, with a message.
    Other(String),
}

/// The message of the error that stands for "nothing has arrived yet".
pub open spec fn no_data_detail() -> Seq<char> {
    "no data available yet"@
}

impl ConnectionError {
    /// The error a read reports when it has waited its time and nothing has
    /// arrived, or when what arrived held no data. A read never reports zero
    /// bytes for that: zero means that the peer closed the stream. The error
    /// is transient, so a read path that meets it reads again.
    pub fn no_data_yet() -> (error: ConnectionError)
        ensures
            error matches ConnectionError::Other(message) && message@ == no_data_detail(),
            error.transient(),
    {
        ConnectionError::Other(String::from_str("no data available yet"))
    }

    /// Whether a read that failed this way may simply be tried again: the
    /// stream is still there, only this attempt gave nothing usable.
    pub open spec fn transient(self) -> bool {
        self is ProtocolViolation || self is Other
    }

    /// Whether a read that failed this way may simply be tried again.
    pub fn is_transient(&self) -> (transient: bool)
        ensures
            transient == self.transient(),
    {
        match self {
            ConnectionError::ProtocolViolation(_) => true,
            ConnectionError::Other(_) => true,
            _ => false,
        }
    }
}

impl From<std::io::Error> for ConnectionError {
    fn from(cause: std::io::Error) -> (error: ConnectionError) {
        ConnectionError::IoFault(cause)
    }
}

impl vstd::std_specs::convert::FromSpecImpl<std::io::Error> for ConnectionError {
    open spec fn obeys_from_spec() -> bool {
        true
    }

    open spec fn from_spec(cause: std::io::Error) -> ConnectionError {
        ConnectionError::IoFault(cause)
    }
}

} // verus!
