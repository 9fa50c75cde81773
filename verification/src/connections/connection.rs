//! The interface every transport offers, whatever carries the bytes.

use vstd::prelude::*;
use crate::connections::errors::ConnectionError;

verus! {

/// A byte-stream connection to a remote or local endpoint.
///
/// The clauses below are the interface's promise. A transport written outside
/// this library is held to them by its author; what this library proves about
/// code that drives a transport is proved from them.
pub trait Connection {
    /// Whether the transport holds a live link.
    spec fn is_connected(&self) -> bool;

    /// Establishes the link. A transport that already holds one, and no
    /// other, refuses with `AlreadyConnected` and keeps it; otherwise the link
    /// is live afterwards exactly if the call succeeded.
    fn connect(&mut self) -> (outcome: Result<(), ConnectionError>)
        ensures
            old(self).is_connected() <==> outcome == Err::<(), ConnectionError>(
                ConnectionError::AlreadyConnected,
            ),
            final(self).is_connected() <==> old(self).is_connected() || outcome is Ok,
    ;

    /// Releases the link. Safe at any time: afterwards there is no live link,
    /// and on a transport that had none the call does nothing and succeeds.
    fn disconnect(&mut self) -> (outcome: Result<(), ConnectionError>)
        ensures
            !final(self).is_connected(),
            !old(self).is_connected() ==> outcome is Ok,
    ;

    /// Hands `data` to the transport and reports how many bytes the transport
    /// accepted in this one call. Without a live link it fails with
    /// `NotConnected`.
    fn write(&mut self, data: &[u8]) -> (outcome: Result<usize, ConnectionError>)
        ensures
            !old(self).is_connected() ==> outcome == Err::<usize, ConnectionError>(
                ConnectionError::NotConnected,
            ) && !final(self).is_connected(),
    ;

    /// Waits for inbound bytes and stores them at the front of `buffer`,
    /// reporting how many. Zero means the peer closed the stream in an orderly
    /// way, never that nothing has arrived yet. Without a live link it fails
    /// with `NotConnected` and leaves `buffer` alone.
    fn read(&mut self, buffer: &mut [u8]) -> (outcome: Result<usize, ConnectionError>)
        ensures
            final(buffer)@.len() == old(buffer)@.len(),
            outcome matches Ok(count) ==> count <= old(buffer)@.len(),
            !old(self).is_connected() ==> outcome == Err::<usize, ConnectionError>(
                ConnectionError::NotConnected,
            ) && !final(self).is_connected() && final(buffer)@ == old(buffer)@,
    ;
}

/// The transports a session can be opened over.
#[derive(Debug, Clone, Copy, PartialEq, Eq, Structural)]
pub enum ConnectionType {
    Serial,
    Telnet,
    SSH,
}

impl ConnectionType {
    /// The transport's name, as it is written in labels and messages.
    pub fn name(self) -> (name: &'static str)
        ensures
            name@ == match self {
                ConnectionType::Serial => "Serial"@,
                ConnectionType::Telnet => "Telnet"@,
                ConnectionType::SSH => "SSH"@,
            },
    {
        match self {
            ConnectionType::Serial => "Serial",
            ConnectionType::Telnet => "Telnet",
            ConnectionType::SSH => "SSH",
        }
    }
}

} // verus!
