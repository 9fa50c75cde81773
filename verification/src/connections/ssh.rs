//! The SSH transport's side of each operation that needs no session: what to
//! refuse, how a failed handshake is reported, and what a finished channel
//! call means.

use vstd::prelude::*;
use vstd::string::*;
use crate::connections::errors::ConnectionError;

verus! {

/// How setting up an SSH session failed: at which of its three steps, and
/// with what.
#[derive(Debug)]
pub enum HandshakeFailure {
    /// The host could not be reached; the platform's error says why.
    Unreachable(std::io::Error),
    /// The host was reached and rejected the credentials.
    AuthenticationRejected(String),
    /// The session stands, and the host refused to open a channel on it.
    ChannelRefused(String),
}

/// What an `SshConnection` is, as plain values.
pub struct SshView {
    /// The host to connect to.
    pub address: Seq<char>,
    /// The name under which the credentials are kept elsewhere.
    pub credentials: Seq<char>,
    /// Whether a live session with an open channel stands behind the
    /// transport.
    pub connected: bool,
}

/// An SSH transport: the host it talks to, a reference to the credentials it
/// presents, and whether it is connected. The credentials themselves are
/// never held here.
#[derive(Debug)]
pub struct SshConnection {
    address: String,
    credentials: String,
    connected: bool,
}

impl View for SshConnection {
    type V = SshView;

    closed spec fn view(&self) -> SshView {
        SshView {
            address: self.address@,
            credentials: self.credentials@,
            connected: self.connected,
        }
    }
}

impl SshConnection {
    /// A transport for `address` that presents the credentials kept under
    /// `credentials`, not yet connected.
    pub fn new(address: String, credentials: String) -> (connection: SshConnection)
        ensures
            connection@ == (SshView {
                address: address@,
                credentials: credentials@,
                connected: false,
            }),
    {
        SshConnection { address, credentials, connected: false }
    }

    /// The host this transport talks to.
    pub fn address(&self) -> (address: &str)
        ensures
            address@ == self@.address,
    {
        self.address.as_str()
    }

    /// The name under which the credentials are kept.
    pub fn credentials(&self) -> (credentials: &str)
        ensures
            credentials@ == self@.credentials,
    {
        self.credentials.as_str()
    }

    /// Whether a live session with an open channel stands behind the
    /// transport.
    pub fn is_connected(&self) -> (connected: bool)
        ensures
            connected == self@.connected,
    {
        self.connected
    }

    /// Asks to connect. A connected transport refuses with
    /// `AlreadyConnected`.
    pub fn prepare_connect(&self) -> (outcome: Result<(), ConnectionError>)
        ensures
            outcome == if self@.connected {
                Err::<(), ConnectionError>(ConnectionError::AlreadyConnected)
            } else {
                Ok(())
            },
    {
        if self.connected {
            Err(ConnectionError::AlreadyConnected)
        } else {
            Ok(())
        }
    }

    /// Reports how the handshake ended. On success the transport is
    /// connected. Each step that can fail is reported in a way of its own, so
    /// that the three can be told apart: an unreachable host as an `IoFault`
    /// that keeps the platform's error, rejected credentials and a refused
    /// channel as `Other` with a message that names the step and then gives
    /// the host's reason. After a failure the transport stays as it was. A
    /// transport that is connected already refuses the report with
    /// `AlreadyConnected`.
    pub fn complete_connect(&mut self, handshake: Result<(), HandshakeFailure>) -> (outcome:
        Result<(), ConnectionError>)
        ensures
            old(self)@.connected ==> outcome == Err::<(), ConnectionError>(
                ConnectionError::AlreadyConnected,
            ),
            !old(self)@.connected ==> match handshake {
                Ok(_) => outcome == Ok::<(), ConnectionError>(()),
                Err(HandshakeFailure::Unreachable(cause)) => outcome == Err::<
                    (),
                    ConnectionError,
                >(ConnectionError::IoFault(cause)),
                Err(HandshakeFailure::AuthenticationRejected(reason)) => {
                    &&& outcome matches Err(ConnectionError::Other(message))
                    &&& message@ == "authentication rejected: "@ + reason@
                },
                Err(HandshakeFailure::ChannelRefused(reason)) => {
                    &&& outcome matches Err(ConnectionError::Other(message))
                    &&& message@ == "channel open refused: "@ + reason@
                },
            },
            final(self)@ == if outcome is Ok {
                SshView { connected: true, ..old(self)@ }
            } else {
                old(self)@
            },
    {
        if self.connected {
            return Err(ConnectionError::AlreadyConnected);
        }
        match handshake {
            Ok(_) => {
                self.connected = true;
                Ok(())
            },
            Err(HandshakeFailure::Unreachable(cause)) => Err(ConnectionError::IoFault(cause)),
            Err(HandshakeFailure::AuthenticationRejected(reason)) => Err(
                ConnectionError::Other(
                    String::from_str("authentication rejected: ").concat(reason.as_str()),
                ),
            ),
            Err(HandshakeFailure::ChannelRefused(reason)) => Err(
                ConnectionError::Other(
                    String::from_str("channel open refused: ").concat(reason.as_str()),
                ),
            ),
        }
    }

    /// Gives the session up. Always succeeds; afterwards the transport is not
    /// connected, so writes and reads are refused.
    pub fn disconnect(&mut self) -> (outcome: Result<(), ConnectionError>)
        ensures
            outcome == Ok::<(), ConnectionError>(()),
            final(self)@ == (SshView { connected: false, ..old(self)@ }),
    {
        self.connected = false;
        Ok(())
    }

    /// Asks to write or to read. Without a connection the answer is
    /// `NotConnected`.
    pub fn prepare_transfer(&self) -> (outcome: Result<(), ConnectionError>)
        ensures
            outcome == if self@.connected {
                Ok::<(), ConnectionError>(())
            } else {
                Err(ConnectionError::NotConnected)
            },
    {
        if self.connected {
            Ok(())
        } else {
            Err(ConnectionError::NotConnected)
        }
    }

    /// Reports how a write to the channel ended. The count of bytes that the
    /// channel took is passed on as it is. A failure becomes an `IoFault`
    /// that keeps the channel's error.
    pub fn complete_write(&self, channel: Result<usize, std::io::Error>) -> (outcome: Result<
        usize,
        ConnectionError,
    >)
        ensures
            outcome == match (self@.connected, channel) {
                (false, _) => Err::<usize, ConnectionError>(ConnectionError::NotConnected),
                (true, Ok(count)) => Ok(count),
                (true, Err(cause)) => Err(ConnectionError::IoFault(cause)),
            },
    {
        if !self.connected {
            return Err(ConnectionError::NotConnected);
        }
        match channel {
            Ok(count) => Ok(count),
            Err(cause) => Err(ConnectionError::IoFault(cause)),
        }
    }

    /// Reports how a read from the channel ended, and whether the remote side
    /// has closed the channel. Bytes that the read brought are counted and
    /// passed on, also on a closed channel, so that nothing that arrived is
    /// lost. A read of no bytes is the end of the stream: `PeerClosed`. A
    /// read that failed gives `PeerClosed` where the remote side has closed
    /// the channel, and only otherwise an `IoFault` that keeps the channel's
    /// error.
    pub fn complete_read(
        &self,
        channel: Result<usize, std::io::Error>,
        remote_closed: bool,
    ) -> (outcome: Result<usize, ConnectionError>)
        ensures
            outcome == if !self@.connected {
                Err::<usize, ConnectionError>(ConnectionError::NotConnected)
            } else {
                match channel {
                    Ok(count) => if count == 0 {
                        Err(ConnectionError::PeerClosed)
                    } else {
                        Ok(count)
                    },
                    Err(cause) => if remote_closed {
                        Err(ConnectionError::PeerClosed)
                    } else {
                        Err(ConnectionError::IoFault(cause))
                    },
                }
            },
    {
        if !self.connected {
            return Err(ConnectionError::NotConnected);
        }
        match channel {
            Ok(count) => {
                if count == 0 {
                    Err(ConnectionError::PeerClosed)
                } else {
                    Ok(count)
                }
            },
            Err(cause) => {
                if remote_closed {
                    Err(ConnectionError::PeerClosed)
                } else {
                    Err(ConnectionError::IoFault(cause))
                }
            },
        }
    }
}

} // verus!
