//! The serial transport's side of each operation that needs no device: what
//! to refuse, and what a finished device call means. A serial line is a raw
//! byte pipe: bytes pass in both directions as they are.

use vstd::prelude::*;
use crate::connections::errors::ConnectionError;

verus! {

/// What a `SerialConnection` is, as plain values.
pub struct SerialView {
    /// The path or name of the device.
    pub port: Seq<char>,
    /// The line speed the device is opened at.
    pub baud: u32,
    /// Whether a live device handle stands behind the transport.
    pub connected: bool,
}

/// A serial transport: the device it talks to, the speed it opens it at, and
/// whether it is connected. Device and speed are fixed when it is made.
#[derive(Debug)]
pub struct SerialConnection {
    port: String,
    baud: u32,
    connected: bool,
}

impl View for SerialConnection {
    type V = SerialView;

    closed spec fn view(&self) -> SerialView {
        SerialView { port: self.port@, baud: self.baud, connected: self.connected }
    }
}

impl SerialConnection {
    /// A transport for the device `port` at `baud`, not yet connected.
    pub fn new(port: String, baud: u32) -> (connection: SerialConnection)
        ensures
            connection@ == (SerialView { port: port@, baud, connected: false }),
    {
        SerialConnection { port, baud, connected: false }
    }

    /// The path or name of the device.
    pub fn port(&self) -> (port: &str)
        ensures
            port@ == self@.port,
    {
        self.port.as_str()
    }

    /// The line speed the device is opened at.
    pub fn baud(&self) -> (baud: u32)
        ensures
            baud == self@.baud,
    {
        self.baud
    }

    /// Whether a live device handle stands behind the transport.
    pub fn is_connected(&self) -> (connected: bool)
        ensures
            connected == self@.connected,
    {
        self.connected
    }

    /// Asks to connect. A connected transport refuses with
    /// `AlreadyConnected`.
    pub fn prepare_connect(&self) -> (outcome: Result<(), ConnectionError>)
        ensures
            outcome == if self@.connected {
                Err::<(), ConnectionError>(ConnectionError::AlreadyConnected)
            } else {
                Ok(())
            },
    {
        if self.connected {
            Err(ConnectionError::AlreadyConnected)
        } else {
            Ok(())
        }
    }

    /// Reports how opening the device ended. On success the transport is
    /// connected. A failure becomes an `IoFault` that keeps the device's
    /// error, and the transport stays as it was. A transport that is
    /// connected already refuses the report with `AlreadyConnected`.
    pub fn complete_connect(&mut self, device: Result<(), std::io::Error>) -> (outcome: Result<
        (),
        ConnectionError,
    >)
        ensures
            outcome == match (old(self)@.connected, device) {
                (true, _) => Err::<(), ConnectionError>(ConnectionError::AlreadyConnected),
                (false, Ok(_)) => Ok(()),
                (false, Err(cause)) => Err(ConnectionError::IoFault(cause)),
            },
            final(self)@ == if outcome is Ok {
                SerialView { connected: true, ..old(self)@ }
            } else {
                old(self)@
            },
    {
        if self.connected {
            return Err(ConnectionError::AlreadyConnected);
        }
        match device {
            Ok(_) => {
                self.connected = true;
                Ok(())
            },
            Err(cause) => Err(ConnectionError::IoFault(cause)),
        }
    }

    /// Gives the device up. Always succeeds; afterwards the transport is not
    /// connected, so writes and reads are refused.
    pub fn disconnect(&mut self) -> (outcome: Result<(), ConnectionError>)
        ensures
            outcome == Ok::<(), ConnectionError>(()),
            final(self)@ == (SerialView { connected: false, ..old(self)@ }),
    {
        self.connected = false;
        Ok(())
    }

    /// Asks to write or to read. Without a connection the answer is
    /// `NotConnected`.
    pub fn prepare_transfer(&self) -> (outcome: Result<(), ConnectionError>)
        ensures
            outcome == if self@.connected {
                Ok::<(), ConnectionError>(())
            } else {
                Err(ConnectionError::NotConnected)
            },
    {
        if self.connected {
            Ok(())
        } else {
            Err(ConnectionError::NotConnected)
        }
    }

    /// Reports how a write to the device or a read from it ended. The count
    /// of bytes that the device took or gave is passed on as it is. A failure
    /// becomes an `IoFault` that keeps the device's error.
    pub fn complete_transfer(&self, device: Result<usize, std::io::Error>) -> (outcome: Result<
        usize,
        ConnectionError,
    >)
        ensures
            outcome == match (self@.connected, device) {
                (false, _) => Err::<usize, ConnectionError>(ConnectionError::NotConnected),
                (true, Ok(count)) => Ok(count),
                (true, Err(cause)) => Err(ConnectionError::IoFault(cause)),
            },
    {
        if !self.connected {
            return Err(ConnectionError::NotConnected);
        }
        match device {
            Ok(count) => Ok(count),
            Err(cause) => Err(ConnectionError::IoFault(cause)),
        }
    }
}

} // verus!
