//! The decisions of a command-line session: which connection the arguments
//! ask for, what each key typed at the terminal does, and how an inbound byte
//! is shown.

use vstd::prelude::*;
use vstd::string::*;
use crate::connections::connection::ConnectionType;
use crate::connections::errors::ConnectionError;

verus! {

/// The baud rate used when none is given.
pub const DEFAULT_BAUD: u32 = 115200;

/// Ctrl+A, the key that introduces a command to the session itself.
pub const CTRL_A: u8 = 0x01;

/// The key that, typed after Ctrl+A, ends the session.
pub const QUIT_KEY: u8 = 0x78;

/// The command-line arguments, as parsed.
#[derive(Debug)]
pub struct Args {
    /// Launch in GUI mode.
    pub gui: bool,
    /// Serial port to open, such as `/dev/ttyUSB0` or `COM3`.
    pub port: Option<String>,
    /// Baud rate of the serial port.
    pub baud: u32,
    /// The transport to open the session over.
    pub connection_type: ConnectionType,
    /// Host to connect to over the network.
    pub address: Option<String>,
}

/// What a session is to do, decided from the arguments alone.
#[derive(Debug)]
pub enum SessionPlan {
    /// Open the serial port `port` at `baud` and register it under its name.
    Serial { port: String, baud: u32 },
    /// Connect to `address` over Telnet and register it under `label`.
    Telnet { address: String, label: String },
    /// A serial session was asked for without a port.
    MissingPort,
    /// A Telnet session was asked for without an address.
    MissingAddress,
    /// The transport asked for is not available.
    Unsupported,
}

/// What a key typed at the terminal does.
#[derive(Debug, Clone, Copy, PartialEq, Eq, Structural)]
pub enum KeyAction {
    /// Nothing yet: the key is kept back as the start of a command.
    Hold,
    /// End the session.
    Quit,
    /// Send this byte to the connection.
    Send(u8),
}

/// What a key does, given whether Ctrl+A was the key before it, and whether
/// Ctrl+A counts as the key before the next one.
///
/// Ctrl+A is never sent. Ctrl+A and then `x` ends the session. Any other key
/// is sent, also after Ctrl+A.
pub open spec fn key_step(armed: bool, key: u8) -> (bool, KeyAction) {
    if key == CTRL_A {
        (true, KeyAction::Hold)
    } else if armed && key == QUIT_KEY {
        (false, KeyAction::Quit)
    } else {
        (false, KeyAction::Send(key))
    }
}

/// Watches the keys typed at the terminal for the sequence that ends the
/// session.
#[derive(Debug, Clone, Copy)]
pub struct EscapeWatch {
    armed: bool,
}

impl EscapeWatch {
    /// Whether Ctrl+A was the last key.
    pub closed spec fn armed(self) -> bool {
        self.armed
    }

    /// A watch at the start of a session: no key has been typed.
    pub fn new() -> (watch: EscapeWatch)
        ensures
            !watch.armed(),
    {
        EscapeWatch { armed: false }
    }

    /// Whether Ctrl+A was the last key.
    pub fn is_armed(&self) -> (armed: bool)
        ensures
            armed == self.armed(),
    {
        self.armed
    }

    /// Takes the next key typed and says what it does.
    pub fn step(&mut self, key: u8) -> (action: KeyAction)
        ensures
            (final(self).armed(), action) == key_step(old(self).armed(), key),
    {
        if key == CTRL_A {
            self.armed = true;
            KeyAction::Hold
        } else if self.armed && key == QUIT_KEY {
            self.armed = false;
            KeyAction::Quit
        } else {
            self.armed = false;
            KeyAction::Send(key)
        }
    }
}

/// Decides from the arguments what the session is to do.
///
/// A serial session needs a port and takes the baud rate as given. A Telnet
/// session needs an address and is registered under the name of its
/// transport. SSH is not available.
pub fn plan_session(args: Args) -> (plan: SessionPlan)
    ensures
        match args.connection_type {
            ConnectionType::Serial => match args.port {
                Some(port) => plan == (SessionPlan::Serial { port, baud: args.baud }),
                None => plan == SessionPlan::MissingPort,
            },
            ConnectionType::Telnet => match args.address {
                Some(address) => {
                    &&& plan matches SessionPlan::Telnet { address: target, label }
                    &&& target == address
                    &&& label@ == "Telnet"@
                },
                None => plan == SessionPlan::MissingAddress,
            },
            ConnectionType::SSH => plan == SessionPlan::Unsupported,
        },
{
    match args.connection_type {
        ConnectionType::Serial => match args.port {
            Some(port) => SessionPlan::Serial { port, baud: args.baud },
            None => SessionPlan::MissingPort,
        },
        ConnectionType::Telnet => match args.address {
            Some(address) => SessionPlan::Telnet {
                address,
                label: String::from_str(ConnectionType::Telnet.name()),
            },
            None => SessionPlan::MissingAddress,
        },
        ConnectionType::SSH => SessionPlan::Unsupported,
    }
}

/// The character shown for an inbound byte: the one with the byte's value as
/// its code point. A carriage return is shown as itself.
pub fn echo(byte: u8) -> (shown: char)
    ensures
        shown == byte as char,
{
    byte as char
}

/// The error reported when the terminal cannot be put into raw mode, from the
/// terminal's own account of the failure.
pub fn raw_mode_failure(cause: &str) -> (error: ConnectionError)
    ensures
        error matches ConnectionError::Other(message) && message@
            == "Failed to enable raw mode: "@ + cause@,
{
    ConnectionError::Other(String::from_str("Failed to enable raw mode: ").concat(cause))
}

} // verus!
