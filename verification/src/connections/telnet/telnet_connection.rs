//! The Telnet transport's side of each operation that needs no socket: what
//! to refuse, what to put on the wire, and what a finished socket call means.
//!
//! The program that owns the socket asks before each socket call and reports
//! after it. A connect is `prepare_connect`, the socket's connect, then
//! `complete_connect`; writes and reads go the same way.

use vstd::prelude::*;
use vstd::slice::*;
use vstd::string::*;
use crate::connections::errors::{no_data_detail, ConnectionError};
use crate::connections::telnet::iac::{
    decoded,
    escape,
    escaped,
    unescape,
    unescaped,
    unsupported_command_detail,
    incomplete_command_detail,
    lemma_decoded_no_longer,
    DecoderState,
    TelnetDecoder,
};

verus! {

/// The port that Telnet is served on.
pub const TELNET_PORT: u16 = 23;

/// What a `TelnetConnection` is, as plain values.
pub struct TelnetView {
    /// The host to connect to, without a port.
    pub address: Seq<char>,
    /// The port to connect to.
    pub port: u16,
    /// Whether a live socket stands behind the transport.
    pub connected: bool,
    /// Whether the peer has closed the inbound stream on this socket.
    pub peer_closed: bool,
    /// Where the inbound stream stands between two bytes.
    pub decoder: DecoderState,
}

/// The detail reported when a read claims more bytes than its buffer holds.
pub open spec fn overrun_detail() -> Seq<char> {
    "read reported more bytes than the buffer holds"@
}

/// How a number below ten is written.
pub open spec fn digit(value: nat) -> Seq<char> {
    if value == 0 {
        "0"@
    } else if value == 1 {
        "1"@
    } else if value == 2 {
        "2"@
    } else if value == 3 {
        "3"@
    } else if value == 4 {
        "4"@
    } else if value == 5 {
        "5"@
    } else if value == 6 {
        "6"@
    } else if value == 7 {
        "7"@
    } else if value == 8 {
        "8"@
    } else {
        "9"@
    }
}

/// How a number is written in decimal: its digits, the highest first, with
/// no leading zero.
pub open spec fn decimal(value: nat) -> Seq<char>
    decreases value,
{
    if value < 10 {
        digit(value)
    } else {
        decimal(value / 10) + digit(value % 10)
    }
}

/// The Telnet port is written `23`.
pub proof fn lemma_telnet_port_text()
    ensures
        decimal(TELNET_PORT as nat) == "23"@,
{
    reveal_with_fuel(decimal, 2);
    reveal_strlit("2");
    reveal_strlit("3");
    reveal_strlit("23");
    assert(decimal(23) =~= "23"@);
}

/// The socket address of `address` on `port`: the host, a colon, and the port
/// in decimal.
pub open spec fn socket_address(address: Seq<char>, port: u16) -> Seq<char> {
    address + ":"@ + decimal(port as nat)
}

/// How a number below ten is written.
fn digit_text(value: u16) -> (text: &'static str)
    requires
        value < 10,
    ensures
        text@ == digit(value as nat),
{
    if value == 0 {
        "0"
    } else if value == 1 {
        "1"
    } else if value == 2 {
        "2"
    } else if value == 3 {
        "3"
    } else if value == 4 {
        "4"
    } else if value == 5 {
        "5"
    } else if value == 6 {
        "6"
    } else if value == 7 {
        "7"
    } else if value == 8 {
        "8"
    } else {
        "9"
    }
}

/// Appends `value` in decimal to `text`.
fn append_decimal(text: &mut String, value: u16)
    ensures
        final(text)@ == old(text)@ + decimal(value as nat),
    decreases value,
{
    if value >= 10 {
        append_decimal(text, value / 10);
    }
    text.append(digit_text(value % 10));
}

/// A Telnet transport: the host and port it talks to, whether it is
/// connected, and where its inbound stream stands.
#[derive(Debug)]
pub struct TelnetConnection {
    address: String,
    port: u16,
    connected: bool,
    peer_closed: bool,
    decoder: TelnetDecoder,
}

impl View for TelnetConnection {
    type V = TelnetView;

    closed spec fn view(&self) -> TelnetView {
        TelnetView {
            address: self.address@,
            port: self.port,
            connected: self.connected,
            peer_closed: self.peer_closed,
            decoder: self.decoder.state(),
        }
    }
}

impl TelnetConnection {
    /// A transport for `address` on the Telnet port, not yet connected.
    pub fn new(address: String) -> (connection: TelnetConnection)
        ensures
            connection@ == (TelnetView {
                address: address@,
                port: TELNET_PORT,
                connected: false,
                peer_closed: false,
                decoder: DecoderState::Data,
            }),
    {
        TelnetConnection {
            address,
            port: TELNET_PORT,
            connected: false,
            peer_closed: false,
            decoder: TelnetDecoder::new(),
        }
    }

    /// A transport for `address` on a port of the caller's choice, not yet
    /// connected.
    pub fn with_port(address: String, port: u16) -> (connection: TelnetConnection)
        ensures
            connection@ == (TelnetView {
                address: address@,
                port,
                connected: false,
                peer_closed: false,
                decoder: DecoderState::Data,
            }),
    {
        TelnetConnection {
            address,
            port,
            connected: false,
            peer_closed: false,
            decoder: TelnetDecoder::new(),
        }
    }

    /// Escapes IAC (255) bytes in the data by doubling them, as the Telnet
    /// protocol requires.
    pub fn escape_iac(data: &[u8]) -> (wire: Vec<u8>)
        ensures
            wire@ == escaped(data@),
    {
        escape(data)
    }

    /// Undoes `escape_iac` on a complete message.
    pub fn unescape_iac(wire: &[u8]) -> (outcome: Result<Vec<u8>, ConnectionError>)
        ensures
            match unescaped(wire@) {
                Some(data) => outcome matches Ok(bytes) && bytes@ == data,
                None => outcome matches Err(ConnectionError::ProtocolViolation(detail))
                    && detail@ == if decoded(DecoderState::Data, wire@) is None {
                    unsupported_command_detail()
                } else {
                    incomplete_command_detail()
                },
            },
    {
        unescape(wire)
    }

    /// The host this transport talks to.
    pub fn address(&self) -> (address: &str)
        ensures
            address@ == self@.address,
    {
        self.address.as_str()
    }

    /// The port this transport talks to.
    pub fn port(&self) -> (port: u16)
        ensures
            port == self@.port,
    {
        self.port
    }

    /// Whether a live socket stands behind the transport.
    pub fn is_connected(&self) -> (connected: bool)
        ensures
            connected == self@.connected,
    {
        self.connected
    }

    /// Whether the peer has closed the inbound stream on this socket.
    pub fn peer_closed(&self) -> (closed: bool)
        ensures
            closed == self@.peer_closed,
    {
        self.peer_closed
    }

    /// The socket address to connect to: the host, a colon, and the port in
    /// decimal. On the Telnet port that is the host and `:23`.
    pub fn endpoint(&self) -> (endpoint: String)
        ensures
            endpoint@ == socket_address(self@.address, self@.port),
            self@.port == TELNET_PORT ==> endpoint@ == self@.address + ":23"@,
    {
        let mut endpoint = self.address.clone().concat(":");
        append_decimal(&mut endpoint, self.port);
        proof {
            lemma_telnet_port_text();
            if self.port == TELNET_PORT {
                assert(endpoint@ == self@.address + ":23"@) by {
                    reveal_strlit(":");
                    reveal_strlit("23");
                    reveal_strlit(":23");
                    assert(self@.address + ":"@ + "23"@ =~= self@.address + ":23"@);
                }
            }
        }
        endpoint
    }

    /// Asks to connect. A connected transport refuses with
    /// `AlreadyConnected`; otherwise the answer is the socket address to
    /// connect to.
    pub fn prepare_connect(&self) -> (outcome: Result<String, ConnectionError>)
        ensures
            self@.connected ==> outcome == Err::<String, ConnectionError>(
                ConnectionError::AlreadyConnected,
            ),
            !self@.connected ==> (outcome matches Ok(endpoint) && endpoint@ == socket_address(
                self@.address,
                self@.port,
            )),
            !self@.connected && self@.port == TELNET_PORT ==> (outcome matches Ok(endpoint)
                && endpoint@ == self@.address + ":23"@),
    {
        if self.connected {
            Err(ConnectionError::AlreadyConnected)
        } else {
            Ok(self.endpoint())
        }
    }

    /// Reports how the socket's connect ended. On success the transport is
    /// connected and its inbound stream starts between commands, open. A failure
    /// becomes an `IoFault` that keeps the socket's error, and the transport
    /// stays as it was. A transport that is connected already refuses the
    /// report with `AlreadyConnected`.
    pub fn complete_connect(&mut self, socket: Result<(), std::io::Error>) -> (outcome: Result<
        (),
        ConnectionError,
    >)
        ensures
            outcome == match (old(self)@.connected, socket) {
                (true, _) => Err::<(), ConnectionError>(ConnectionError::AlreadyConnected),
                (false, Ok(_)) => Ok(()),
                (false, Err(cause)) => Err(ConnectionError::IoFault(cause)),
            },
            final(self)@ == if outcome is Ok {
                TelnetView {
                    connected: true,
                    peer_closed: false,
                    decoder: DecoderState::Data,
                    ..old(self)@
                }
            } else {
                old(self)@
            },
    {
        if self.connected {
            return Err(ConnectionError::AlreadyConnected);
        }
        match socket {
            Ok(_) => {
                self.connected = true;
                self.peer_closed = false;
                self.decoder = TelnetDecoder::new();
                Ok(())
            },
            Err(cause) => Err(ConnectionError::IoFault(cause)),
        }
    }

    /// Gives the socket up. Always succeeds; afterwards the transport is not
    /// connected, so writes and reads are refused.
    pub fn disconnect(&mut self) -> (outcome: Result<(), ConnectionError>)
        ensures
            outcome == Ok::<(), ConnectionError>(()),
            final(self)@ == (TelnetView { connected: false, ..old(self)@ }),
    {
        self.connected = false;
        Ok(())
    }

    /// Asks to write `data`. Without a connection the answer is
    /// `NotConnected`; otherwise it is the bytes to put on the wire, `data`
    /// with every 255 doubled.
    pub fn prepare_write(&self, data: &[u8]) -> (outcome: Result<Vec<u8>, ConnectionError>)
        ensures
            !self@.connected ==> outcome == Err::<Vec<u8>, ConnectionError>(
                ConnectionError::NotConnected,
            ),
            self@.connected ==> (outcome matches Ok(wire) && wire@ == escaped(data@)),
    {
        if self.connected {
            Ok(escape(data))
        } else {
            Err(ConnectionError::NotConnected)
        }
    }

    /// Reports how sending `wire` ended. A write that went through counts the
    /// bytes put on the wire, escapes included, not the bytes the caller
    /// handed in. A failure becomes an `IoFault` that keeps the socket's
    /// error.
    pub fn complete_write(&self, wire: &[u8], socket: Result<(), std::io::Error>) -> (outcome:
        Result<usize, ConnectionError>)
        ensures
            outcome == match (self@.connected, socket) {
                (false, _) => Err::<usize, ConnectionError>(ConnectionError::NotConnected),
                (true, Ok(_)) => Ok(wire@.len() as usize),
                (true, Err(cause)) => Err(ConnectionError::IoFault(cause)),
            },
    {
        if !self.connected {
            return Err(ConnectionError::NotConnected);
        }
        match socket {
            Ok(_) => Ok(wire.len()),
            Err(cause) => Err(ConnectionError::IoFault(cause)),
        }
    }

    /// Asks to read. Without a connection the answer is `NotConnected`. Once
    /// the peer has closed the stream the answer is `PeerClosed`, so that the
    /// socket is not read again and no byte follows the close.
    pub fn prepare_read(&self) -> (outcome: Result<(), ConnectionError>)
        ensures
            outcome == if !self@.connected {
                Err::<(), ConnectionError>(ConnectionError::NotConnected)
            } else if self@.peer_closed {
                Err(ConnectionError::PeerClosed)
            } else {
                Ok(())
            },
    {
        if !self.connected {
            Err(ConnectionError::NotConnected)
        } else if self.peer_closed {
            Err(ConnectionError::PeerClosed)
        } else {
            Ok(())
        }
    }

    /// Reports how the socket's read into `buffer` ended, and turns what
    /// arrived into data.
    ///
    /// A socket error becomes an `IoFault` that keeps it. A read of no bytes
    /// means the peer closed the stream: `PeerClosed`, and from then on, until
    /// the transport is connected anew, every report is answered `PeerClosed`
    /// and delivers nothing, whatever the socket said. Otherwise the bytes
    /// that arrived, the first `count` of `buffer`, are decoded where the
    /// inbound stream stands: doubled 255s collapse, negotiation is dropped.
    /// The data bytes are moved to the front of `buffer` and counted; the rest
    /// of `buffer` keeps what it held. A byte that breaks the rules gives
    /// `ProtocolViolation`, and the stream starts afresh between commands.
    /// Where bytes arrived but none of them was data, the answer is the
    /// transient error of `ConnectionError::no_data_yet`: zero is never
    /// reported.
    pub fn complete_read(
        &mut self,
        socket: Result<usize, std::io::Error>,
        buffer: &mut [u8],
    ) -> (outcome: Result<usize, ConnectionError>)
        ensures
            final(buffer)@.len() == old(buffer)@.len(),
            !old(self)@.connected ==> {
                &&& outcome == Err::<usize, ConnectionError>(ConnectionError::NotConnected)
                &&& final(self)@ == old(self)@
                &&& final(buffer)@ == old(buffer)@
            },
            old(self)@.connected && old(self)@.peer_closed ==> {
                &&& outcome == Err::<usize, ConnectionError>(ConnectionError::PeerClosed)
                &&& final(self)@ == old(self)@
                &&& final(buffer)@ == old(buffer)@
            },
            old(self)@.connected && !old(self)@.peer_closed ==> match socket {
                Err(cause) => {
                    &&& outcome == Err::<usize, ConnectionError>(ConnectionError::IoFault(cause))
                    &&& final(self)@ == old(self)@
                    &&& final(buffer)@ == old(buffer)@
                },
                Ok(count) => if count == 0 {
                    &&& outcome == Err::<usize, ConnectionError>(ConnectionError::PeerClosed)
                    &&& final(self)@ == (TelnetView { peer_closed: true, ..old(self)@ })
                    &&& final(buffer)@ == old(buffer)@
                } else if count > old(buffer)@.len() {
                    &&& outcome matches Err(ConnectionError::Other(detail))
                    &&& detail@ == overrun_detail()
                    &&& final(self)@ == old(self)@
                    &&& final(buffer)@ == old(buffer)@
                } else {
                    match decoded(old(self)@.decoder, old(buffer)@.subrange(0, count as int)) {
                        None => {
                            &&& outcome matches Err(ConnectionError::ProtocolViolation(detail))
                            &&& detail@ == unsupported_command_detail()
                            &&& final(self)@ == (TelnetView {
                                decoder: DecoderState::Data,
                                ..old(self)@
                            })
                            &&& final(buffer)@ == old(buffer)@
                        },
                        Some((next, data)) => {
                            &&& final(self)@ == (TelnetView { decoder: next, ..old(self)@ })
                            &&& if data.len() == 0 {
                                &&& outcome matches Err(ConnectionError::Other(detail))
                                &&& detail@ == no_data_detail()
                                &&& final(buffer)@ == old(buffer)@
                            } else {
                                &&& outcome == Ok::<usize, ConnectionError>(data.len() as usize)
                                &&& final(buffer)@ == data + old(buffer)@.subrange(
                                    data.len() as int,
                                    old(buffer)@.len() as int,
                                )
                            }
                        },
                    }
                },
            },
    {
        if !self.connected {
            return Err(ConnectionError::NotConnected);
        }
        if self.peer_closed {
            return Err(ConnectionError::PeerClosed);
        }
        match socket {
            Err(cause) => Err(ConnectionError::IoFault(cause)),
            Ok(count) => {
                if count == 0 {
                    self.peer_closed = true;
                    return Err(ConnectionError::PeerClosed);
                }
                if count > buffer.len() {
                    return Err(
                        ConnectionError::Other(
                            String::from_str("read reported more bytes than the buffer holds"),
                        ),
                    );
                }
                let data = self.decoder.feed(slice_subrange(buffer, 0, count))?;
                proof {
                    lemma_decoded_no_longer(
                        old(self)@.decoder,
                        old(buffer)@.subrange(0, count as int),
                    );
                }
                if data.len() == 0 {
                    return Err(ConnectionError::no_data_yet());
                }
                let mut i: usize = 0;
                while i < data.len()
                    invariant
                        i <= data.len() <= buffer@.len(),
                        buffer@.len() == old(buffer)@.len(),
                        buffer@ == data@.subrange(0, i as int) + old(buffer)@.subrange(
                            i as int,
                            old(buffer)@.len() as int,
                        ),
                    decreases data.len() - i,
                {
                    buffer[i] = data[i];
                    i += 1;
                }
                proof {
                    assert(data@.subrange(0, i as int) == data@);
                }
                Ok(data.len())
            },
        }
    }
}

} // verus!
