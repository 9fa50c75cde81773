//! Telnet over TCP: the IAC wire rules and the transport's state.

pub mod iac;
pub mod telnet_connection;

pub use telnet_connection::TelnetConnection;
