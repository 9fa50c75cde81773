//! Core of a terminal client: the connection interface, the Telnet wire
//! rules, what each transport decides before and after it touches its socket
//! or device, the life of a managed connection, and the decisions of a
//! command-line session.
//!
//! Nothing here opens a socket, a device, a thread or the terminal: those
//! belong to the program around the library, which reaches a transport
//! through the `Connection` interface.

pub mod connection_manager;
pub mod connections;
pub mod ui;
