//! Transports and what they share.

pub mod connection;
pub mod errors;
pub mod serial;
pub mod ssh;
pub mod telnet;

pub use connection::{Connection, ConnectionType};
pub use errors::ConnectionError;
