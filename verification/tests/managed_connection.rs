use putty_rs::connection_manager::{
    settle_read, settle_registration, ManagedConnection, Phase, ReadStep, StopReason,
    READ_BUFFER_SIZE,
};
use putty_rs::connections::telnet::TelnetConnection;
use putty_rs::connections::{Connection, ConnectionError};
use std::cell::RefCell;
use std::collections::VecDeque;
use std::io::{Error, ErrorKind};
use std::rc::Rc;

#[derive(Default)]
struct Journal {
    connects: usize,
    disconnects: usize,
    reads: usize,
    writes: Vec<Vec<u8>>,
}

enum Inbound {
    Bytes(Vec<u8>),
    Fails(ConnectionError),
}

struct Scripted {
    live: bool,
    refuse_connect: Option<ErrorKind>,
    inbound: VecDeque<Inbound>,
    journal: Rc<RefCell<Journal>>,
}

impl Scripted {
    fn new(inbound: Vec<Inbound>) -> (Scripted, Rc<RefCell<Journal>>) {
        let journal = Rc::new(RefCell::new(Journal::default()));
        let transport = Scripted {
            live: false,
            refuse_connect: None,
            inbound: inbound.into(),
            journal: Rc::clone(&journal),
        };
        (transport, journal)
    }
}

impl Connection for Scripted {
    fn is_connected(&self) -> bool {
        self.live
    }

    fn connect(&mut self) -> Result<(), ConnectionError> {
        self.journal.borrow_mut().connects += 1;
        if self.live {
            return Err(ConnectionError::AlreadyConnected);
        }
        if let Some(kind) = self.refuse_connect {
            return Err(ConnectionError::IoFault(Error::new(kind, "cannot resolve the address")));
        }
        self.live = true;
        Ok(())
    }

    fn disconnect(&mut self) -> Result<(), ConnectionError> {
        self.journal.borrow_mut().disconnects += 1;
        self.live = false;
        Ok(())
    }

    fn write(&mut self, data: &[u8]) -> Result<usize, ConnectionError> {
        if !self.live {
            return Err(ConnectionError::NotConnected);
        }
        self.journal.borrow_mut().writes.push(data.to_vec());
        Ok(data.len())
    }

    fn read(&mut self, buffer: &mut [u8]) -> Result<usize, ConnectionError> {
        if !self.live {
            return Err(ConnectionError::NotConnected);
        }
        self.journal.borrow_mut().reads += 1;
        match self.inbound.pop_front() {
            Some(Inbound::Bytes(bytes)) => {
                buffer[..bytes.len()].copy_from_slice(&bytes);
                Ok(bytes.len())
            }
            Some(Inbound::Fails(error)) => Err(error),
            None => Ok(0),
        }
    }
}

/// A Telnet transport over a wire held in memory.
struct TelnetOverMemory {
    state: TelnetConnection,
    wire: Rc<RefCell<Vec<u8>>>,
    resolves: bool,
}

impl Connection for TelnetOverMemory {
    fn is_connected(&self) -> bool {
        self.state.is_connected()
    }

    fn connect(&mut self) -> Result<(), ConnectionError> {
        self.state.prepare_connect()?;
        let socket = if self.resolves {
            Ok(())
        } else {
            Err(Error::new(ErrorKind::NotFound, "failed to lookup address information"))
        };
        self.state.complete_connect(socket)
    }

    fn disconnect(&mut self) -> Result<(), ConnectionError> {
        self.state.disconnect()
    }

    fn write(&mut self, data: &[u8]) -> Result<usize, ConnectionError> {
        let wire = self.state.prepare_write(data)?;
        self.wire.borrow_mut().extend_from_slice(&wire);
        self.state.complete_write(&wire, Ok(()))
    }

    fn read(&mut self, buffer: &mut [u8]) -> Result<usize, ConnectionError> {
        self.state.prepare_read()?;
        self.state.complete_read(Ok(0), buffer)
    }
}

fn telnet_over_memory(resolves: bool) -> (TelnetOverMemory, Rc<RefCell<Vec<u8>>>) {
    let wire = Rc::new(RefCell::new(Vec::new()));
    let transport = TelnetOverMemory {
        state: TelnetConnection::new("example.org".to_string()),
        wire: Rc::clone(&wire),
        resolves,
    };
    (transport, wire)
}

fn registered(inbound: Vec<Inbound>) -> (ManagedConnection<Scripted>, Rc<RefCell<Journal>>) {
    let (transport, journal) = Scripted::new(inbound);
    let record = ManagedConnection::register("test".to_string(), transport)
        .expect("the scripted transport connects");
    (record, journal)
}

fn io_fault(kind: ErrorKind) -> ConnectionError {
    ConnectionError::IoFault(Error::new(kind, "scripted fault"))
}

#[test]
fn registration_passes_success_and_an_earlier_connect() {
    assert!(matches!(settle_registration(Ok(())), Ok(())));
    assert!(matches!(settle_registration(Err(ConnectionError::AlreadyConnected)), Ok(())));
}

#[test]
fn registration_passes_every_other_failure_on() {
    assert!(matches!(
        settle_registration(Err(ConnectionError::NotConnected)),
        Err(ConnectionError::NotConnected)
    ));
    assert!(matches!(
        settle_registration(Err(ConnectionError::PeerClosed)),
        Err(ConnectionError::PeerClosed)
    ));
    assert!(matches!(
        settle_registration(Err(io_fault(ErrorKind::NotFound))),
        Err(ConnectionError::IoFault(ref cause)) if cause.kind() == ErrorKind::NotFound
    ));
    assert!(matches!(
        settle_registration(Err(ConnectionError::Other("x".to_string()))),
        Err(ConnectionError::Other(ref message)) if message == "x"
    ));
    assert!(matches!(
        settle_registration(Err(ConnectionError::ProtocolViolation("y".to_string()))),
        Err(ConnectionError::ProtocolViolation(ref detail)) if detail == "y"
    ));
}

#[test]
fn settled_read_delivers_the_front_of_the_buffer() {
    let buffer = [10u8, 20, 30, 40];
    assert!(matches!(settle_read(Ok(3), &buffer), ReadStep::Deliver(ref b) if b == &[10, 20, 30]));
    assert!(matches!(settle_read(Ok(4), &buffer), ReadStep::Deliver(ref b) if b == &buffer));
    assert!(matches!(settle_read(Ok(1), &buffer), ReadStep::Deliver(ref b) if b == &[10]));
}

#[test]
fn settled_read_of_no_bytes_is_the_orderly_end() {
    assert!(matches!(settle_read(Ok(0), &[1, 2]), ReadStep::Stop(StopReason::PeerClosed)));
    assert!(matches!(
        settle_read(Err(ConnectionError::PeerClosed), &[1, 2]),
        ReadStep::Stop(StopReason::PeerClosed)
    ));
}

#[test]
fn settled_read_beyond_the_buffer_ends_the_path() {
    assert!(matches!(settle_read(Ok(3), &[1, 2]), ReadStep::Stop(StopReason::Overrun)));
    assert!(matches!(settle_read(Ok(1), &[]), ReadStep::Stop(StopReason::Overrun)));
}

#[test]
fn settled_read_ends_the_path_on_a_fault() {
    assert!(matches!(
        settle_read(Err(io_fault(ErrorKind::ConnectionReset)), &[0; 4]),
        ReadStep::Stop(StopReason::Fault(ConnectionError::IoFault(ref cause)))
            if cause.kind() == ErrorKind::ConnectionReset
    ));
    assert!(matches!(
        settle_read(Err(ConnectionError::NotConnected), &[0; 4]),
        ReadStep::Stop(StopReason::Fault(ConnectionError::NotConnected))
    ));
    assert!(matches!(
        settle_read(Err(ConnectionError::AlreadyConnected), &[0; 4]),
        ReadStep::Stop(StopReason::Fault(ConnectionError::AlreadyConnected))
    ));
}

#[test]
fn settled_read_asks_again_after_a_transient_error() {
    assert!(matches!(
        settle_read(Err(ConnectionError::Other("no data available yet".to_string())), &[0; 4]),
        ReadStep::Retry(ConnectionError::Other(ref message)) if message == "no data available yet"
    ));
    assert!(matches!(
        settle_read(Err(ConnectionError::ProtocolViolation("bad".to_string())), &[0; 4]),
        ReadStep::Retry(ConnectionError::ProtocolViolation(ref detail)) if detail == "bad"
    ));
}

#[test]
fn transient_errors_are_the_two_that_leave_the_stream_standing() {
    assert!(ConnectionError::Other(String::new()).is_transient());
    assert!(ConnectionError::ProtocolViolation(String::new()).is_transient());
    assert!(!ConnectionError::NotConnected.is_transient());
    assert!(!ConnectionError::AlreadyConnected.is_transient());
    assert!(!ConnectionError::PeerClosed.is_transient());
    assert!(!io_fault(ErrorKind::TimedOut).is_transient());
}

#[test]
fn io_errors_convert_to_io_faults() {
    let error = ConnectionError::from(Error::new(ErrorKind::AddrInUse, "in use"));
    assert!(matches!(error, ConnectionError::IoFault(ref cause) if cause.kind() == ErrorKind::AddrInUse));
}

#[test]
fn register_connects_the_transport_and_starts_running() {
    let (record, journal) = registered(vec![]);
    assert_eq!(record.label_text(), "test");
    assert_eq!(record.current_phase(), Phase::Running);
    assert!(!record.is_stopped());
    assert_eq!(journal.borrow().connects, 1);
    assert_eq!(journal.borrow().disconnects, 0);
}

#[test]
fn register_takes_a_transport_that_is_connected_already() {
    let (mut transport, journal) = Scripted::new(vec![]);
    assert!(transport.connect().is_ok());
    let record = ManagedConnection::register("live".to_string(), transport);
    assert!(matches!(record, Ok(ref r) if r.current_phase() == Phase::Running));
    assert_eq!(journal.borrow().disconnects, 0);
}

#[test]
fn register_returns_the_failure_to_connect() {
    let (mut transport, journal) = Scripted::new(vec![]);
    transport.refuse_connect = Some(ErrorKind::NotFound);
    let outcome = ManagedConnection::register("gone".to_string(), transport);
    assert!(matches!(
        outcome,
        Err(ConnectionError::IoFault(ref cause)) if cause.kind() == ErrorKind::NotFound
    ));
    assert_eq!(journal.borrow().reads, 0);
}

#[test]
fn telnet_that_cannot_resolve_its_address_fails_to_register_with_an_io_fault() {
    let (transport, wire) = telnet_over_memory(false);
    let outcome = ManagedConnection::register("Telnet".to_string(), transport);
    assert!(matches!(
        outcome,
        Err(ConnectionError::IoFault(ref cause)) if cause.kind() == ErrorKind::NotFound
    ));
    assert!(wire.borrow().is_empty());
}

#[test]
fn telnet_write_through_a_managed_connection_escapes_on_the_wire() {
    let (transport, wire) = telnet_over_memory(true);
    let mut record = ManagedConnection::register("Telnet".to_string(), transport)
        .expect("the address resolves");
    assert!(matches!(record.write_bytes(&[0x41, 0xFF, 0x42]), Ok(4)));
    assert_eq!(*wire.borrow(), vec![0x41, 0xFF, 0xFF, 0x42]);
}

#[test]
fn two_writes_reach_the_wire_one_wholly_before_the_other() {
    let (transport, wire) = telnet_over_memory(true);
    let mut record = ManagedConnection::register("Telnet".to_string(), transport)
        .expect("the address resolves");
    let first = [b'a', 0xFF, b'b'];
    let second = [0xFF, 0xFF, b'c'];
    assert!(matches!(record.write_bytes(&first), Ok(4)));
    assert!(matches!(record.write_bytes(&second), Ok(5)));
    let mut both = first.to_vec();
    both.extend_from_slice(&second);
    assert_eq!(*wire.borrow(), TelnetConnection::escape_iac(&both));
    assert_eq!(*wire.borrow(), vec![b'a', 0xFF, 0xFF, b'b', 0xFF, 0xFF, 0xFF, 0xFF, b'c']);
}

#[test]
fn peer_closing_a_telnet_socket_ends_the_read_path() {
    let (transport, _wire) = telnet_over_memory(true);
    let mut record = ManagedConnection::register("Telnet".to_string(), transport)
        .expect("the address resolves");
    assert!(matches!(record.read_step(), ReadStep::Stop(StopReason::PeerClosed)));
    assert!(record.is_stopped());
    assert!(matches!(record.read_step(), ReadStep::Stop(StopReason::Ended)));
}

#[test]
fn write_bytes_forwards_the_data_in_one_piece() {
    let (mut record, journal) = registered(vec![]);
    assert!(matches!(record.write_bytes(b"hello"), Ok(5)));
    assert!(matches!(record.write_bytes(b""), Ok(0)));
    assert_eq!(journal.borrow().writes, vec![b"hello".to_vec(), Vec::new()]);
}

#[test]
fn read_step_delivers_bytes_in_the_order_received() {
    let (mut record, _journal) = registered(vec![
        Inbound::Bytes(b"ab".to_vec()),
        Inbound::Bytes(b"c".to_vec()),
    ]);
    let mut seen = Vec::new();
    for _ in 0..2 {
        match record.read_step() {
            ReadStep::Deliver(bytes) => seen.extend(bytes),
            other => panic!("expected bytes, got {:?}", other),
        }
    }
    assert_eq!(seen, b"abc");
    assert_eq!(record.current_phase(), Phase::Running);
}

#[test]
fn read_step_can_fill_the_whole_buffer() {
    let (mut record, _journal) = registered(vec![Inbound::Bytes(vec![5; READ_BUFFER_SIZE])]);
    assert!(matches!(
        record.read_step(),
        ReadStep::Deliver(ref bytes) if bytes.len() == 1024 && bytes.iter().all(|b| *b == 5)
    ));
}

#[test]
fn read_step_retries_after_a_transient_error() {
    let (mut record, journal) = registered(vec![
        Inbound::Fails(ConnectionError::Other("no data available yet".to_string())),
        Inbound::Fails(ConnectionError::ProtocolViolation("bad".to_string())),
        Inbound::Bytes(b"z".to_vec()),
    ]);
    assert!(matches!(record.read_step(), ReadStep::Retry(ConnectionError::Other(_))));
    assert!(matches!(record.read_step(), ReadStep::Retry(ConnectionError::ProtocolViolation(_))));
    assert_eq!(record.current_phase(), Phase::Running);
    assert_eq!(journal.borrow().disconnects, 0);
    assert!(matches!(record.read_step(), ReadStep::Deliver(ref bytes) if bytes == b"z"));
}

#[test]
fn peer_close_ends_the_path_and_disconnects_exactly_once() {
    let (mut record, journal) = registered(vec![
        Inbound::Bytes(b"last".to_vec()),
        Inbound::Fails(ConnectionError::PeerClosed),
        Inbound::Bytes(b"never".to_vec()),
    ]);
    assert!(matches!(record.read_step(), ReadStep::Deliver(ref bytes) if bytes == b"last"));
    assert!(matches!(record.read_step(), ReadStep::Stop(StopReason::PeerClosed)));
    assert!(record.is_stopped());
    assert_eq!(journal.borrow().disconnects, 1);
    for _ in 0..3 {
        assert!(matches!(record.read_step(), ReadStep::Stop(StopReason::Ended)));
    }
    assert!(matches!(record.stop(), Ok(())));
    assert_eq!(journal.borrow().disconnects, 1);
    assert_eq!(journal.borrow().reads, 2);
}

#[test]
fn io_fault_ends_the_path_and_disconnects() {
    let (mut record, journal) = registered(vec![Inbound::Fails(io_fault(ErrorKind::BrokenPipe))]);
    assert!(matches!(
        record.read_step(),
        ReadStep::Stop(StopReason::Fault(ConnectionError::IoFault(ref cause)))
            if cause.kind() == ErrorKind::BrokenPipe
    ));
    assert_eq!(record.current_phase(), Phase::Stopped);
    assert_eq!(journal.borrow().disconnects, 1);
}

#[test]
fn cancel_ends_the_path_at_its_next_step_without_reading() {
    let (mut record, journal) = registered(vec![Inbound::Bytes(b"unread".to_vec())]);
    record.cancel();
    assert_eq!(record.current_phase(), Phase::Cancelled);
    assert!(matches!(record.write_bytes(b"late"), Err(ConnectionError::NotConnected)));
    assert!(matches!(record.read_step(), ReadStep::Stop(StopReason::Cancelled)));
    assert_eq!(record.current_phase(), Phase::Stopped);
    assert_eq!(journal.borrow().reads, 0);
    assert_eq!(journal.borrow().disconnects, 1);
    record.cancel();
    assert_eq!(record.current_phase(), Phase::Stopped);
}

#[test]
fn stop_disconnects_before_it_returns() {
    let (mut record, journal) = registered(vec![Inbound::Bytes(b"unread".to_vec())]);
    assert!(matches!(record.stop(), Ok(())));
    assert!(record.is_stopped());
    assert_eq!(journal.borrow().disconnects, 1);
    assert!(matches!(record.read_step(), ReadStep::Stop(StopReason::Ended)));
    assert_eq!(journal.borrow().reads, 0);
}

#[test]
fn second_stop_does_nothing_and_succeeds() {
    let (mut record, journal) = registered(vec![]);
    assert!(matches!(record.stop(), Ok(())));
    assert!(matches!(record.stop(), Ok(())));
    assert!(matches!(record.stop(), Ok(())));
    assert_eq!(journal.borrow().disconnects, 1);
    assert_eq!(record.label_text(), "test");
}

#[test]
fn writes_after_stop_are_refused_and_do_not_reach_the_transport() {
    let (mut record, journal) = registered(vec![]);
    assert!(matches!(record.write_bytes(b"before"), Ok(6)));
    assert!(matches!(record.stop(), Ok(())));
    assert!(matches!(record.write_bytes(b"after"), Err(ConnectionError::NotConnected)));
    assert_eq!(journal.borrow().writes, vec![b"before".to_vec()]);
}
