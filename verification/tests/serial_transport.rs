use putty_rs::connections::serial::SerialConnection;
use putty_rs::connections::ConnectionError;
use std::io::{Error, ErrorKind};

#[test]
fn new_serial_transport_keeps_its_device_and_speed() {
    let serial = SerialConnection::new("/dev/ttyUSB0".to_string(), 115200);
    assert_eq!(serial.port(), "/dev/ttyUSB0");
    assert_eq!(serial.baud(), 115200);
    assert!(!serial.is_connected());
}

#[test]
fn never_connected_serial_transport_refuses_transfers() {
    let serial = SerialConnection::new("COM3".to_string(), 9600);
    assert!(matches!(serial.prepare_transfer(), Err(ConnectionError::NotConnected)));
    assert!(matches!(serial.complete_transfer(Ok(3)), Err(ConnectionError::NotConnected)));
}

#[test]
fn serial_connect_succeeds_once() {
    let mut serial = SerialConnection::new("COM3".to_string(), 9600);
    assert!(matches!(serial.prepare_connect(), Ok(())));
    assert!(matches!(serial.complete_connect(Ok(())), Ok(())));
    assert!(serial.is_connected());
    assert!(matches!(serial.prepare_connect(), Err(ConnectionError::AlreadyConnected)));
    assert!(matches!(serial.complete_connect(Ok(())), Err(ConnectionError::AlreadyConnected)));
    assert_eq!(serial.baud(), 9600);
}

#[test]
fn serial_open_failure_is_an_io_fault_that_keeps_the_cause() {
    let mut serial = SerialConnection::new("/dev/none".to_string(), 9600);
    let denied = Error::new(ErrorKind::PermissionDenied, "permission denied");
    match serial.complete_connect(Err(denied)) {
        Err(ConnectionError::IoFault(cause)) => {
            assert_eq!(cause.kind(), ErrorKind::PermissionDenied)
        }
        other => panic!("expected an I/O fault, got {:?}", other),
    }
    assert!(!serial.is_connected());
}

#[test]
fn serial_transfers_pass_counts_through() {
    let mut serial = SerialConnection::new("COM3".to_string(), 9600);
    assert!(matches!(serial.complete_connect(Ok(())), Ok(())));
    assert!(matches!(serial.prepare_transfer(), Ok(())));
    assert!(matches!(serial.complete_transfer(Ok(0)), Ok(0)));
    assert!(matches!(serial.complete_transfer(Ok(17)), Ok(17)));
    let unplugged = Error::new(ErrorKind::BrokenPipe, "device unplugged");
    match serial.complete_transfer(Err(unplugged)) {
        Err(ConnectionError::IoFault(cause)) => assert_eq!(cause.kind(), ErrorKind::BrokenPipe),
        other => panic!("expected an I/O fault, got {:?}", other),
    }
}

#[test]
fn serial_disconnect_is_safe_at_any_time() {
    let mut serial = SerialConnection::new("COM3".to_string(), 9600);
    assert!(matches!(serial.disconnect(), Ok(())));
    assert!(matches!(serial.complete_connect(Ok(())), Ok(())));
    assert!(matches!(serial.disconnect(), Ok(())));
    assert!(!serial.is_connected());
    assert!(matches!(serial.prepare_transfer(), Err(ConnectionError::NotConnected)));
    assert_eq!(serial.port(), "COM3");
}
