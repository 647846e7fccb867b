use board_link::session::{decode_received, find_port, SerialSession, SessionError};

fn strings(items: &[&str]) -> Vec<String> {
    items.iter().map(|s| s.to_string()).collect()
}

#[test]
fn new_session_is_closed() {
    let s = SerialSession::new();
    assert!(!s.is_open());
    assert_eq!(s.port_name(), None);
}

#[test]
fn closed_session_rejects_read_write_close() {
    let mut s = SerialSession::new();
    assert_eq!(s.read(), Err(SessionError::NoPortOpen));
    assert_eq!(s.write("hello"), Err(SessionError::NoPortOpen));
    assert_eq!(s.close(), Err(SessionError::NoPortOpen));
    assert!(!s.is_open());
}

#[test]
fn close_twice_fails() {
    let mut s = SerialSession::new();
    assert_eq!(s.close(), Err(SessionError::NoPortOpen));
    assert_eq!(s.close(), Err(SessionError::NoPortOpen));
}

#[test]
fn open_unlisted_port_is_not_found() {
    let mut s = SerialSession::new();
    let listed = strings(&["COM3", "COM4"]);
    assert_eq!(s.open_listed("COM9", &listed), Err(SessionError::PortNotFound));
    assert!(!s.is_open());
    assert_eq!(s.open_listed("COM9", &Vec::new()), Err(SessionError::PortNotFound));
}

#[test]
fn open_listed_port_that_cannot_be_opened() {
    let mut s = SerialSession::new();
    let name = "/nonexistent/serial-device";
    let listed = strings(&[name]);
    match s.open_listed(name, &listed) {
        Err(SessionError::PortOpen(_)) => {}
        other => panic!("expected an open failure, got {:?}", other),
    }
    assert!(!s.is_open());
    assert_eq!(s.read(), Err(SessionError::NoPortOpen));
}

#[test]
fn find_port_exact_names() {
    let listed = strings(&["COM3", "/dev/ttyUSB0"]);
    assert!(find_port(&listed, "COM3"));
    assert!(find_port(&listed, "/dev/ttyUSB0"));
    assert!(!find_port(&listed, "COM"));
    assert!(!find_port(&listed, "com3"));
    assert!(!find_port(&Vec::new(), "COM3"));
}

#[test]
fn decode_ascii_bytes() {
    assert_eq!(decode_received(&b"hi".to_vec()), "hi");
    assert_eq!(decode_received(&Vec::new()), "");
}

#[test]
fn decode_replaces_invalid_bytes() {
    assert_eq!(decode_received(&vec![0xff, b'a']), "\u{FFFD}a");
    assert_eq!(decode_received(&"é".as_bytes().to_vec()), "é");
}

#[test]
fn end_to_end_without_device() {
    let mut s = SerialSession::new();
    let listed = strings(&["COM3"]);
    assert_eq!(s.open_listed("COM42", &listed), Err(SessionError::PortNotFound));
    assert_eq!(decode_received(&b"hi".to_vec()), "hi");
    assert_eq!(s.close(), Err(SessionError::NoPortOpen));
    assert_eq!(s.read(), Err(SessionError::NoPortOpen));
}

#[test]
fn open_with_failed_enumeration() {
    let mut s = SerialSession::new();
    assert_eq!(s.open("COM3", &Err("denied".to_string())), Err(SessionError::NoPortsAvailable));
    assert!(!s.is_open());
}

#[test]
fn open_with_enumeration_missing_the_port() {
    let mut s = SerialSession::new();
    assert_eq!(s.open("COM9", &Ok(strings(&["COM3"]))), Err(SessionError::PortNotFound));
    assert!(!s.is_open());
}
