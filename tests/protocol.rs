use tunnel::heartbeat::{read_tag, ProtocolError, Tag, EXIT, HEARTBEAT};
use tunnel::magic::{check, HandshakeMismatch, MAGIC};

#[test]
fn magic_write_then_read_succeeds() {
    assert_eq!(MAGIC, 0x2a);
    assert_eq!(check(MAGIC), Ok(()));
}

#[test]
fn magic_other_byte_fails() {
    assert_eq!(check(0x2b), Err(HandshakeMismatch { got: 0x2b }));
    assert_eq!(check(0), Err(HandshakeMismatch { got: 0 }));
}

#[test]
fn heartbeat_tags() {
    assert_eq!(HEARTBEAT, 0xdd);
    assert_eq!(EXIT, 0x1c);
    assert_eq!(read_tag(0xdd), Ok(Tag::Heartbeat));
    assert_eq!(read_tag(0x1c), Ok(Tag::Exit));
    assert_eq!(read_tag(0x2a), Err(ProtocolError { got: 0x2a }));
}

#[test]
fn heartbeat_stream_ends_at_exit() {
    let written = [HEARTBEAT, HEARTBEAT, HEARTBEAT, EXIT];
    let mut seen = 0;
    for byte in written {
        seen += 1;
        match read_tag(byte) {
            Ok(Tag::Heartbeat) => continue,
            Ok(Tag::Exit) => break,
            Err(e) => panic!("unexpected {:?}", e),
        }
    }
    assert_eq!(seen, 4);
}
