use slados::dispatch::{echo_step, EchoAction, EchoConnection, EchoEvent, BUFFER_SIZE};

#[test]
fn echoes_what_was_read() {
    let mut buf = [0u8; BUFFER_SIZE];
    buf[..5].copy_from_slice(b"hello");
    match echo_step(&buf, EchoEvent::Read(5)) {
        EchoAction::Write(bytes) => assert_eq!(bytes, b"hello".to_vec()),
        _ => panic!("expected a write"),
    }
}

#[test]
fn closes_at_end_or_error() {
    let buf = [7u8; BUFFER_SIZE];
    assert!(matches!(echo_step(&buf, EchoEvent::Read(0)), EchoAction::Close));
    assert!(matches!(echo_step(&buf, EchoEvent::ReadFailed), EchoAction::Close));
    assert!(matches!(echo_step(&buf, EchoEvent::WriteFailed), EchoAction::Close));
    assert!(matches!(echo_step(&buf, EchoEvent::Written), EchoAction::Read));
}

#[test]
fn full_buffer() {
    let buf = [3u8; BUFFER_SIZE];
    match echo_step(&buf, EchoEvent::Read(BUFFER_SIZE)) {
        EchoAction::Write(bytes) => assert_eq!(bytes, buf.to_vec()),
        _ => panic!("expected a write"),
    }
}

#[test]
fn connection_echoes_everything_in_order() {
    let input: Vec<Vec<u8>> = vec![b"abc".to_vec(), vec![0u8; BUFFER_SIZE], b"z".to_vec()];
    let mut read_bytes = Vec::new();
    let mut written = Vec::new();
    let mut chunks = input.iter();
    let mut buf = [0u8; BUFFER_SIZE];
    let mut action = EchoAction::Read;
    loop {
        let event = match action {
            EchoAction::Close => break,
            EchoAction::Read => match chunks.next() {
                Some(chunk) => {
                    buf[..chunk.len()].copy_from_slice(chunk);
                    read_bytes.extend_from_slice(chunk);
                    EchoEvent::Read(chunk.len())
                }
                None => EchoEvent::Read(0),
            },
            EchoAction::Write(bytes) => {
                written.extend_from_slice(&bytes);
                assert!(read_bytes.starts_with(&written));
                EchoEvent::Written
            }
        };
        action = echo_step(&buf, event);
    }
    assert_eq!(written, read_bytes);
}

#[test]
fn connection_records_its_history() {
    let mut connection = EchoConnection::new();
    assert!(connection.awaits_read());
    let mut buf = [0u8; BUFFER_SIZE];
    buf[..2].copy_from_slice(b"hi");
    match connection.step(&buf, EchoEvent::Read(2)) {
        EchoAction::Write(bytes) => assert_eq!(bytes, b"hi".to_vec()),
        _ => panic!("expected a write"),
    }
    assert!(!connection.awaits_read());
    assert!(matches!(connection.step(&buf, EchoEvent::Written), EchoAction::Read));
    assert!(connection.awaits_read());
    assert!(matches!(connection.step(&buf, EchoEvent::Read(0)), EchoAction::Close));
    assert!(connection.awaits_read());
}
