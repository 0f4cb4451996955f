use adb_cli::error::ProtocolError;
use adb_cli::protocol::Message;
use adb_cli::protocol::{A_CLSE, A_OKAY, A_OPEN, A_WRTE};
use adb_cli::stream::{StreamRegistry, StreamState};

fn opened(reg: &mut StreamRegistry, service: &[u8], remote: u32) -> u32 {
    let (id, _) = reg.open(service.to_vec()).unwrap();
    reg.on_frame(&Message::new(A_OKAY, remote, id, vec![])).unwrap();
    id
}

#[test]
fn open_sends_open_frame_with_fresh_id() {
    let mut reg = StreamRegistry::new();
    let (id, m) = reg.open(b"shell:ls\0".to_vec()).unwrap();
    assert_eq!(id, 1);
    assert_eq!((m.cmd, m.arg0, m.arg1), (A_OPEN, 1, 0));
    assert_eq!(m.payload, b"shell:ls\0".to_vec());
    assert_eq!(reg.streams[0].state, StreamState::Opening);
}

#[test]
fn two_streams_get_distinct_ids_and_separate_data() {
    let mut reg = StreamRegistry::new();
    let a = opened(&mut reg, b"shell:a\0", 100);
    let b = opened(&mut reg, b"shell:b\0", 200);
    assert_ne!(a, b);
    assert!(a != 0 && b != 0);
    let ack = reg.on_frame(&Message::new(A_WRTE, 100, a, b"for a".to_vec())).unwrap().unwrap();
    assert_eq!((ack.cmd, ack.arg0, ack.arg1, ack.length), (A_OKAY, a, 100, 0));
    assert_eq!(reg.read(b), None);
    assert_eq!(reg.read(a), Some(b"for a".to_vec()));
    assert_eq!(reg.read(a), None);
}

#[test]
fn queued_data_is_read_in_order() {
    let mut reg = StreamRegistry::new();
    let a = opened(&mut reg, b"x\0", 4);
    reg.on_frame(&Message::new(A_WRTE, 4, a, vec![1])).unwrap();
    reg.on_frame(&Message::new(A_WRTE, 4, a, vec![2])).unwrap();
    assert_eq!(reg.read(a), Some(vec![1]));
    assert_eq!(reg.read(a), Some(vec![2]));
}

#[test]
fn second_write_waits_for_okay() {
    let mut reg = StreamRegistry::new();
    let a = opened(&mut reg, b"x\0", 9);
    let w = reg.write(a, b"one".to_vec()).unwrap();
    assert_eq!((w.cmd, w.arg0, w.arg1), (A_WRTE, a, 9));
    assert_eq!(reg.write(a, b"two".to_vec()).unwrap_err(), ProtocolError::WritePending);
    reg.on_frame(&Message::new(A_OKAY, 9, a, vec![])).unwrap();
    assert!(reg.write(a, b"two".to_vec()).is_ok());
}

#[test]
fn close_twice_sends_one_clse() {
    let mut reg = StreamRegistry::new();
    let a = opened(&mut reg, b"x\0", 9);
    let c = reg.close(a).unwrap();
    assert_eq!((c.cmd, c.arg0, c.arg1), (A_CLSE, a, 9));
    assert!(reg.close(a).is_none());
    assert!(matches!(reg.on_frame(&Message::new(A_CLSE, 9, a, vec![])), Ok(None)));
    assert!(reg.is_closed(a));
    assert_eq!(reg.write(a, vec![1]).unwrap_err(), ProtocolError::StreamClosed);
}

#[test]
fn peer_close_during_open_is_rejection() {
    let mut reg = StreamRegistry::new();
    let (id, _) = reg.open(b"nope\0".to_vec()).unwrap();
    let r = reg.on_frame(&Message::new(A_CLSE, 0, id, vec![]));
    assert_eq!(r.unwrap_err(), ProtocolError::OpenRejected);
    assert!(reg.is_closed(id));
    let (next, _) = reg.open(b"again\0".to_vec()).unwrap();
    assert_eq!(next, id + 1);
}

#[test]
fn frames_for_unknown_streams_or_invalid_frames_fail() {
    let mut reg = StreamRegistry::new();
    assert_eq!(reg.on_frame(&Message::new(A_OKAY, 1, 7, vec![])).unwrap_err(), ProtocolError::StreamClosed);
    let mut bad = Message::new(A_OKAY, 1, 1, vec![1]);
    bad.checksum = 0;
    assert_eq!(reg.on_frame(&bad).unwrap_err(), ProtocolError::InvalidFrame);
    let a = opened(&mut reg, b"x\0", 3);
    assert_eq!(reg.on_frame(&Message::new(A_OPEN, 3, a, vec![])).unwrap_err(), ProtocolError::UnexpectedResponse);
}

#[test]
fn write_before_open_is_refused() {
    let mut reg = StreamRegistry::new();
    let (id, _) = reg.open(b"x\0".to_vec()).unwrap();
    assert_eq!(reg.write(id, vec![1]).unwrap_err(), ProtocolError::StreamClosed);
    assert_eq!(reg.write(0, vec![1]).unwrap_err(), ProtocolError::StreamClosed);
}

#[test]
fn connection_loss_closes_every_stream() {
    let mut reg = StreamRegistry::new();
    let a = opened(&mut reg, b"a\0", 1);
    let (b, _) = reg.open(b"b\0".to_vec()).unwrap();
    reg.write(a, vec![1]).unwrap();
    reg.connection_lost();
    assert!(reg.is_closed(a) && reg.is_closed(b));
    assert!(!reg.streams[0].write_pending);
}

#[test]
fn operations_after_connection_loss_fail() {
    let mut reg = StreamRegistry::new();
    let a = opened(&mut reg, b"a\0", 1);
    reg.on_frame(&Message::new(A_WRTE, 1, a, vec![5])).unwrap();
    reg.connection_lost();
    assert!(reg.lost);
    assert_eq!(reg.open(b"b\0".to_vec()).unwrap_err(), ProtocolError::ConnectionLost);
    assert_eq!(reg.write(a, vec![1]).unwrap_err(), ProtocolError::ConnectionLost);
    assert_eq!(
        reg.on_frame(&Message::new(A_OKAY, 1, a, vec![])).unwrap_err(),
        ProtocolError::ConnectionLost
    );
    assert_eq!(reg.read(a), Some(vec![5]));
    assert!(reg.close(a).is_none());
}
