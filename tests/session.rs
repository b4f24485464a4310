use wmproxy::error::ProxyError;
use wmproxy::frame::ProtFrame;
use wmproxy::session::{decode_frame, Session};

#[test]
fn decode_waits_for_whole_frame() {
    let mut wire = Vec::new();
    ProtFrame::new_data(5, vec![9, 8, 7]).encode(&mut wire);
    for n in 0..wire.len() {
        assert!(matches!(decode_frame(&wire[..n]), Err(ProxyError::TooShort)));
    }
    let (f, used) = decode_frame(&wire).unwrap();
    assert_eq!(used, 11);
    assert!(f.is_data());
    assert_eq!(f.sock_map(), 5);
}

#[test]
fn demux_interleaved_streams() {
    let frames = vec![
        ProtFrame::new_create(1),
        ProtFrame::new_create(2),
        ProtFrame::new_data(1, b"ab".to_vec()),
        ProtFrame::new_data(2, b"XY".to_vec()),
        ProtFrame::new_data(1, b"cd".to_vec()),
        ProtFrame::new_data(2, b"Z".to_vec()),
        ProtFrame::new_data(1, b"e".to_vec()),
    ];
    let mut wire = Vec::new();
    for f in frames {
        f.encode(&mut wire);
    }
    let mut s = Session::new();
    let mut at = 0;
    while at < wire.len() {
        let (f, used) = decode_frame(&wire[at..]).unwrap();
        s.receive(f).unwrap();
        at += used;
    }
    assert_eq!(s.take(1), Some(b"abcde".to_vec()));
    assert_eq!(s.take(2), Some(b"XYZ".to_vec()));
    assert_eq!(s.take(1), Some(Vec::new()));
}

#[test]
fn session_violations() {
    let mut s = Session::new();
    assert_eq!(s.receive(ProtFrame::new_data(4, vec![1])), Err(ProxyError::ProtocolViolation));
    assert_eq!(s.receive(ProtFrame::new_close(4)), Err(ProxyError::ProtocolViolation));
    assert_eq!(s.receive(ProtFrame::new_create(4)), Ok(()));
    assert!(s.is_open(4));
    assert_eq!(s.receive(ProtFrame::new_create(4)), Err(ProxyError::ProtocolViolation));
    assert_eq!(s.receive(ProtFrame::new_close(4)), Ok(()));
    assert!(!s.is_open(4));
    assert_eq!(s.receive(ProtFrame::new_data(4, vec![1])), Err(ProxyError::ProtocolViolation));
    assert_eq!(s.take(4), None);
    assert_eq!(s.receive(ProtFrame::new_create(4)), Ok(()));
}

#[test]
fn feed_across_split_reads() {
    let mut wire = Vec::new();
    ProtFrame::new_create(9).encode(&mut wire);
    ProtFrame::new_data(9, b"payload".to_vec()).encode(&mut wire);
    ProtFrame::new_create(10).encode(&mut wire);
    ProtFrame::new_data(10, b"other".to_vec()).encode(&mut wire);
    ProtFrame::new_data(9, b"!".to_vec()).encode(&mut wire);
    let mut s = Session::new();
    let mut pending: Vec<u8> = Vec::new();
    for chunk in wire.chunks(5) {
        pending.extend_from_slice(chunk);
        let used = s.feed(&pending).unwrap();
        pending.drain(..used);
    }
    assert!(pending.is_empty());
    assert_eq!(s.take(9), Some(b"payload!".to_vec()));
    assert_eq!(s.take(10), Some(b"other".to_vec()));
}

#[test]
fn feed_stops_at_partial_frame() {
    let mut wire = Vec::new();
    ProtFrame::new_create(1).encode(&mut wire);
    ProtFrame::new_data(1, vec![1, 2, 3]).encode(&mut wire);
    let mut s = Session::new();
    assert_eq!(s.feed(&wire[..10]), Ok(8));
    assert!(s.is_open(1));
    assert_eq!(s.take(1), Some(Vec::new()));
}

#[test]
fn feed_reports_violation() {
    let mut wire = Vec::new();
    ProtFrame::new_data(2, vec![1]).encode(&mut wire);
    let mut s = Session::new();
    assert_eq!(s.feed(&wire), Err(ProxyError::ProtocolViolation));
    let mut s2 = Session::new();
    assert_eq!(s2.feed(&[0, 0, 0, 7, 0, 0, 0, 1]), Err(ProxyError::UnregisteredKind));
}
