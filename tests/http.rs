use wmproxy::http::{Handoff, HttpSniff, HttpSniffer, ProxyHttp, SniffAction};

#[test]
fn connect_fed_byte_by_byte() {
    let req = b"CONNECT example.com:443 HTTP/1.1\r\n\r\n";
    let mut s = HttpSniffer::new();
    for (i, b) in req.iter().enumerate() {
        let a = s.feed(&[*b]);
        if i + 1 < req.len() {
            assert!(matches!(a, SniffAction::ReadMore), "byte {}: {:?}", i, a);
        } else {
            match a {
                SniffAction::Dial { host, connect } => {
                    assert_eq!(host, "example.com:443");
                    assert!(connect);
                }
                other => panic!("unexpected {:?}", other),
            }
        }
    }
    match s.on_dialed(true) {
        Handoff::ReplyInbound(v) => assert_eq!(v, b"HTTP/1.1 200 OK\r\n\r\n".to_vec()),
        other => panic!("unexpected {:?}", other),
    }
}

#[test]
fn plain_request_replayed() {
    let req = b"GET http://example.com/ HTTP/1.1\r\n\r\n";
    let mut s = HttpSniffer::new();
    match s.feed(req) {
        SniffAction::Dial { host, connect } => {
            assert!(host.starts_with("example.com"));
            assert!(!connect);
        }
        other => panic!("unexpected {:?}", other),
    }
    match s.on_dialed(false) {
        Handoff::ReplayOutbound(v) => assert_eq!(v, req.to_vec()),
        other => panic!("unexpected {:?}", other),
    }
}

#[test]
fn not_http_falls_back_with_all_bytes() {
    let mut s = HttpSniffer::new();
    assert!(matches!(s.feed(&[0x16, 0x03, 0x01]), SniffAction::Fallback));
    assert_eq!(s.into_buffer(), vec![0x16, 0x03, 0x01]);
}

#[test]
fn empty_read_closes() {
    let mut s = HttpSniffer::new();
    assert!(matches!(s.feed(&[]), SniffAction::Closed));
    assert!(s.into_buffer().is_empty());
}

#[test]
fn decide_each_outcome() {
    let d = |x| ProxyHttp::decide(x);
    assert!(matches!(d(HttpSniff::Invalid), SniffAction::Fallback));
    assert!(matches!(d(HttpSniff::Partial), SniffAction::ReadMore));
    assert!(matches!(
        d(HttpSniff::Parsed { host: None, partial: true, connect: false }),
        SniffAction::ReadMore
    ));
    assert!(matches!(
        d(HttpSniff::Parsed { host: None, partial: false, connect: false }),
        SniffAction::Reject
    ));
    match d(HttpSniff::Parsed { host: Some("a:1".to_string()), partial: false, connect: true }) {
        SniffAction::Dial { host, connect } => {
            assert_eq!(host, "a:1");
            assert!(connect);
        }
        other => panic!("unexpected {:?}", other),
    }
}

#[test]
fn unavailable_is_503() {
    let v = ProxyHttp::unavailable_response().unwrap();
    assert!(v.starts_with(b"HTTP/1.1 503"));
}

#[test]
fn connect_ok_bytes_exact() {
    assert_eq!(ProxyHttp::connect_ok_response(), b"HTTP/1.1 200 OK\r\n\r\n".to_vec());
}

#[test]
fn fallback_keeps_every_chunk() {
    let mut s = HttpSniffer::new();
    assert!(matches!(s.feed(b"GE"), SniffAction::ReadMore));
    assert!(matches!(s.feed(&[0, 0xff, 7]), SniffAction::Fallback));
    assert_eq!(s.into_buffer(), vec![b'G', b'E', 0, 0xff, 7]);
}

#[test]
fn complete_request_without_host_rejected() {
    let mut s = HttpSniffer::new();
    assert!(matches!(s.feed(b"GET / HTTP/1.1\r\n\r\n"), SniffAction::Reject));
}
