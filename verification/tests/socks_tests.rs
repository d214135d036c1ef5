use sthp::addr::parse_authority;
use sthp::socks::{connect_request, greeting, Handshake, HandshakeAction, HandshakeState};

#[test]
fn greeting_bytes() {
    assert_eq!(greeting(), vec![5u8, 1, 0]);
}

#[test]
fn connect_request_encoding() {
    let t = parse_authority(b"example.com:443").unwrap();
    let mut expected: Vec<u8> = vec![5, 1, 0, 3, 11];
    expected.extend_from_slice(b"example.com");
    expected.extend_from_slice(&[1, 187]);
    assert_eq!(connect_request(&t), expected);
}

#[test]
fn connect_request_port_bytes() {
    let t = parse_authority(b"h:1080").unwrap();
    let r = connect_request(&t);
    assert_eq!(&r[r.len() - 2..], &[4, 56]);
}

#[test]
fn handshake_happy_path_ipv4_reply() {
    let t = parse_authority(b"example.com:443").unwrap();
    let mut h = Handshake::new(t);

    let act = h.step(&[]);
    match act {
        HandshakeAction::Send(bytes, n) => {
            assert_eq!(bytes, vec![5u8, 1, 0]);
            assert_eq!(n, 2);
        }
        _ => panic!("expected the greeting to be sent"),
    }

    let act = h.step(&[5, 0]);
    match act {
        HandshakeAction::Send(bytes, n) => {
            let mut expected: Vec<u8> = vec![5, 1, 0, 3, 11];
            expected.extend_from_slice(b"example.com");
            expected.extend_from_slice(&[1, 187]);
            assert_eq!(bytes, expected);
            assert_eq!(n, 4);
        }
        _ => panic!("expected the CONNECT request to be sent"),
    }

    let act = h.step(&[5, 0, 0, 1]);
    assert_eq!(act, HandshakeAction::Recv(6));
    assert!(!h.established());

    let act = h.step(&[127, 0, 0, 1, 4, 56]);
    assert_eq!(act, HandshakeAction::Done);
    assert!(h.established());
    assert!(!h.failed());
}

#[test]
fn handshake_domain_reply() {
    let t = parse_authority(b"example.com:443").unwrap();
    let mut h = Handshake::new(t);
    h.step(&[]);
    h.step(&[5, 0]);
    let act = h.step(&[5, 0, 0, 3]);
    assert_eq!(act, HandshakeAction::Recv(1));
    let act = h.step(&[11]);
    assert_eq!(act, HandshakeAction::Recv(13));
    let act = h.step(&vec![0u8; 13]);
    assert_eq!(act, HandshakeAction::Done);
    assert!(h.established());
}

#[test]
fn handshake_ipv6_reply() {
    let t = parse_authority(b"example.com:443").unwrap();
    let mut h = Handshake::new(t);
    h.step(&[]);
    h.step(&[5, 0]);
    let act = h.step(&[5, 0, 0, 4]);
    assert_eq!(act, HandshakeAction::Recv(18));
    let act = h.step(&vec![0u8; 18]);
    assert_eq!(act, HandshakeAction::Done);
    assert!(h.established());
}

#[test]
fn handshake_rejects_auth_required() {
    let t = parse_authority(b"example.com:443").unwrap();
    let mut h = Handshake::new(t);
    h.step(&[]);
    let act = h.step(&[5, 255]);
    assert_eq!(act, HandshakeAction::Fail);
    assert!(h.failed());
    assert!(!h.established());
}

#[test]
fn handshake_rejects_bad_version() {
    let t = parse_authority(b"example.com:443").unwrap();
    let mut h = Handshake::new(t);
    h.step(&[]);
    let act = h.step(&[4, 0]);
    assert_eq!(act, HandshakeAction::Fail);
    assert!(h.failed());
}

#[test]
fn handshake_rejects_refused_connect() {
    let t = parse_authority(b"example.com:443").unwrap();
    let mut h = Handshake::new(t);
    h.step(&[]);
    h.step(&[5, 0]);
    // reply code 5: connection refused
    let act = h.step(&[5, 5, 0, 1]);
    assert_eq!(act, HandshakeAction::Fail);
    assert!(h.failed());
}

#[test]
fn handshake_rejects_unknown_address_type() {
    let t = parse_authority(b"example.com:443").unwrap();
    let mut h = Handshake::new(t);
    h.step(&[]);
    h.step(&[5, 0]);
    let act = h.step(&[5, 0, 0, 9]);
    assert_eq!(act, HandshakeAction::Fail);
    assert!(h.failed());
}

#[test]
fn handshake_starts_in_init() {
    let t = parse_authority(b"example.com:443").unwrap();
    let h = Handshake::new(t);
    assert_eq!(h.state, HandshakeState::Init);
    assert!(!h.established());
    assert!(!h.failed());
}
