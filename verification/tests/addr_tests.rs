use sthp::addr::parse_authority;

#[test]
fn parse_basic_domain() {
    let t = parse_authority(b"example.com:443").unwrap();
    assert_eq!(t.host, b"example.com".to_vec());
    assert_eq!(t.port, 443);
}

#[test]
fn parse_dotted_quad_as_host() {
    let t = parse_authority(b"127.0.0.1:1080").unwrap();
    assert_eq!(t.host, b"127.0.0.1".to_vec());
    assert_eq!(t.port, 1080);
}

#[test]
fn parse_port_bounds() {
    assert_eq!(parse_authority(b"h:65535").unwrap().port, 65535);
    assert!(parse_authority(b"h:65536").is_none());
    assert_eq!(parse_authority(b"h:0").unwrap().port, 0);
    let t = parse_authority(b"h:00443").unwrap();
    assert_eq!(t.port, 443);
}

#[test]
fn parse_rejects_missing_colon() {
    assert!(parse_authority(b"example.com").is_none());
    assert!(parse_authority(b"").is_none());
}

#[test]
fn parse_rejects_two_colons() {
    assert!(parse_authority(b"a:b:80").is_none());
    assert!(parse_authority(b"[::1]:80").is_none());
}

#[test]
fn parse_rejects_empty_host_or_port() {
    assert!(parse_authority(b":80").is_none());
    assert!(parse_authority(b"example.com:").is_none());
    assert!(parse_authority(b":").is_none());
}

#[test]
fn parse_rejects_non_digit_port() {
    assert!(parse_authority(b"example.com:8a0").is_none());
    assert!(parse_authority(b"example.com:-1").is_none());
}

#[test]
fn parse_host_length_limit() {
    let mut long = vec![b'a'; 255];
    long.extend_from_slice(b":80");
    let t = parse_authority(&long).unwrap();
    assert_eq!(t.host.len(), 255);
    assert_eq!(t.port, 80);

    let mut too_long = vec![b'a'; 256];
    too_long.extend_from_slice(b":80");
    assert!(parse_authority(&too_long).is_none());
}

#[test]
fn duplicate_copies_exactly() {
    let t = parse_authority(b"example.com:443").unwrap();
    let d = t.duplicate();
    assert_eq!(d.host, t.host);
    assert_eq!(d.port, t.port);
}
