use socks5_rs::error::SocksError;
use socks5_rs::protocol::Endpoint;
use socks5_rs::protocol::SocksAddr;

fn encoded(addr: &SocksAddr) -> Vec<u8> {
    let mut out = Vec::new();
    assert_eq!(addr.write_to(&mut out), Ok(()));
    out
}

#[test]
fn ipv4_address_has_seven_bytes() {
    let addr = SocksAddr::Ipv4([127, 0, 0, 1], 1080);
    let out = encoded(&addr);
    assert_eq!(out, vec![1, 127, 0, 0, 1, 0x04, 0x38]);
    assert_eq!(SocksAddr::read_from(&out), Ok((addr, 7)));
}

#[test]
fn ipv6_address_has_nineteen_bytes() {
    let addr = SocksAddr::Ipv6([0x20, 0x01, 0x0d, 0xb8, 0, 0, 0, 0, 0, 0, 0, 0, 0, 0, 0, 1], 443);
    let out = encoded(&addr);
    assert_eq!(
        out,
        vec![4, 0x20, 0x01, 0x0d, 0xb8, 0, 0, 0, 0, 0, 0, 0, 0, 0, 0, 0, 1, 0x01, 0xbb]
    );
    assert_eq!(SocksAddr::read_from(&out), Ok((addr, 19)));
}

#[test]
fn domain_is_written_after_its_length() {
    let addr = SocksAddr::Domain("example.com".to_string(), 80);
    let out = encoded(&addr);
    let mut expected = vec![3, 11];
    expected.extend_from_slice(b"example.com");
    expected.extend_from_slice(&[0, 80]);
    assert_eq!(out, expected);
    assert_eq!(SocksAddr::read_from(&out), Ok((addr, 15)));
}

#[test]
fn port_is_big_endian() {
    let out = encoded(&SocksAddr::Ipv4([10, 0, 0, 1], 0x1234));
    assert_eq!(&out[5..], &[0x12, 0x34]);
    assert_eq!(
        SocksAddr::read_from(&[1, 10, 0, 0, 1, 0xff, 0xfe]),
        Ok((SocksAddr::Ipv4([10, 0, 0, 1], 0xfffe), 7))
    );
    assert_eq!(
        SocksAddr::read_from(&[1, 10, 0, 0, 1, 0, 0]),
        Ok((SocksAddr::Ipv4([10, 0, 0, 1], 0), 7))
    );
}

#[test]
fn write_appends_to_what_is_there() {
    let mut out = vec![9, 9];
    assert_eq!(SocksAddr::Ipv4([1, 2, 3, 4], 5).write_to(&mut out), Ok(()));
    assert_eq!(out, vec![9, 9, 1, 1, 2, 3, 4, 0, 5]);
}

#[test]
fn domain_of_255_bytes_round_trips() {
    let name = "a".repeat(255);
    let addr = SocksAddr::Domain(name.clone(), 8080);
    let out = encoded(&addr);
    assert_eq!(out.len(), 2 + 255 + 2);
    assert_eq!(out[1], 255);
    assert_eq!(SocksAddr::read_from(&out), Ok((addr, 259)));
}

#[test]
fn domain_of_256_bytes_is_too_large_and_writes_nothing() {
    let addr = SocksAddr::Domain("a".repeat(256), 80);
    let mut out = vec![7];
    assert_eq!(addr.write_to(&mut out), Err(SocksError::ValueTooLarge));
    assert_eq!(out, vec![7]);
}

#[test]
fn domain_length_counts_bytes_not_characters() {
    // 128 two-byte characters: 256 bytes.
    let addr = SocksAddr::Domain("\u{e9}".repeat(128), 80);
    let mut out = Vec::new();
    assert_eq!(addr.write_to(&mut out), Err(SocksError::ValueTooLarge));
    assert!(out.is_empty());
    let addr = SocksAddr::Domain("\u{e9}".repeat(127), 80);
    let out = encoded(&addr);
    assert_eq!(out[1], 254);
    assert_eq!(SocksAddr::read_from(&out), Ok((addr, 258)));
}

#[test]
fn empty_domain_round_trips() {
    let addr = SocksAddr::Domain(String::new(), 1);
    let out = encoded(&addr);
    assert_eq!(out, vec![3, 0, 0, 1]);
    assert_eq!(SocksAddr::read_from(&out), Ok((addr, 4)));
}

#[test]
fn non_ascii_domain_is_decoded_as_text() {
    let mut wire = vec![3, 6];
    wire.extend_from_slice(&[b'b', 0xc3, 0xbc, b'.', b'd', b'e']);
    wire.extend_from_slice(&[0x1f, 0x90]);
    assert_eq!(
        SocksAddr::read_from(&wire),
        Ok((SocksAddr::Domain("b\u{fc}.de".to_string(), 8080), 10))
    );
}

#[test]
fn domain_that_is_not_utf8_is_refused() {
    assert_eq!(
        SocksAddr::read_from(&[3, 2, 0xff, 0xfe, 0, 80]),
        Err(SocksError::InvalidEncoding)
    );
}

#[test]
fn bad_domain_is_refused_before_its_port_arrives() {
    assert_eq!(SocksAddr::read_from(&[3, 2, 0xc3, 0x28]), Err(SocksError::InvalidEncoding));
}

#[test]
fn unknown_address_type_is_refused() {
    assert_eq!(SocksAddr::read_from(&[2, 0, 0]), Err(SocksError::UnsupportedAddressType));
    assert_eq!(SocksAddr::read_from(&[0]), Err(SocksError::UnsupportedAddressType));
    assert_eq!(SocksAddr::read_from(&[5, 1, 2, 3, 4, 5, 6]), Err(SocksError::UnsupportedAddressType));
}

#[test]
fn truncated_address_says_how_much_is_missing() {
    assert_eq!(SocksAddr::read_from(&[]), Err(SocksError::Incomplete(1)));
    assert_eq!(SocksAddr::read_from(&[1]), Err(SocksError::Incomplete(6)));
    assert_eq!(SocksAddr::read_from(&[1, 127, 0, 0, 1, 0]), Err(SocksError::Incomplete(1)));
    assert_eq!(SocksAddr::read_from(&[4, 0, 0]), Err(SocksError::Incomplete(16)));
    assert_eq!(SocksAddr::read_from(&[3]), Err(SocksError::Incomplete(1)));
    assert_eq!(SocksAddr::read_from(&[3, 5, b'a']), Err(SocksError::Incomplete(4)));
    assert_eq!(SocksAddr::read_from(&[3, 1, b'a']), Err(SocksError::Incomplete(2)));
    assert_eq!(SocksAddr::read_from(&[3, 1, b'a', 0]), Err(SocksError::Incomplete(1)));
}

#[test]
fn bytes_behind_an_address_are_left_alone() {
    assert_eq!(
        SocksAddr::read_from(&[1, 1, 2, 3, 4, 0, 80, 0xaa, 0xbb]),
        Ok((SocksAddr::Ipv4([1, 2, 3, 4], 80), 7))
    );
    assert_eq!(
        SocksAddr::read_from(&[3, 1, b'x', 0, 80, 3, 3, 3]),
        Ok((SocksAddr::Domain("x".to_string(), 80), 5))
    );
}

#[test]
fn only_ip_addresses_can_be_dialled_directly() {
    assert_eq!(
        SocksAddr::Ipv4([192, 168, 0, 1], 22).to_socket_addr(),
        Some(Endpoint::V4([192, 168, 0, 1], 22))
    );
    assert_eq!(SocksAddr::Ipv6([1; 16], 22).to_socket_addr(), Some(Endpoint::V6([1; 16], 22)));
    assert_eq!(SocksAddr::Domain("localhost".to_string(), 22).to_socket_addr(), None);
}

#[test]
fn endpoint_becomes_address_of_its_family() {
    assert_eq!(Endpoint::V4([8, 8, 8, 8], 53).to_socks_addr(), SocksAddr::Ipv4([8, 8, 8, 8], 53));
    assert_eq!(Endpoint::V6([2; 16], 53).to_socks_addr(), SocksAddr::Ipv6([2; 16], 53));
}

#[test]
fn cloned_address_is_equal() {
    let addr = SocksAddr::Domain("example.org".to_string(), 8443);
    assert_eq!(addr.clone(), addr);
    let addr = SocksAddr::Ipv6([9; 16], 1);
    assert_eq!(addr.clone(), addr);
}
