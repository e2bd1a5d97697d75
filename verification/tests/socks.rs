use chaussette::socks::{target, Address, InvalidDomain};

#[test]
fn ipv4_target_is_dotted_decimal() {
    let address = Address::V4([192, 0, 2, 255], 443);
    assert_eq!(target(&address).unwrap(), "192.0.2.255:443");
}

#[test]
fn smallest_and_largest_ipv4_targets() {
    assert_eq!(target(&Address::V4([0, 0, 0, 0], 0)).unwrap(), "0.0.0.0:0");
    assert_eq!(
        target(&Address::V4([255, 255, 255, 255], 65535)).unwrap(),
        "255.255.255.255:65535"
    );
}

#[test]
fn ipv6_target_stands_in_brackets() {
    let address = Address::V6([0x2001, 0xdb8, 0, 0, 0, 0, 0, 0x1f], 8080);
    assert_eq!(target(&address).unwrap(), "[2001:db8::1f]:8080");
}

#[test]
fn longest_ipv6_target() {
    let address = Address::V6([0xffff; 8], 65535);
    assert_eq!(
        target(&address).unwrap(),
        "[ffff:ffff:ffff:ffff:ffff:ffff:ffff:ffff]:65535"
    );
}

#[test]
fn mapped_ipv6_target() {
    let address = Address::V6([0, 0, 0, 0, 0, 0xffff, 0xc000, 0x0280], 80);
    assert_eq!(target(&address).unwrap(), "[::ffff:192.0.2.128]:80");
}

#[test]
fn unspecified_ipv6_target() {
    assert_eq!(target(&Address::V6([0; 8], 1)).unwrap(), "[::]:1");
}

#[test]
fn domain_target_keeps_its_name() {
    let address = Address::Domain(b"Example.com".to_vec(), 443);
    assert_eq!(target(&address).unwrap(), "Example.com:443");
}

#[test]
fn domain_target_may_be_any_utf8() {
    let address = Address::Domain("b\u{fc}cher.example".as_bytes().to_vec(), 80);
    assert_eq!(target(&address).unwrap(), "b\u{fc}cher.example:80");
}

#[test]
fn empty_domain_has_a_target() {
    assert_eq!(target(&Address::Domain(Vec::new(), 7)).unwrap(), ":7");
}

#[test]
fn domain_that_is_not_utf8_has_no_target() {
    let address = Address::Domain(vec![b'a', 0xff, b'b'], 443);
    assert_eq!(target(&address), Err(InvalidDomain));
}

#[test]
fn ports_are_written_in_decimal() {
    for port in [0, 9, 10, 99, 100, 1234, 56789, 65535] {
        let address = Address::Domain(b"a".to_vec(), port);
        assert_eq!(target(&address).unwrap(), format!("a:{}", port));
    }
}
