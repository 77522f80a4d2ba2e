use dns_propagation::Ipv4;
use dns_propagation::is_valid_domain;
use dns_propagation::join_domain;
use dns_propagation::parse_ipv4;

fn bytes(s: &str) -> Vec<u8> {
    s.as_bytes().to_vec()
}

#[test]
fn parses_dotted_quad() {
    assert_eq!(parse_ipv4(&bytes("203.0.113.10")), Some(Ipv4::new(203, 0, 113, 10)));
    assert_eq!(parse_ipv4(&bytes("8.8.8.8")), Some(Ipv4::new(8, 8, 8, 8)));
    assert_eq!(parse_ipv4(&bytes("0.0.0.0")), Some(Ipv4::new(0, 0, 0, 0)));
    assert_eq!(parse_ipv4(&bytes("255.255.255.255")), Some(Ipv4::new(255, 255, 255, 255)));
    assert_eq!(parse_ipv4(&bytes("10.0.200.1")), Some(Ipv4::new(10, 0, 200, 1)));
}

#[test]
fn rejects_octet_out_of_range() {
    assert_eq!(parse_ipv4(&bytes("256.1.1.1")), None);
    assert_eq!(parse_ipv4(&bytes("1.1.1.999")), None);
    assert_eq!(parse_ipv4(&bytes("1.1.1.1000")), None);
}

#[test]
fn rejects_zero_padded_octets() {
    assert_eq!(parse_ipv4(&bytes("01.2.3.4")), None);
    assert_eq!(parse_ipv4(&bytes("1.2.3.04")), None);
    assert_eq!(parse_ipv4(&bytes("1.2.3.00")), None);
}

#[test]
fn rejects_wrong_shape() {
    assert_eq!(parse_ipv4(&bytes("")), None);
    assert_eq!(parse_ipv4(&bytes("1.2.3")), None);
    assert_eq!(parse_ipv4(&bytes("1.2.3.4.5")), None);
    assert_eq!(parse_ipv4(&bytes("1..2.3")), None);
    assert_eq!(parse_ipv4(&bytes("1.2.3.")), None);
    assert_eq!(parse_ipv4(&bytes(".1.2.3")), None);
    assert_eq!(parse_ipv4(&bytes("a.b.c.d")), None);
    assert_eq!(parse_ipv4(&bytes("1.2.3.4 ")), None);
    assert_eq!(parse_ipv4(&bytes("203.0.113.10x")), None);
}

#[test]
fn accepts_valid_domains() {
    assert!(is_valid_domain(&bytes("sub.example.com")));
    assert!(is_valid_domain(&bytes("example.com")));
    assert!(is_valid_domain(&bytes("localhost")));
    assert!(is_valid_domain(&bytes("a-b.c-d.e0f")));
    assert!(is_valid_domain(&bytes("x0.Y1.z2")));
}

#[test]
fn rejects_invalid_domains() {
    assert!(!is_valid_domain(&bytes("")));
    assert!(!is_valid_domain(&bytes(".")));
    assert!(!is_valid_domain(&bytes("a..b")));
    assert!(!is_valid_domain(&bytes(".a")));
    assert!(!is_valid_domain(&bytes("a.")));
    assert!(!is_valid_domain(&bytes("-a.com")));
    assert!(!is_valid_domain(&bytes("a-.com")));
    assert!(!is_valid_domain(&bytes("a b.com")));
    assert!(!is_valid_domain(&bytes("a_b.com")));
}

#[test]
fn rejects_oversized_domains() {
    let long_label = "a".repeat(64);
    assert!(!is_valid_domain(&bytes(&format!("{}.com", long_label))));
    let ok_label = "a".repeat(63);
    assert!(is_valid_domain(&bytes(&format!("{}.com", ok_label))));

    let mut long_name = String::new();
    for _ in 0..64 {
        long_name.push_str("abc.");
    }
    long_name.push_str("com");
    assert!(long_name.len() > 253);
    assert!(!is_valid_domain(&bytes(&long_name)));
}

#[test]
fn joins_subdomain_and_zone() {
    assert_eq!(join_domain(&bytes("sub"), &bytes("example.com")), bytes("sub.example.com"));
    assert_eq!(join_domain(&bytes("www"), &bytes("a.b")), bytes("www.a.b"));
}
