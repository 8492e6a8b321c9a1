use toolfetch::subnet::{calc_subnet, netmask, parse_leading_octet, INVALID_IP_OCT};

#[test]
fn class_a_range() {
    for oct in 0u16..=127 {
        assert_eq!(calc_subnet(oct), "255.0.0.0");
    }
}

#[test]
fn class_b_range() {
    for oct in 128u16..=191 {
        assert_eq!(calc_subnet(oct), "255.255.0.0");
    }
}

#[test]
fn class_c_range() {
    for oct in 192u16..=223 {
        assert_eq!(calc_subnet(oct), "255.255.255.0");
    }
}

#[test]
fn above_class_c_is_invalid_prefix() {
    for oct in 224u16..=255 {
        assert_eq!(calc_subnet(oct), "invalid subnet prefix");
    }
    assert_eq!(calc_subnet(INVALID_IP_OCT), "invalid subnet prefix");
    assert_eq!(calc_subnet(u16::MAX), "invalid subnet prefix");
}

#[test]
fn netmask_of_addresses() {
    assert_eq!(netmask("10.0.0.1"), "255.0.0.0");
    assert_eq!(netmask("127.0.0.1"), "255.0.0.0");
    assert_eq!(netmask("172.16.4.2"), "255.255.0.0");
    assert_eq!(netmask("192.168.1.20"), "255.255.255.0");
    assert_eq!(netmask("230.1.1.1"), "invalid subnet prefix");
    assert_eq!(netmask("300"), "invalid subnet prefix");
}

#[test]
fn netmask_of_unparseable_leading_octet() {
    assert_eq!(netmask("abc.1.2.3"), "No subnet: invalid ip");
    assert_eq!(netmask(""), "No subnet: invalid ip");
    assert_eq!(netmask(".1.2.3"), "No subnet: invalid ip");
    assert_eq!(netmask("fe80::1"), "No subnet: invalid ip");
    assert_eq!(netmask("70000.0.0.1"), "No subnet: invalid ip");
    assert_eq!(netmask("1x.0.0.1"), "No subnet: invalid ip");
}

#[test]
fn leading_octet_parse() {
    assert_eq!(parse_leading_octet("192.168.0.1"), Some(192));
    assert_eq!(parse_leading_octet("0"), Some(0));
    assert_eq!(parse_leading_octet("65535.1"), Some(65535));
    assert_eq!(parse_leading_octet("65536.1"), None);
    assert_eq!(parse_leading_octet("99999999999999999999"), None);
    assert_eq!(parse_leading_octet("a.1"), None);
}

#[test]
fn only_leading_field_decides() {
    assert_eq!(netmask("10.255.255.255"), netmask("10.0.0.0"));
    assert_eq!(netmask("191.1.2.3"), calc_subnet(191));
    assert_eq!(netmask("+10.0.0.1"), "255.0.0.0");
    assert_eq!(netmask("+.0.0.1"), "No subnet: invalid ip");
}
