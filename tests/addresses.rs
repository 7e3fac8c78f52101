use api_v1::ipv4::Ipv4Addr;
use api_v1::mac::MacAddress;
use api_v1::network_address::{Address, AddressError};

#[test]
fn empty_text_is_undefined_for_every_family() {
    assert_eq!(Address::<Ipv4Addr>::decode("").unwrap(), Address::Undefined);
    assert_eq!(Address::<MacAddress>::decode("").unwrap(), Address::Undefined);
    assert_eq!(Address::<Ipv4Addr>::Undefined.encode(), "");
    assert_eq!(Address::<MacAddress>::Undefined.encode(), "");
}

#[test]
fn unknown_sentinel() {
    assert_eq!(Address::<MacAddress>::decode("UNKNOWN").unwrap(), Address::Unknown);
    assert_eq!(Address::<MacAddress>::Unknown.encode(), "UNKNOWN");
    assert_eq!(Address::<Ipv4Addr>::decode("UNKNOWN").unwrap(), Address::Unknown);
}

#[test]
fn ipv4_parse_failure_names_family_and_text() {
    match Address::<Ipv4Addr>::decode("not-an-ip") {
        Err(AddressError::InvalidAddress(family, text)) => {
            assert_eq!(family, "IPv4");
            assert_eq!(text, "not-an-ip");
        }
        other => panic!("unexpected {other:?}"),
    }
}

#[test]
fn ipv4_round_trip() {
    let a = Address::<Ipv4Addr>::decode("192.168.0.1").unwrap();
    assert_eq!(a, Address::Concrete(Ipv4Addr(192, 168, 0, 1)));
    assert_eq!(a.encode(), "192.168.0.1");
    assert_eq!(a.to_string(), "192.168.0.1");
    assert_eq!(Ipv4Addr(0, 0, 0, 0).format(), "0.0.0.0");
    assert_eq!(Ipv4Addr(255, 255, 255, 255).format(), "255.255.255.255");
    assert_eq!(Ipv4Addr(10, 20, 100, 9).format(), "10.20.100.9");
    assert_eq!(Ipv4Addr::parse("255.255.255.255"), Some(Ipv4Addr(255, 255, 255, 255)));
    assert_eq!(Ipv4Addr::parse("0.0.0.0"), Some(Ipv4Addr(0, 0, 0, 0)));
}

#[test]
fn ipv4_refuses_what_is_not_a_dotted_quad() {
    for text in [
        "01.2.3.4", "256.1.1.1", "1.2.3", "1.2.3.4.5", "1.2.3.4.", ".1.2.3.4", "1..2.3",
        "1.2.3.0004", "1.2.3.a", " 1.2.3.4", "1.2.3.4 ", "1234.1.1.1", "300.300.300.300",
    ] {
        assert_eq!(Ipv4Addr::parse(text), None, "{text}");
        match Address::<Ipv4Addr>::decode(text) {
            Err(AddressError::InvalidAddress(family, t)) => {
                assert_eq!(family, "IPv4");
                assert_eq!(t, text);
            }
            other => panic!("unexpected {other:?}"),
        }
    }
}

#[test]
fn mac_round_trip_in_upper_case() {
    let a = Address::<MacAddress>::decode("aa:bb:cc:dd:ee:0f").unwrap();
    assert_eq!(a, Address::Concrete(MacAddress(0xaa, 0xbb, 0xcc, 0xdd, 0xee, 0x0f)));
    assert_eq!(a.encode(), "AA:BB:CC:DD:EE:0F");
    let b = Address::<MacAddress>::decode("00-11-22-33-44-55").unwrap();
    assert_eq!(b.encode(), "00:11:22:33:44:55");
    let c = Address::<MacAddress>::decode("001122334455").unwrap();
    assert_eq!(c, b);
    assert_eq!(MacAddress(1, 2, 3, 4, 5, 6).format(), "01:02:03:04:05:06");
}

#[test]
fn mac_parse_failure() {
    match Address::<MacAddress>::decode("zz:11:22:33:44:55") {
        Err(AddressError::InvalidAddress(family, text)) => {
            assert_eq!(family, "MAC");
            assert_eq!(text, "zz:11:22:33:44:55");
        }
        other => panic!("unexpected {other:?}"),
    }
    assert!(Address::<MacAddress>::decode("unknown").is_err());
}

#[test]
fn display_differs_from_wire_for_undefined() {
    assert_eq!(Address::<Ipv4Addr>::Undefined.to_string(), "unset");
    assert_eq!(Address::<Ipv4Addr>::Undefined.encode(), "");
    assert_eq!(Address::<MacAddress>::Unknown.to_string(), "UNKNOWN");
}

#[test]
fn decode_with_an_outside_parser() {
    assert_eq!(Address::decode_parsed("", Some(7u8), "Byte").unwrap(), Address::Undefined);
    assert_eq!(Address::decode_parsed("UNKNOWN", Some(7u8), "Byte").unwrap(), Address::Unknown);
    assert_eq!(Address::decode_parsed("seven", Some(7u8), "Byte").unwrap(), Address::Concrete(7u8));
    match Address::<u8>::decode_parsed("eight", None, "Byte") {
        Err(AddressError::InvalidAddress(family, text)) => {
            assert_eq!(family, "Byte");
            assert_eq!(text, "eight");
        }
        other => panic!("unexpected {other:?}"),
    }
}

#[test]
fn sentinel_texts() {
    assert_eq!(Address::<u8>::Undefined.wire_sentinel(), Some(String::new()));
    assert_eq!(Address::<u8>::Unknown.wire_sentinel(), Some("UNKNOWN".to_string()));
    assert_eq!(Address::Concrete(1u8).wire_sentinel(), None);
    assert_eq!(Address::<u8>::Undefined.display_sentinel(), Some("unset".to_string()));
    assert_eq!(Address::<u8>::Unknown.display_sentinel(), Some("UNKNOWN".to_string()));
    assert_eq!(Address::Concrete(1u8).display_sentinel(), None);
}
