use porkbun::address::{Address, IpAddress};
use porkbun::error::Error;
use porkbun::ipv4::Ipv4Address;
use porkbun::ipv6::Ipv6Address;
use porkbun::record::RecordType;

fn v6(text: &str) -> Option<[u16; 8]> {
    Ipv6Address::parse(text).map(|a| a.segments)
}

fn text6(segments: [u16; 8]) -> String {
    Ipv6Address::new(segments).format()
}

#[test]
fn ipv4_reads_dotted_decimal() {
    assert_eq!(Ipv4Address::parse("1.2.3.4"), Some(Ipv4Address::new(1, 2, 3, 4)));
    assert_eq!(Ipv4Address::parse("0.0.0.0"), Some(Ipv4Address::new(0, 0, 0, 0)));
    assert_eq!(Ipv4Address::parse("255.255.255.255"), Some(Ipv4Address::new(255, 255, 255, 255)));
    assert_eq!(Ipv4Address::parse("192.168.10.99"), Some(Ipv4Address::new(192, 168, 10, 99)));
}

#[test]
fn ipv4_rejects_what_is_not_an_address() {
    for text in [
        "", "1.2.3", "1.2.3.4.5", "1.2.3.", ".1.2.3", "1..2.3", "256.1.1.1", "1.2.3.256",
        "01.2.3.4", "1.2.3.04", "00.0.0.0", "1.2.3.4 ", " 1.2.3.4", "a.b.c.d", "1.2.3.-4",
        "1000.1.1.1", "1,2,3,4", "::1", "١.٢.٣.٤",
    ] {
        assert_eq!(Ipv4Address::parse(text), None, "{:?}", text);
    }
}

#[test]
fn ipv4_writes_dotted_decimal() {
    assert_eq!(Ipv4Address::new(1, 2, 3, 4).format(), "1.2.3.4");
    assert_eq!(Ipv4Address::new(0, 10, 100, 255).format(), "0.10.100.255");
    assert_eq!(Ipv4Address::new(9, 99, 109, 200).format(), "9.99.109.200");
}

#[test]
fn ipv4_text_is_read_back() {
    for a in [0u8, 1, 9, 10, 11, 99, 100, 101, 199, 200, 249, 250, 255] {
        for d in [0u8, 7, 10, 42, 100, 255] {
            let address = Ipv4Address::new(a, d, a, d);
            assert_eq!(Ipv4Address::parse(&address.format()), Some(address));
        }
    }
}

#[test]
fn ipv4_same_compares_octets() {
    let a = Ipv4Address::new(1, 2, 3, 4);
    assert!(a.same(&Ipv4Address::new(1, 2, 3, 4)));
    assert!(!a.same(&Ipv4Address::new(1, 2, 3, 5)));
    assert!(!a.same(&Ipv4Address::new(0, 2, 3, 4)));
}

#[test]
fn ipv6_reads_all_eight_groups() {
    assert_eq!(v6("1:2:3:4:5:6:7:8"), Some([1, 2, 3, 4, 5, 6, 7, 8]));
    assert_eq!(
        v6("2001:0db8:0000:0000:0000:ff00:0042:8329"),
        Some([0x2001, 0x0db8, 0, 0, 0, 0xff00, 0x42, 0x8329])
    );
    assert_eq!(
        v6("FFFF:abcd:ABCD:0:0:0:0:1"),
        Some([0xffff, 0xabcd, 0xabcd, 0, 0, 0, 0, 1])
    );
}

#[test]
fn ipv6_reads_a_gap() {
    assert_eq!(v6("::"), Some([0; 8]));
    assert_eq!(v6("::1"), Some([0, 0, 0, 0, 0, 0, 0, 1]));
    assert_eq!(v6("1::"), Some([1, 0, 0, 0, 0, 0, 0, 0]));
    assert_eq!(v6("2001:db8::ff00:42:8329"), Some([0x2001, 0xdb8, 0, 0, 0, 0xff00, 0x42, 0x8329]));
    assert_eq!(v6("1:2:3:4:5:6:7::"), Some([1, 2, 3, 4, 5, 6, 7, 0]));
    assert_eq!(v6("::2:3:4:5:6:7:8"), Some([0, 2, 3, 4, 5, 6, 7, 8]));
    assert_eq!(v6("1:2:3::6:7:8"), Some([1, 2, 3, 0, 0, 6, 7, 8]));
}

#[test]
fn ipv6_reads_a_dotted_tail() {
    assert_eq!(v6("::ffff:1.2.3.4"), Some([0, 0, 0, 0, 0, 0xffff, 0x0102, 0x0304]));
    assert_eq!(v6("::1.2.3.4"), Some([0, 0, 0, 0, 0, 0, 0x0102, 0x0304]));
    assert_eq!(v6("1:2:3:4:5:6:255.254.253.252"), Some([1, 2, 3, 4, 5, 6, 0xfffe, 0xfdfc]));
    assert_eq!(v6("64:ff9b::192.0.2.33"), Some([0x64, 0xff9b, 0, 0, 0, 0, 0xc000, 0x0221]));
}

#[test]
fn ipv6_rejects_what_is_not_an_address() {
    for text in [
        "", ":", ":::", "1", "1:2:3:4:5:6:7", "1:2:3:4:5:6:7:8:9", "1:2:3:4:5:6:7:8::",
        "::1:2:3:4:5:6:7:8", "1::2::3", ":1:2:3:4:5:6:7", "1:2:3:4:5:6:7:", "12345::", "g::",
        "1.2.3.4", "1.2.3.4::", "1:2:3:4:5:6:7:1.2.3.4", "1:2:3:4:5:1.2.3.4", "::1.2.3",
        "::01.2.3.4", "1:2:3:4:5:6::1.2.3.4", "::1%eth0", " ::1", "::1 ", "1:2:3:4:5:6:7:8 ",
        "fe80::1/64", "[::1]",
    ] {
        assert_eq!(v6(text), None, "{:?}", text);
    }
}

#[test]
fn ipv6_writes_every_group_without_a_run_of_zeros() {
    assert_eq!(text6([1, 2, 3, 4, 5, 6, 7, 8]), "1:2:3:4:5:6:7:8");
    assert_eq!(text6([0x2001, 0xdb8, 0x85a3, 0x8d3, 0x1319, 0x8a2e, 0x370, 0x7348]),
        "2001:db8:85a3:8d3:1319:8a2e:370:7348");
    assert_eq!(text6([0xffff, 0xabc, 0x10, 0x100, 0x1000, 0xf, 0xf0, 0xf00]),
        "ffff:abc:10:100:1000:f:f0:f00");
}

#[test]
fn ipv6_leaves_a_single_zero_group_in_place() {
    assert_eq!(text6([1, 0, 3, 4, 5, 6, 7, 8]), "1:0:3:4:5:6:7:8");
    assert_eq!(text6([0, 2, 0, 4, 0, 6, 0, 8]), "0:2:0:4:0:6:0:8");
    assert_eq!(text6([1, 2, 3, 4, 5, 6, 7, 0]), "1:2:3:4:5:6:7:0");
}

#[test]
fn ipv6_writes_the_first_longest_run_as_a_gap() {
    assert_eq!(text6([0; 8]), "::");
    assert_eq!(text6([0, 0, 0, 0, 0, 0, 0, 1]), "::1");
    assert_eq!(text6([1, 0, 0, 0, 0, 0, 0, 0]), "1::");
    assert_eq!(text6([0x2001, 0xdb8, 0, 0, 0, 0xff00, 0x42, 0x8329]), "2001:db8::ff00:42:8329");
    assert_eq!(text6([1, 0, 0, 4, 5, 0, 0, 8]), "1::4:5:0:0:8");
    assert_eq!(text6([1, 0, 0, 4, 0, 0, 0, 8]), "1:0:0:4::8");
    assert_eq!(text6([0, 0, 3, 0, 0, 0, 7, 8]), "0:0:3::7:8");
    assert_eq!(text6([1, 2, 3, 4, 5, 6, 0, 0]), "1:2:3:4:5:6::");
    assert_eq!(text6([0, 0, 0, 0, 0, 0, 0x0102, 0x0304]), "::102:304");
}

#[test]
fn ipv6_writes_a_mapped_address_with_a_dotted_tail() {
    assert_eq!(text6([0, 0, 0, 0, 0, 0xffff, 0x0102, 0x0304]), "::ffff:1.2.3.4");
    assert_eq!(text6([0, 0, 0, 0, 0, 0xffff, 0, 0]), "::ffff:0.0.0.0");
    assert_eq!(text6([0, 0, 0, 0, 0, 0xffff, 0xffff, 0xff00]), "::ffff:255.255.255.0");
}

#[test]
fn ipv6_text_is_read_back() {
    let samples: [[u16; 8]; 12] = [
        [0; 8],
        [0, 0, 0, 0, 0, 0, 0, 1],
        [1, 0, 0, 0, 0, 0, 0, 0],
        [1, 2, 3, 4, 5, 6, 7, 8],
        [0xffff; 8],
        [0, 0, 0, 0, 0, 0xffff, 0x7f00, 1],
        [0, 0, 0, 0, 0, 0, 0x7f00, 1],
        [0x2001, 0xdb8, 0, 0, 1, 0, 0, 1],
        [0, 1, 0, 1, 0, 1, 0, 1],
        [1, 0, 0, 0, 1, 0, 0, 0],
        [0xfe80, 0, 0, 0, 0x202, 0xb3ff, 0xfe1e, 0x8329],
        [0, 0, 1, 0, 0, 0, 0, 0],
    ];
    for segments in samples {
        let address = Ipv6Address::new(segments);
        assert_eq!(Ipv6Address::parse(&address.format()), Some(address), "{:?}", segments);
    }
}

#[test]
fn ipv6_same_compares_groups() {
    let a = Ipv6Address::new([1, 2, 3, 4, 5, 6, 7, 8]);
    assert!(a.same(&Ipv6Address::new([1, 2, 3, 4, 5, 6, 7, 8])));
    assert!(!a.same(&Ipv6Address::new([1, 2, 3, 4, 5, 6, 7, 9])));
    assert!(!a.same(&Ipv6Address::new([0, 2, 3, 4, 5, 6, 7, 8])));
}

#[test]
fn equal_addresses_are_equal_in_any_text() {
    let short = Ipv6Address::parse("::1").unwrap();
    let long = Ipv6Address::parse("0:0:0:0:0:0:0:0001").unwrap();
    assert!(short.same(&long));
    let upper = Ipv6Address::parse("2001:DB8::A").unwrap();
    let lower = Ipv6Address::parse("2001:db8:0:0:0:0:0:a").unwrap();
    assert!(upper.same(&lower));
}

#[test]
fn either_family_is_read() {
    assert_eq!(IpAddress::parse("1.2.3.4"), Some(IpAddress::V4(Ipv4Address::new(1, 2, 3, 4))));
    assert_eq!(
        IpAddress::parse("::1"),
        Some(IpAddress::V6(Ipv6Address::new([0, 0, 0, 0, 0, 0, 0, 1])))
    );
    assert_eq!(IpAddress::parse("example.com"), None);
    assert_eq!(IpAddress::parse(""), None);
}

#[test]
fn either_family_is_written_and_read_back() {
    for ip in [
        IpAddress::V4(Ipv4Address::new(203, 0, 113, 7)),
        IpAddress::V6(Ipv6Address::new([0x2001, 0xdb8, 0, 0, 0, 0, 0, 7])),
        IpAddress::V6(Ipv6Address::new([0, 0, 0, 0, 0, 0xffff, 0xcb00, 0x7107])),
    ] {
        assert_eq!(IpAddress::parse(&ip.format()), Some(ip));
    }
    assert_eq!(IpAddress::V4(Ipv4Address::new(203, 0, 113, 7)).format(), "203.0.113.7");
    assert_eq!(
        IpAddress::V6(Ipv6Address::new([0x2001, 0xdb8, 0, 0, 0, 0, 0, 7])).format(),
        "2001:db8::7"
    );
}

#[test]
fn families_know_their_record_type_and_name() {
    assert_eq!(<Ipv4Address as Address>::record_type(), RecordType::A);
    assert_eq!(<Ipv6Address as Address>::record_type(), RecordType::Aaaa);
    assert_eq!(<Ipv4Address as Address>::family(), "ipv4");
    assert_eq!(<Ipv6Address as Address>::family(), "ipv6");
}

#[test]
fn narrowing_keeps_the_family_and_reports_the_other() {
    let four = Ipv4Address::new(1, 2, 3, 4);
    let six = Ipv6Address::new([1, 2, 3, 4, 5, 6, 7, 8]);
    assert_eq!(<Ipv4Address as Address>::narrow(IpAddress::V4(four)), Ok(four));
    assert_eq!(<Ipv6Address as Address>::narrow(IpAddress::V6(six)), Ok(six));
    assert_eq!(
        <Ipv4Address as Address>::narrow(IpAddress::V6(six)),
        Err(Error::UnexpectedIpv6(six))
    );
    assert_eq!(
        <Ipv6Address as Address>::narrow(IpAddress::V4(four)),
        Err(Error::UnexpectedIpv4(four))
    );
}

#[test]
fn family_methods_agree_with_the_types() {
    assert_eq!(<Ipv4Address as Address>::parse("10.0.0.1"), Some(Ipv4Address::new(10, 0, 0, 1)));
    assert_eq!(<Ipv4Address as Address>::parse("::1"), None);
    assert_eq!(<Ipv6Address as Address>::parse("10.0.0.1"), None);
    assert_eq!(Address::format(&Ipv4Address::new(10, 0, 0, 1)), "10.0.0.1");
    assert_eq!(Address::format(&Ipv6Address::new([0; 8])), "::");
    assert!(Address::equals(&Ipv4Address::new(1, 1, 1, 1), &Ipv4Address::new(1, 1, 1, 1)));
    assert!(!Address::equals(&Ipv6Address::new([0; 8]), &Ipv6Address::new([1; 8])));
}

#[test]
fn every_pattern_of_zero_groups_is_read_back() {
    for pattern in 0u32..256 {
        for fill in [1u16, 0xffff, 0xabc] {
            let mut segments = [0u16; 8];
            for (i, s) in segments.iter_mut().enumerate() {
                if pattern & (1 << i) != 0 {
                    *s = fill;
                }
            }
            let text = text6(segments);
            assert_eq!(v6(&text), Some(segments), "{:?} as {:?}", segments, text);
            assert!(text.matches("::").count() <= 1, "{:?}", text);
        }
    }
}

#[test]
fn every_octet_is_read_back() {
    for o in 0u8..=255 {
        let address = Ipv4Address::new(o, 255 - o, o / 2, o);
        let text = address.format();
        assert_eq!(Ipv4Address::parse(&text), Some(address), "{:?}", text);
        assert_eq!(text, format!("{}.{}.{}.{}", o, 255 - o, o / 2, o));
    }
}
