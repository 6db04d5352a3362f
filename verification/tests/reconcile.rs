use porkbun::ipv4::Ipv4Address;
use porkbun::ipv6::Ipv6Address;
use porkbun::reconcile::{reconcile, record_name, Decision};
use porkbun::record::{AddressRecord, Ipv4Record, Ipv6Record};

fn record4(id: &str, name: &str, address: Ipv4Address) -> Ipv4Record {
    AddressRecord {
        id: id.to_string(),
        name: name.to_string(),
        address,
        ttl: "600".to_string(),
        prio: "0".to_string(),
        notes: None,
    }
}

fn record6(id: &str, name: &str, address: Ipv6Address) -> Ipv6Record {
    AddressRecord {
        id: id.to_string(),
        name: name.to_string(),
        address,
        ttl: "600".to_string(),
        prio: "0".to_string(),
        notes: None,
    }
}

#[test]
fn published_address_that_is_observed_is_unchanged() {
    let published = vec![record4("1", "example.com", Ipv4Address::new(1, 2, 3, 4))];
    assert_eq!(
        reconcile(&Ipv4Address::new(1, 2, 3, 4), &published, "example.com"),
        Decision::Unchanged
    );
}

#[test]
fn published_address_that_differs_is_stale() {
    let published = vec![record4("17", "example.com", Ipv4Address::new(1, 2, 3, 4))];
    assert_eq!(
        reconcile(&Ipv4Address::new(5, 6, 7, 8), &published, "example.com"),
        Decision::Stale { id: "17".to_string() }
    );
}

#[test]
fn nothing_published_is_absent_whatever_is_observed() {
    let published: Vec<Ipv4Record> = vec![];
    for observed in [Ipv4Address::new(1, 2, 3, 4), Ipv4Address::new(5, 6, 7, 8), Ipv4Address::new(0, 0, 0, 0)] {
        assert_eq!(reconcile(&observed, &published, "example.com"), Decision::Absent);
    }
    let none: Vec<Ipv6Record> = vec![];
    assert_eq!(reconcile(&Ipv6Address::new([0; 8]), &none, "example.com"), Decision::Absent);
}

#[test]
fn subdomain_does_not_match_the_bare_domain() {
    let published = vec![record4("1", "example.com", Ipv4Address::new(1, 2, 3, 4))];
    assert_eq!(
        reconcile(&Ipv4Address::new(1, 2, 3, 4), &published, "www.example.com"),
        Decision::Absent
    );
}

#[test]
fn names_match_letter_for_letter_only() {
    let published = vec![record4("1", "www.example.com", Ipv4Address::new(1, 2, 3, 4))];
    let observed = Ipv4Address::new(1, 2, 3, 4);
    for target in ["example.com", "WWW.example.com", "www.example.com.", "ww.example.com", "*.example.com", "", "www"] {
        assert_eq!(reconcile(&observed, &published, target), Decision::Absent, "{:?}", target);
    }
    assert_eq!(reconcile(&observed, &published, "www.example.com"), Decision::Unchanged);
}

#[test]
fn the_first_record_of_the_name_decides() {
    let observed = Ipv4Address::new(9, 9, 9, 9);
    let published = vec![
        record4("1", "mail.example.com", Ipv4Address::new(9, 9, 9, 9)),
        record4("2", "example.com", Ipv4Address::new(1, 2, 3, 4)),
        record4("3", "example.com", Ipv4Address::new(9, 9, 9, 9)),
    ];
    assert_eq!(
        reconcile(&observed, &published, "example.com"),
        Decision::Stale { id: "2".to_string() }
    );
    let published = vec![
        record4("1", "mail.example.com", Ipv4Address::new(1, 1, 1, 1)),
        record4("2", "example.com", Ipv4Address::new(9, 9, 9, 9)),
        record4("3", "example.com", Ipv4Address::new(1, 2, 3, 4)),
    ];
    assert_eq!(reconcile(&observed, &published, "example.com"), Decision::Unchanged);
    assert_eq!(
        reconcile(&observed, &published, "mail.example.com"),
        Decision::Stale { id: "1".to_string() }
    );
}

#[test]
fn ipv6_records_are_compared_group_for_group() {
    let observed = Ipv6Address::parse("2001:db8::1").unwrap();
    let same = vec![record6("1", "example.com", Ipv6Address::parse("2001:0DB8:0:0:0:0:0:1").unwrap())];
    assert_eq!(reconcile(&observed, &same, "example.com"), Decision::Unchanged);
    let other = vec![record6("4", "example.com", Ipv6Address::parse("2001:db8::2").unwrap())];
    assert_eq!(
        reconcile(&observed, &other, "example.com"),
        Decision::Stale { id: "4".to_string() }
    );
}

#[test]
fn the_name_is_the_subdomain_where_one_is_given() {
    assert_eq!(record_name("example.com", None), "example.com");
    assert_eq!(record_name("example.com", Some("www.example.com")), "www.example.com");
    assert_eq!(record_name("example.com", Some("www")), "www");
}
