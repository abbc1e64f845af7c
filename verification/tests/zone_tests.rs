use advoid::zones::ReservedZoneTable;

fn hit(table: &ReservedZoneTable, name: &str) -> Option<String> {
    table.lookup(name.as_bytes()).map(|i| String::from_utf8(table.zone_at(i).clone()).unwrap())
}

#[test]
fn private_ipv4_zones_match() {
    let t = ReservedZoneTable::rfc6303();
    assert_eq!(hit(&t, "10.in-addr.arpa."), Some("10.in-addr.arpa.".to_string()));
    assert_eq!(hit(&t, "1.2.10.in-addr.arpa."), Some("10.in-addr.arpa.".to_string()));
    assert_eq!(hit(&t, "127.in-addr.arpa."), Some("127.in-addr.arpa.".to_string()));
    assert_eq!(hit(&t, "168.192.in-addr.arpa."), Some("168.192.in-addr.arpa.".to_string()));
    assert_eq!(hit(&t, "5.4.16.172.in-addr.arpa."), Some("16.172.in-addr.arpa.".to_string()));
    assert_eq!(hit(&t, "31.172.in-addr.arpa."), Some("31.172.in-addr.arpa.".to_string()));
}

#[test]
fn ipv6_reserved_zones_match() {
    let t = ReservedZoneTable::rfc6303();
    // Loopback.
    let loopback = "1.0.0.0.0.0.0.0.0.0.0.0.0.0.0.0.0.0.0.0.0.0.0.0.0.0.0.0.0.0.0.0.ip6.arpa.";
    assert_eq!(hit(&t, loopback), Some(loopback.to_string()));
    // Unique-local.
    assert_eq!(hit(&t, "x.d.f.ip6.arpa."), Some("d.f.ip6.arpa.".to_string()));
    // Link-local.
    assert_eq!(hit(&t, "1.2.8.e.f.ip6.arpa."), Some("8.e.f.ip6.arpa.".to_string()));
    // Documentation.
    assert_eq!(hit(&t, "8.b.d.0.1.0.0.2.ip6.arpa."), Some("8.b.d.0.1.0.0.2.ip6.arpa.".to_string()));
}

#[test]
fn unreserved_names_do_not_match() {
    let t = ReservedZoneTable::rfc6303();
    assert_eq!(hit(&t, "example.com."), None);
    assert_eq!(hit(&t, "1.2.15.172.in-addr.arpa."), None);
    assert_eq!(hit(&t, "1.2.32.172.in-addr.arpa."), None);
    assert_eq!(hit(&t, "11.in-addr.arpa."), None);
    assert_eq!(hit(&t, "210.in-addr.arpa."), None);
}

#[test]
fn matching_is_case_insensitive() {
    let t = ReservedZoneTable::rfc6303();
    assert_eq!(hit(&t, "10.IN-ADDR.ARPA."), Some("10.in-addr.arpa.".to_string()));
    assert_eq!(hit(&t, "1.2.10.In-Addr.Arpa."), Some("10.in-addr.arpa.".to_string()));
    assert!(t.is_apex(b"10.IN-ADDR.ARPA.", t.lookup(b"10.IN-ADDR.ARPA.").unwrap()));
}

#[test]
fn apex_versus_subdomain() {
    let t = ReservedZoneTable::rfc6303();
    let i = t.lookup(b"10.in-addr.arpa.").unwrap();
    assert!(t.is_apex(b"10.in-addr.arpa.", i));
    let j = t.lookup(b"1.2.10.in-addr.arpa.").unwrap();
    assert!(!t.is_apex(b"1.2.10.in-addr.arpa.", j));
}

#[test]
fn matching_respects_label_boundaries() {
    let t = ReservedZoneTable::rfc6303();
    // Ends with the same bytes but not at a label boundary.
    assert_eq!(hit(&t, "110.in-addr.arpa."), None);
}

#[test]
fn table_holds_the_registry_in_order() {
    let t = ReservedZoneTable::rfc6303();
    assert_eq!(t.len(), 30);
    assert_eq!(t.zone_at(0), &b"10.in-addr.arpa.".to_vec());
    assert_eq!(t.zone_at(1), &b"16.172.in-addr.arpa.".to_vec());
    assert_eq!(t.zone_at(16), &b"31.172.in-addr.arpa.".to_vec());
    assert_eq!(t.zone_at(17), &b"168.192.in-addr.arpa.".to_vec());
    assert_eq!(t.zone_at(19), &b"127.in-addr.arpa.".to_vec());
    assert_eq!(t.zone_at(27), &b"8.b.d.0.1.0.0.2.ip6.arpa.".to_vec());
    assert_eq!(t.zone_at(28), &b"d.f.ip6.arpa.".to_vec());
    assert_eq!(t.zone_at(29), &b"8.e.f.ip6.arpa.".to_vec());
}
