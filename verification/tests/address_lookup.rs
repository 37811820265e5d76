use net_tester::first_v4;
use net_tester::get_address;
use net_tester::has_address;
use net_tester::IfaceEntry;

fn entry(name: &str, ipv4: Option<u32>) -> IfaceEntry {
    IfaceEntry { name: name.to_string(), ipv4 }
}

#[test]
fn empty_table_has_no_address() {
    let entries: Vec<IfaceEntry> = Vec::new();
    assert_eq!(first_v4(&entries, "eth0"), None);
}

#[test]
fn picks_first_ipv4_entry_of_the_interface() {
    let entries = vec![
        entry("lo", Some(0x7f00_0001)),
        entry("eth0", None),
        entry("eth0", Some(0xc0a8_0102)),
        entry("eth0", Some(0xc0a8_0103)),
    ];
    assert_eq!(first_v4(&entries, "eth0"), Some(0xc0a8_0102));
}

#[test]
fn other_interfaces_do_not_count() {
    let entries = vec![entry("wlan0", Some(0xc0a8_0105)), entry("eth1", Some(0xc0a8_0106))];
    assert_eq!(first_v4(&entries, "eth0"), None);
}

#[test]
fn entries_without_ipv4_do_not_count() {
    let entries = vec![entry("eth0", None), entry("eth0", None)];
    assert_eq!(first_v4(&entries, "eth0"), None);
}

#[test]
fn live_lookup_agrees_with_itself() {
    // The environment decides whether an address is bound; enumeration must
    // succeed either way, and both lookups must agree on the same interface.
    let got = get_address("lo").expect("interface enumeration failed");
    let has = has_address("lo").expect("interface enumeration failed");
    assert_eq!(has, got.is_some());
}

#[test]
fn missing_interface_has_no_address() {
    let got = get_address("no_such_iface_0").expect("interface enumeration failed");
    assert_eq!(got, None);
    assert_eq!(has_address("no_such_iface_0").expect("interface enumeration failed"), false);
}
