use net_tester::test_network;
use net_tester::DiagnosedFault;
use net_tester::EventRecorder;
use net_tester::FixedProbes;
use net_tester::Probes;
use net_tester::Status;

fn run_on(iface: &str, p: &FixedProbes) -> (Result<(), DiagnosedFault>, Vec<Status>) {
    let mut rec = EventRecorder::new();
    let r = test_network(iface, p, &mut rec);
    (r, rec.into_log())
}

fn run(p: &FixedProbes) -> (Result<(), DiagnosedFault>, Vec<Status>) {
    run_on("eth0", p)
}

fn msg(s: &Status) -> &str {
    match s {
        Status::Working(m) => m,
        Status::Error(m) => m,
        Status::Good(m) => m,
    }
}

fn is_working(s: &Status) -> bool {
    matches!(s, Status::Working(_))
}

fn is_terminal(s: &Status) -> bool {
    matches!(s, Status::Error(_) | Status::Good(_))
}

#[test]
fn no_address_terminates_at_address_check() {
    let p = FixedProbes { addr: false, dhcp: true, gateway: true, name: true, ip: true };
    let (r, log) = run(&p);
    assert_eq!(r, Err(DiagnosedFault::NoAddress));
    assert_eq!(log.len(), 1);
    assert!(matches!(&log[0], Status::Error(_)));
    assert_eq!(msg(&log[0]), "FAILED, local interface does not have an IP!");
}

#[test]
fn dhcp_failed_gateway_reachable_is_firewall_up() {
    let p = FixedProbes { addr: true, dhcp: false, gateway: true, name: true, ip: true };
    let (r, log) = run(&p);
    assert_eq!(r, Err(DiagnosedFault::FirewallUp));
    assert_eq!(log.len(), 3);
    assert_eq!(msg(&log[0]), "Interface eth0 appears to be active.");
    assert_eq!(msg(&log[1]), "DHCP Failed, local LAN/WiFi will not work correctly!");
    assert!(matches!(&log[2], Status::Error(_)));
    assert_eq!(msg(&log[2]), "Firewall is UP.");
}

#[test]
fn dhcp_failed_gateway_unreachable_is_firewall_down() {
    let p = FixedProbes { addr: true, dhcp: false, gateway: false, name: true, ip: true };
    let (r, log) = run(&p);
    assert_eq!(r, Err(DiagnosedFault::FirewallDown));
    assert_eq!(log.len(), 3);
    assert!(matches!(&log[2], Status::Error(_)));
    assert_eq!(msg(&log[2]), "Firewall is DOWN- Fix the firewall!");
}

#[test]
fn full_connectivity_returns_success() {
    let p = FixedProbes { addr: true, dhcp: true, gateway: true, name: true, ip: true };
    let (r, log) = run(&p);
    assert_eq!(r, Ok(()));
    assert_eq!(log.len(), 3);
    assert!(matches!(&log[0], Status::Working(_)));
    assert_eq!(msg(&log[0]), "Interface eth0 appears to be active.");
    assert!(matches!(&log[1], Status::Working(_)));
    assert_eq!(msg(&log[1]), "DHCP works!");
    assert!(matches!(&log[2], Status::Good(_)));
    assert_eq!(msg(&log[2]), "Internet is working.");
    let good_count = log.iter().filter(|s| matches!(s, Status::Good(_))).count();
    assert_eq!(good_count, 1);
}

#[test]
fn name_ping_fails_ip_ping_succeeds_is_dns_failure() {
    let p = FixedProbes { addr: true, dhcp: true, gateway: true, name: false, ip: true };
    let (r, log) = run(&p);
    assert_eq!(r, Err(DiagnosedFault::DnsFailure));
    assert_eq!(log.len(), 4);
    assert_eq!(msg(&log[2]), "Failed to ping google.com, network issues!");
    assert!(matches!(&log[3], Status::Error(_)));
    assert_eq!(msg(&log[3]), "Pinged 8.8.8.8, this indicates DNS has failed!");
}

#[test]
fn no_internet_gateway_reachable_is_isp_fault() {
    let p = FixedProbes { addr: true, dhcp: true, gateway: true, name: false, ip: false };
    let (r, log) = run(&p);
    assert_eq!(r, Err(DiagnosedFault::FirewallUpIsp));
    assert_eq!(log.len(), 5);
    assert_eq!(
        msg(&log[3]),
        "Failed to ping 8.8.8.8, this indicates internet is down- will test LAN now!"
    );
    assert!(matches!(&log[4], Status::Error(_)));
    assert_eq!(msg(&log[4]), "Firewall is UP, this indicates a cable modem/ISP issue!");
}

#[test]
fn no_internet_gateway_unreachable_is_firewall_down_final() {
    let p = FixedProbes { addr: true, dhcp: true, gateway: false, name: false, ip: false };
    let (r, log) = run(&p);
    assert_eq!(r, Err(DiagnosedFault::FirewallDownFinal));
    assert_eq!(log.len(), 5);
    assert!(matches!(&log[4], Status::Error(_)));
    assert_eq!(msg(&log[4]), "Firewall is DOWN, fix the firewall!");
}

#[test]
fn repeated_runs_classify_identically() {
    for bits in 0u32..32 {
        let p = FixedProbes {
            addr: bits & 1 != 0,
            dhcp: bits & 2 != 0,
            gateway: bits & 4 != 0,
            name: bits & 8 != 0,
            ip: bits & 16 != 0,
        };
        let (r1, _) = run(&p);
        let (r2, _) = run(&p);
        assert_eq!(r1, r2);
    }
}

#[test]
fn every_run_ends_with_one_terminal_event() {
    for bits in 0u32..32 {
        let p = FixedProbes {
            addr: bits & 1 != 0,
            dhcp: bits & 2 != 0,
            gateway: bits & 4 != 0,
            name: bits & 8 != 0,
            ip: bits & 16 != 0,
        };
        let (r, log) = run(&p);
        assert!(!log.is_empty());
        assert!(is_terminal(log.last().unwrap()));
        for s in &log[..log.len() - 1] {
            assert!(is_working(s));
        }
        match log.last().unwrap() {
            Status::Good(_) => assert!(r.is_ok()),
            Status::Error(_) => assert!(r.is_err()),
            Status::Working(_) => unreachable!(),
        }
    }
}

#[test]
fn active_message_names_the_interface() {
    let p = FixedProbes { addr: true, dhcp: true, gateway: true, name: true, ip: true };
    let (_, log) = run_on("wlan0", &p);
    assert_eq!(msg(&log[0]), "Interface wlan0 appears to be active.");
}

#[test]
fn fixed_probes_distinguish_ping_targets() {
    let p = FixedProbes { addr: true, dhcp: true, gateway: true, name: false, ip: true };
    assert!(p.can_ping("192.168.1.1"));
    assert!(!p.can_ping("google.com"));
    assert!(p.can_ping("8.8.8.8"));
    assert!(!p.can_ping("example.org"));
    assert!(!p.can_ping(""));
}
