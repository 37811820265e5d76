//! The diagnostic engine: a fixed decision tree over probe outcomes.
//!
//! The engine drives the probes in a fixed order — address check, DHCP
//! check, internet by name, internet by address, gateway — and narrows a
//! connectivity failure down to one diagnosed root cause. It emits one
//! status event per step taken, in step order, and closes the run with
//! exactly one terminal event. The whole tree is stated twice: once as the
//! spec functions [`run_events`] and [`run_verdict`], and once as the
//! executable [`test_network`], which is proved to follow them exactly.

use vstd::prelude::*;
use vstd::string::StringExecFns;
use crate::probes::Probes;
use crate::sink::EventSink;
use crate::status::is_terminal;
use crate::status::is_working;
use crate::status::EventV;
use crate::status::Status;

verus! {

/// A diagnosed root cause of a connectivity failure: the run's terminal
/// `Err` value, reported alongside a human-readable `Error` event.
#[derive(Clone, Copy, PartialEq, Eq, Structural, Debug)]
pub enum DiagnosedFault {
    /// The interface has no IPv4 address bound to it.
    NoAddress,
    /// DHCP renewal failed, yet the gateway answers: something filters the
    /// local traffic.
    FirewallUp,
    /// DHCP renewal failed and the gateway does not answer either.
    FirewallDown,
    /// The internet answers by literal address but not by name: name
    /// resolution, not connectivity, is broken.
    DnsFailure,
    /// Neither name nor address reaches the internet, yet the gateway
    /// answers: the fault lies beyond the local network.
    FirewallUpIsp,
    /// Neither the internet nor the gateway answers.
    FirewallDownFinal,
}

/// A snapshot of the five probe answers the decision tree branches on.
#[derive(Clone, Copy)]
pub struct Outcomes {
    /// The interface has an IPv4 address bound to it.
    pub has_addr: bool,
    /// DHCP renewal on the interface succeeds.
    pub dhcp: bool,
    /// The local gateway answers an echo.
    pub gateway: bool,
    /// The internet answers an echo by host name.
    pub name: bool,
    /// The internet answers an echo by literal address.
    pub ip: bool,
}

/// The probe answers a given environment gives to exactly the questions the
/// engine asks: the interface's address and DHCP state, and echoes to the
/// gateway, to the internet by name, and to the internet by address.
pub open spec fn outcomes_of<P: Probes>(p: &P, iface: Seq<char>) -> Outcomes {
    Outcomes {
        has_addr: p.addr_ok(iface),
        dhcp: p.dhcp_ok(iface),
        gateway: p.ping_ok("192.168.1.1"@),
        name: p.ping_ok("google.com"@),
        ip: p.ping_ok("8.8.8.8"@),
    }
}

/// The message of the event confirming the interface is active.
pub open spec fn msg_active(iface: Seq<char>) -> Seq<char> {
    "Interface "@ + iface + " appears to be active."@
}

/// The message of the terminal event for an interface without an address.
pub open spec fn msg_no_ip() -> Seq<char> {
    "FAILED, local interface does not have an IP!"@
}

/// The message of the progress event for a successful DHCP renewal.
pub open spec fn msg_dhcp_works() -> Seq<char> {
    "DHCP works!"@
}

/// The message of the progress event for a failed DHCP renewal.
pub open spec fn msg_dhcp_failed() -> Seq<char> {
    "DHCP Failed, local LAN/WiFi will not work correctly!"@
}

/// The message of the terminal event when DHCP fails but the gateway answers.
pub open spec fn msg_firewall_up() -> Seq<char> {
    "Firewall is UP."@
}

/// The message of the terminal event when DHCP fails and the gateway is silent.
pub open spec fn msg_firewall_down() -> Seq<char> {
    "Firewall is DOWN- Fix the firewall!"@
}

/// The message of the terminal event confirming full connectivity.
pub open spec fn msg_internet_working() -> Seq<char> {
    "Internet is working."@
}

/// The message of the progress event for a failed echo by host name.
pub open spec fn msg_name_failed() -> Seq<char> {
    "Failed to ping google.com, network issues!"@
}

/// The message of the terminal event diagnosing broken name resolution.
pub open spec fn msg_dns_failed() -> Seq<char> {
    "Pinged 8.8.8.8, this indicates DNS has failed!"@
}

/// The message of the progress event for a failed echo by literal address.
pub open spec fn msg_ip_failed() -> Seq<char> {
    "Failed to ping 8.8.8.8, this indicates internet is down- will test LAN now!"@
}

/// The message of the terminal event attributing the fault to the ISP or modem.
pub open spec fn msg_firewall_up_isp() -> Seq<char> {
    "Firewall is UP, this indicates a cable modem/ISP issue!"@
}

/// The message of the terminal event when nothing answers at all.
pub open spec fn msg_firewall_down_final() -> Seq<char> {
    "Firewall is DOWN, fix the firewall!"@
}

/// The exact sequence of events a run emits for a given probe snapshot, in
/// the order the decision tree traverses its steps.
pub open spec fn run_events(iface: Seq<char>, o: Outcomes) -> Seq<EventV> {
    if !o.has_addr {
        seq![EventV::Error(msg_no_ip())]
    } else if !o.dhcp {
        if o.gateway {
            seq![
                EventV::Working(msg_active(iface)),
                EventV::Working(msg_dhcp_failed()),
                EventV::Error(msg_firewall_up()),
            ]
        } else {
            seq![
                EventV::Working(msg_active(iface)),
                EventV::Working(msg_dhcp_failed()),
                EventV::Error(msg_firewall_down()),
            ]
        }
    } else if o.name {
        seq![
            EventV::Working(msg_active(iface)),
            EventV::Working(msg_dhcp_works()),
            EventV::Good(msg_internet_working()),
        ]
    } else if o.ip {
        seq![
            EventV::Working(msg_active(iface)),
            EventV::Working(msg_dhcp_works()),
            EventV::Working(msg_name_failed()),
            EventV::Error(msg_dns_failed()),
        ]
    } else if o.gateway {
        seq![
            EventV::Working(msg_active(iface)),
            EventV::Working(msg_dhcp_works()),
            EventV::Working(msg_name_failed()),
            EventV::Working(msg_ip_failed()),
            EventV::Error(msg_firewall_up_isp()),
        ]
    } else {
        seq![
            EventV::Working(msg_active(iface)),
            EventV::Working(msg_dhcp_works()),
            EventV::Working(msg_name_failed()),
            EventV::Working(msg_ip_failed()),
            EventV::Error(msg_firewall_down_final()),
        ]
    }
}

/// The verdict of a run for a given probe snapshot: success, or the one
/// diagnosed fault.
pub open spec fn run_verdict(o: Outcomes) -> Result<(), DiagnosedFault> {
    if !o.has_addr {
        Err(DiagnosedFault::NoAddress)
    } else if !o.dhcp {
        if o.gateway {
            Err(DiagnosedFault::FirewallUp)
        } else {
            Err(DiagnosedFault::FirewallDown)
        }
    } else if o.name {
        Ok(())
    } else if o.ip {
        Err(DiagnosedFault::DnsFailure)
    } else if o.gateway {
        Err(DiagnosedFault::FirewallUpIsp)
    } else {
        Err(DiagnosedFault::FirewallDownFinal)
    }
}

/// Run the diagnostic decision tree against `ifname`.
///
/// Each step is evaluated exactly once, in fixed order; each step taken
/// delivers its event to `tx` immediately, so a consumer can render partial
/// progress; the run closes with exactly one terminal event and returns the
/// verdict. Events and verdict are exactly those of [`run_events`] and
/// [`run_verdict`] on the snapshot of probe answers.
pub fn test_network<P: Probes, S: EventSink>(ifname: &str, probes: &P, tx: &mut S) -> (r: Result<
    (),
    DiagnosedFault,
>)
    ensures
        r == run_verdict(outcomes_of(probes, ifname@)),
        final(tx).events() == old(tx).events() + run_events(ifname@, outcomes_of(probes, ifname@)),
{
    let ghost o = outcomes_of(probes, ifname@);
    if probes.has_address(ifname) {
        let mut m = String::from_str("Interface ");
        m.append(ifname);
        m.append(" appears to be active.");
        proof {
            assert(m@ =~= msg_active(ifname@));
        }
        tx.send(Status::Working(m));
    } else {
        tx.send(Status::Error(String::from_str("FAILED, local interface does not have an IP!")));
        proof {
            assert(tx.events() =~= old(tx).events() + run_events(ifname@, o));
        }
        return Err(DiagnosedFault::NoAddress);
    }
    if probes.test_dhcp(ifname) {
        tx.send(Status::Working(String::from_str("DHCP works!")));
    } else {
        tx.send(
            Status::Working(String::from_str("DHCP Failed, local LAN/WiFi will not work correctly!")),
        );
        if probes.can_ping("192.168.1.1") {
            tx.send(Status::Error(String::from_str("Firewall is UP.")));
            proof {
                assert(tx.events() =~= old(tx).events() + run_events(ifname@, o));
            }
            return Err(DiagnosedFault::FirewallUp);
        } else {
            tx.send(Status::Error(String::from_str("Firewall is DOWN- Fix the firewall!")));
            proof {
                assert(tx.events() =~= old(tx).events() + run_events(ifname@, o));
            }
            return Err(DiagnosedFault::FirewallDown);
        }
    }
    if probes.can_ping("google.com") {
        tx.send(Status::Good(String::from_str("Internet is working.")));
        proof {
            assert(tx.events() =~= old(tx).events() + run_events(ifname@, o));
        }
        return Ok(());
    } else {
        tx.send(Status::Working(String::from_str("Failed to ping google.com, network issues!")));
    }
    if probes.can_ping("8.8.8.8") {
        tx.send(Status::Error(String::from_str("Pinged 8.8.8.8, this indicates DNS has failed!")));
        proof {
            assert(tx.events() =~= old(tx).events() + run_events(ifname@, o));
        }
        return Err(DiagnosedFault::DnsFailure);
    } else {
        tx.send(
            Status::Working(
                String::from_str(
                    "Failed to ping 8.8.8.8, this indicates internet is down- will test LAN now!",
                ),
            ),
        );
        if probes.can_ping("192.168.1.1") {
            tx.send(
                Status::Error(String::from_str("Firewall is UP, this indicates a cable modem/ISP issue!")),
            );
            proof {
                assert(tx.events() =~= old(tx).events() + run_events(ifname@, o));
            }
            return Err(DiagnosedFault::FirewallUpIsp);
        } else {
            tx.send(Status::Error(String::from_str("Firewall is DOWN, fix the firewall!")));
            proof {
                assert(tx.events() =~= old(tx).events() + run_events(ifname@, o));
            }
            return Err(DiagnosedFault::FirewallDownFinal);
        }
    }
}

/// For every interface with no bound IPv4 address, the run terminates at the
/// address check: fault `NoAddress`, and exactly one event, a terminal
/// `Error`.
pub proof fn lemma_no_address(iface: Seq<char>, o: Outcomes)
    requires
        !o.has_addr,
    ensures
        run_verdict(o) == Err::<(), DiagnosedFault>(DiagnosedFault::NoAddress),
        run_events(iface, o).len() == 1,
        run_events(iface, o).last() == EventV::Error(msg_no_ip()),
{
}

/// For every interface where DHCP renewal fails while the gateway answers,
/// the run terminates at the DHCP check with fault `FirewallUp`.
pub proof fn lemma_dhcp_failed_gateway_up(iface: Seq<char>, o: Outcomes)
    requires
        o.has_addr,
        !o.dhcp,
        o.gateway,
    ensures
        run_verdict(o) == Err::<(), DiagnosedFault>(DiagnosedFault::FirewallUp),
        run_events(iface, o).last() == EventV::Error(msg_firewall_up()),
{
}

/// For every interface where DHCP renewal fails and the gateway is silent
/// too, the run terminates at the DHCP check with fault `FirewallDown`.
pub proof fn lemma_dhcp_failed_gateway_down(iface: Seq<char>, o: Outcomes)
    requires
        o.has_addr,
        !o.dhcp,
        !o.gateway,
    ensures
        run_verdict(o) == Err::<(), DiagnosedFault>(DiagnosedFault::FirewallDown),
        run_events(iface, o).last() == EventV::Error(msg_firewall_down()),
{
}

/// When DHCP succeeds and the internet answers by name, the run returns
/// success, with exactly one `Good` event — the last — and no fault.
pub proof fn lemma_success(iface: Seq<char>, o: Outcomes)
    requires
        o.has_addr,
        o.dhcp,
        o.name,
    ensures
        run_verdict(o) == Ok::<(), DiagnosedFault>(()),
        run_events(iface, o).last() == EventV::Good(msg_internet_working()),
        forall|i: int|
            0 <= i < run_events(iface, o).len() - 1 ==> is_working(
                #[trigger] run_events(iface, o)[i],
            ),
{
}

/// When DHCP succeeds, the internet does not answer by name but answers by
/// literal address, the run diagnoses broken name resolution: `DnsFailure`.
pub proof fn lemma_dns_failure(iface: Seq<char>, o: Outcomes)
    requires
        o.has_addr,
        o.dhcp,
        !o.name,
        o.ip,
    ensures
        run_verdict(o) == Err::<(), DiagnosedFault>(DiagnosedFault::DnsFailure),
        run_events(iface, o).last() == EventV::Error(msg_dns_failed()),
{
}

/// When DHCP succeeds and the internet answers neither by name nor by
/// address, the gateway decides: an answering gateway puts the fault beyond
/// the local network (`FirewallUpIsp`); a silent one leaves it local
/// (`FirewallDownFinal`).
pub proof fn lemma_no_internet(iface: Seq<char>, o: Outcomes)
    requires
        o.has_addr,
        o.dhcp,
        !o.name,
        !o.ip,
    ensures
        o.gateway ==> run_verdict(o) == Err::<(), DiagnosedFault>(DiagnosedFault::FirewallUpIsp),
        !o.gateway ==> run_verdict(o) == Err::<(), DiagnosedFault>(
            DiagnosedFault::FirewallDownFinal,
        ),
{
}

/// Idempotence: the verdict is a function of the probe snapshot alone, so
/// repeated runs against an unchanged network environment classify the fault
/// identically. Together with the contract of [`test_network`], whose result
/// is pinned to `run_verdict` of the snapshot, two runs over equal snapshots
/// cannot disagree.
pub proof fn lemma_idempotent(o1: Outcomes, o2: Outcomes)
    requires
        o1 == o2,
    ensures
        run_verdict(o1) == run_verdict(o2),
{
}

/// Event-ordering invariant: every run emits at least one event; every event
/// before the last reports progress (`Working`), in the order the steps were
/// traversed; and the last event is terminal — `Error` or `Good`, never
/// `Working`.
pub proof fn lemma_event_order(iface: Seq<char>, o: Outcomes)
    ensures
        run_events(iface, o).len() >= 1,
        is_terminal(run_events(iface, o).last()),
        forall|i: int|
            0 <= i < run_events(iface, o).len() - 1 ==> is_working(
                #[trigger] run_events(iface, o)[i],
            ),
{
}

/// The terminal event always agrees with the returned result. A run ends
/// with a `Good` event exactly when it returns success, and with an `Error`
/// event exactly when it returns a diagnosed fault.
pub proof fn lemma_terminal_matches_verdict(iface: Seq<char>, o: Outcomes)
    ensures
        run_verdict(o) is Ok <==> run_events(iface, o).last() is Good,
        run_verdict(o) is Err <==> run_events(iface, o).last() is Error,
{
}

} // verus!
