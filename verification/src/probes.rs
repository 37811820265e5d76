//! Probe capabilities: the single factual questions the diagnostic asks of
//! its environment.
//!
//! Each probe is a boolean query with no branching logic of its own: does the
//! interface have an IPv4 address, does a DHCP renewal succeed, does a host
//! answer an ICMP echo. The diagnostic engine consumes a [`Probes`]
//! implementation; a deterministic implementation, [`FixedProbes`], lives
//! here so the decision tree can be exercised without a live network.

use vstd::prelude::*;

verus! {

/// Relies on str's `PartialEq`: two string slices are equal exactly when
/// they consist of the same characters.
#[verifier::external_body]
pub(crate) fn str_eq(a: &str, b: &str) -> (r: bool)
    ensures
        r == (a@ == b@),
{
    a == b
}

/// The probe capabilities the diagnostic engine runs on.
///
/// An implementation answers each question against one fixed state of the
/// network environment: the spec functions give that state, and each
/// executable probe returns exactly what its spec function says. Every probe
/// is cheap, stateless and idempotent, so the engine may call them in any
/// sequence without memoization concerns.
pub trait Probes {
    /// Whether the named interface has an IPv4 address bound to it. An
    /// implementation defines this as the answer its environment gives.
    open spec fn addr_ok(&self, iface: Seq<char>) -> bool {
        arbitrary()
    }

    /// Whether a DHCP renewal on the named interface succeeds in time. An
    /// implementation defines this as the answer its environment gives.
    open spec fn dhcp_ok(&self, iface: Seq<char>) -> bool {
        arbitrary()
    }

    /// Whether the named target answers an ICMP echo. An implementation
    /// defines this as the answer its environment gives.
    open spec fn ping_ok(&self, target: Seq<char>) -> bool {
        arbitrary()
    }

    /// Does the named interface have an IPv4 address bound to it?
    fn has_address(&self, iface: &str) -> (b: bool)
        ensures
            b == self.addr_ok(iface@),
    ;

    /// Does a DHCP renewal on the named interface succeed within its bounded
    /// timeout?
    fn test_dhcp(&self, iface: &str) -> (b: bool)
        ensures
            b == self.dhcp_ok(iface@),
    ;

    /// Does `target` (a hostname or a literal address) answer a bounded ICMP
    /// echo probe?
    fn can_ping(&self, target: &str) -> (b: bool)
        ensures
            b == self.ping_ok(target@),
    ;
}

/// A deterministic probe environment: one fixed outcome per question.
///
/// `ping` answers for the three targets the engine probes — the local
/// gateway, the internet by name, and the internet by a literal address —
/// and reports every other target unreachable.
pub struct FixedProbes {
    /// Whether the interface under test has an IPv4 address.
    pub addr: bool,
    /// Whether DHCP renewal succeeds on it.
    pub dhcp: bool,
    /// Whether the local gateway answers an echo.
    pub gateway: bool,
    /// Whether the internet answers an echo by host name.
    pub name: bool,
    /// Whether the internet answers an echo by literal address.
    pub ip: bool,
}

impl Probes for FixedProbes {
    open spec fn addr_ok(&self, iface: Seq<char>) -> bool {
        self.addr
    }

    open spec fn dhcp_ok(&self, iface: Seq<char>) -> bool {
        self.dhcp
    }

    open spec fn ping_ok(&self, target: Seq<char>) -> bool {
        if target == "192.168.1.1"@ {
            self.gateway
        } else if target == "google.com"@ {
            self.name
        } else if target == "8.8.8.8"@ {
            self.ip
        } else {
            false
        }
    }

    fn has_address(&self, iface: &str) -> (b: bool) {
        self.addr
    }

    fn test_dhcp(&self, iface: &str) -> (b: bool) {
        self.dhcp
    }

    fn can_ping(&self, target: &str) -> (b: bool) {
        if str_eq(target, "192.168.1.1") {
            self.gateway
        } else if str_eq(target, "google.com") {
            self.name
        } else if str_eq(target, "8.8.8.8") {
            self.ip
        } else {
            false
        }
    }
}

} // verus!
