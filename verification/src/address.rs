//! Interface address lookup.
//!
//! The operating system reports a table of interface entries, each an
//! interface name with at most one bound address. The lookup rule — take the
//! first entry of the requested interface that carries an IPv4 address — is
//! verified here over that table; the table itself comes from the operating
//! system through a trusted call. Addresses are looked up fresh on each
//! check, never cached, since the goal is to detect the current state.

use vstd::prelude::*;
use crate::probes::str_eq;

verus! {

/// One entry of the operating system's interface table: an interface's name
/// together with the IPv4 address that the entry binds to it, if any.
pub struct IfaceEntry {
    /// The interface's name.
    pub name: String,
    /// The entry's bound address, as the 32-bit value of an IPv4 address,
    /// when the entry carries one; entries bound to other address families
    /// carry none.
    pub ipv4: Option<u32>,
}

/// Enumerating the interface table failed: the diagnostic apparatus itself
/// is broken, not the network under test. Distinct from "no address found".
#[derive(Clone, Copy, Debug)]
pub struct EnumerationFailure;

/// The first IPv4 address the table binds to the named interface, or none
/// when no entry of that interface carries one.
pub open spec fn spec_first_v4(entries: Seq<IfaceEntry>, iface: Seq<char>) -> Option<u32>
    decreases entries.len(),
{
    if entries.len() == 0 {
        None::<u32>
    } else if entries[0].name@ == iface && entries[0].ipv4 is Some {
        entries[0].ipv4
    } else {
        spec_first_v4(entries.drop_first(), iface)
    }
}

/// The lookup rule over a given interface table: the first IPv4 address
/// bound to the named interface.
pub fn first_v4(entries: &Vec<IfaceEntry>, iface: &str) -> (r: Option<u32>)
    ensures
        r == spec_first_v4(entries@, iface@),
{
    let mut i: usize = 0;
    assert(entries@.skip(0) =~= entries@);
    while i < entries.len()
        invariant
            i <= entries@.len(),
            spec_first_v4(entries@, iface@) == spec_first_v4(
                entries@.skip(i as int),
                iface@,
            ),
        decreases entries@.len() - i,
    {
        let has_v4 = entries[i].ipv4.is_some();
        if has_v4 && str_eq(entries[i].name.as_str(), iface) {
            assert(entries@.skip(i as int)[0] == entries@[i as int]);
            return entries[i].ipv4;
        }
        assert(entries@.skip(i as int)[0] == entries@[i as int]);
        assert(entries@.skip(i as int).drop_first() =~= entries@.skip(i as int + 1));
        i = i + 1;
    }
    assert(entries@.skip(i as int) =~= Seq::<IfaceEntry>::empty());
    None
}

/// Relies on nix::ifaddrs::getifaddrs: it reports one entry per address
/// bound to an interface, with the interface's name; the conversion keeps
/// the address when it is IPv4 and drops it otherwise. Returns none when the
/// enumeration itself fails.
#[verifier::external_body]
fn system_interface_entries() -> (r: Option<Vec<IfaceEntry>>)
{
    match nix::ifaddrs::getifaddrs() {
        Ok(addrs) => Some(
            addrs.map(|ia| IfaceEntry {
                name: ia.interface_name,
                ipv4: ia.address.and_then(|a| a.as_sockaddr_in().map(|s| u32::from(s.ip()))),
            }).collect(),
        ),
        Err(_) => None,
    }
}

/// The first IPv4 address currently bound to the named interface, looked up
/// fresh from the operating system, or none if the interface has no IPv4
/// address or does not exist. An enumeration failure surfaces as the
/// distinct fatal error, never as "no address". The answer depends on the
/// live interface table, so no contract can pin it; the selection rule it
/// applies to that table is the verified [`first_v4`].
pub fn get_address(iface: &str) -> (r: Result<Option<u32>, EnumerationFailure>)
{
    match system_interface_entries() {
        Some(entries) => {
            let a = first_v4(&entries, iface);
            Ok(a)
        },
        None => Err(EnumerationFailure),
    }
}

/// Whether the named interface currently has an IPv4 address bound to it,
/// judged by [`first_v4`] over one fresh enumeration of the interface table.
pub fn has_address(iface: &str) -> (r: Result<bool, EnumerationFailure>)
{
    match system_interface_entries() {
        Some(entries) => {
            let a = first_v4(&entries, iface);
            Ok(a.is_some())
        },
        None => Err(EnumerationFailure),
    }
}

} // verus!
