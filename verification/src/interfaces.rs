//! Interface inspection: enumerate the IPv4 addresses bound to the host's
//! interfaces and select the first one that is not the loopback address.
//! Enumeration order is host-defined; selection is first-match, with no
//! ranking of interfaces.

use vstd::prelude::*;
use crate::addr::LocalAddress;
use crate::addr::addr_seq;

verus! {

/// One address bound to a host interface: an IPv4 address as plain octets,
/// or an address of another family, kept only so that enumeration order is
/// preserved.
#[derive(Clone, Copy, Debug, PartialEq, Eq, Structural)]
pub enum InterfaceIp {
    V4(LocalAddress),
    Other,
}

/// An interface address qualifies when it is IPv4 and not `127.0.0.1`.
pub open spec fn qualifies(ip: InterfaceIp) -> bool {
    match ip {
        InterfaceIp::V4(a) => !a.is_loopback(),
        InterfaceIp::Other => false,
    }
}

/// The first qualifying address of the sequence, in enumeration order.
pub open spec fn first_qualifying(s: Seq<InterfaceIp>) -> Option<LocalAddress>
    decreases s.len(),
{
    if s.len() == 0 {
        None
    } else {
        match s[0] {
            InterfaceIp::V4(a) => if !a.is_loopback() {
                Some(a)
            } else {
                first_qualifying(s.drop_first())
            },
            InterfaceIp::Other => first_qualifying(s.drop_first()),
        }
    }
}

/// Relies on pnet::datalink::interfaces: every address bound to any host
/// interface, flattened in the host's enumeration order. Nothing is assumed
/// of the outcome: it depends on the machine's configuration.
#[verifier::external_body]
pub(crate) fn host_interface_ips() -> (r: Vec<InterfaceIp>)
{
    let mut out: Vec<InterfaceIp> = Vec::new();
    for iface in pnet::datalink::interfaces() {
        for ip in iface.ips {
            match ip {
                pnet::ipnetwork::IpNetwork::V4(net) => {
                    let o = net.ip().octets();
                    out.push(InterfaceIp::V4(LocalAddress { a: o[0], b: o[1], c: o[2], d: o[3] }));
                }
                pnet::ipnetwork::IpNetwork::V6(_) => out.push(InterfaceIp::Other),
            }
        }
    }
    out
}

/// Selects the first non-loopback IPv4 address of the given interface
/// addresses, or none when no interface carries one. Absence is a normal
/// outcome, not an error.
pub fn select_local_address(ips: &Vec<InterfaceIp>) -> (r: Option<LocalAddress>)
    ensures
        r == first_qualifying(ips@),
{
    let n = ips.len();
    let mut i: usize = 0;
    proof {
        assert(ips@.skip(0) =~= ips@);
    }
    while i < n
        invariant
            n == ips@.len(),
            0 <= i <= n,
            first_qualifying(ips@) == first_qualifying(ips@.skip(i as int)),
        decreases n - i,
    {
        proof {
            assert(ips@.skip(i as int).len() > 0);
            assert(ips@.skip(i as int)[0] == ips@[i as int]);
            assert(ips@.skip(i as int).drop_first() =~= ips@.skip(i as int + 1));
        }
        match ips[i] {
            InterfaceIp::V4(a) => {
                if !(a.a == 127 && a.b == 0 && a.c == 0 && a.d == 1) {
                    return Some(a);
                }
            },
            InterfaceIp::Other => {},
        }
        i = i + 1;
    }
    proof {
        assert(ips@.skip(n as int) =~= Seq::<InterfaceIp>::empty());
    }
    None
}

/// The IPv4 LAN address of this device, as a dotted-quad string; never the
/// loopback address `127.0.0.1`, and none when no interface carries a
/// qualifying address.
pub fn get_lan_addr() -> (r: Option<String>)
    ensures
        r matches Some(s) ==> exists|a: LocalAddress|
            !a.is_loopback() && s@ == addr_seq(a.a as int, a.b as int, a.c as int, a.d as int),
{
    let ips = host_interface_ips();
    match select_local_address(&ips) {
        Some(a) => {
            let s = a.to_addr_string();
            proof {
                lemma_first_qualifying_qualifies(ips@);
                assert(!a.is_loopback() && s@ == addr_seq(
                    a.a as int,
                    a.b as int,
                    a.c as int,
                    a.d as int,
                ));
            }
            Some(s)
        },
        None => None,
    }
}

/// An interface set with nothing but loopback and non-IPv4 addresses yields
/// no local address — and so, downstream, an empty candidate set and an
/// empty responder set, rather than an error.
pub proof fn lemma_no_qualifying_no_address(s: Seq<InterfaceIp>)
    requires
        forall|i: int| 0 <= i < s.len() ==> !qualifies(s[i]),
    ensures
        first_qualifying(s) is None,
    decreases s.len(),
{
    if s.len() > 0 {
        assert(!qualifies(s[0]));
        lemma_no_qualifying_no_address(s.drop_first());
    }
}

/// A first qualifying address, when there is one, is itself qualifying: it
/// is never the loopback address.
pub proof fn lemma_first_qualifying_qualifies(s: Seq<InterfaceIp>)
    ensures
        first_qualifying(s) matches Some(a) ==> !a.is_loopback(),
    decreases s.len(),
{
    if s.len() > 0 {
        lemma_first_qualifying_qualifies(s.drop_first());
    }
}

} // verus!
