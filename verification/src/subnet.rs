//! Subnet candidate enumeration: from one local address, the bounded sweep
//! of every address sharing its first three octets, one per fourth octet in
//! `[0, 255)`. The sweep assumes a /24-equivalent subnet and never produces
//! the all-ones broadcast address.

use vstd::prelude::*;
use crate::addr::CandidateAddress;
use crate::addr::LocalAddress;
use crate::addr::addr_seq;
use crate::interfaces::InterfaceIp;
use crate::interfaces::first_qualifying;
use crate::interfaces::select_local_address;

verus! {

/// The candidate with the prefix of `local` and fourth octet `d`.
pub open spec fn candidate_at(local: LocalAddress, d: int) -> CandidateAddress {
    CandidateAddress { a: local.a, b: local.b, c: local.c, d: d as u8 }
}

/// Every address sharing the first three octets of `local`, with fourth
/// octet ascending over `[0, 255)`: exactly 255 candidates, broadcast
/// excluded. Pure and total; performs no probe.
pub fn enumerate_candidates(local: &LocalAddress) -> (r: Vec<CandidateAddress>)
    ensures
        r@.len() == 255,
        forall|i: int| 0 <= i < 255 ==> #[trigger] r@[i] == candidate_at(*local, i),
{
    let mut v: Vec<CandidateAddress> = Vec::new();
    let mut x: u8 = 0;
    while x < 255
        invariant
            v@.len() == x as int,
            x <= 255,
            forall|i: int| 0 <= i < x as int ==> #[trigger] v@[i] == candidate_at(*local, i),
        decreases 255 - x,
    {
        v.push(CandidateAddress { a: local.a, b: local.b, c: local.c, d: x });
        x = x + 1;
    }
    v
}

/// No two candidates of a sweep coincide: the fourth octets all differ.
pub proof fn lemma_candidates_no_duplicates(s: Seq<CandidateAddress>, local: LocalAddress)
    requires
        forall|i: int| 0 <= i < s.len() ==> #[trigger] s[i] == candidate_at(local, i),
        s.len() <= 256,
    ensures
        forall|i: int, j: int| 0 <= i < j < s.len() ==> s[i] != s[j],
{
    assert forall|i: int, j: int| 0 <= i < j < s.len() implies s[i] != s[j] by {
        assert(s[i].d == i as u8);
        assert(s[j].d == j as u8);
    }
}

/// The dotted-quad strings of the given candidates, in the same order.
pub fn candidate_strings(cands: &Vec<CandidateAddress>) -> (r: Vec<String>)
    ensures
        r@.len() == cands@.len(),
        forall|i: int| 0 <= i < cands@.len() ==> r@[i]@ == addr_seq(
            cands@[i].a as int,
            cands@[i].b as int,
            cands@[i].c as int,
            cands@[i].d as int,
        ),
{
    let mut r: Vec<String> = Vec::new();
    let n = cands.len();
    let mut i: usize = 0;
    while i < n
        invariant
            n == cands@.len(),
            0 <= i <= n,
            r@.len() == i as int,
            forall|k: int| 0 <= k < i as int ==> r@[k]@ == addr_seq(
                cands@[k].a as int,
                cands@[k].b as int,
                cands@[k].c as int,
                cands@[k].d as int,
            ),
        decreases n - i,
    {
        let s = cands[i].to_addr_string();
        r.push(s);
        i = i + 1;
    }
    r
}

/// The whole candidate set for a host's interface addresses: the sweep of
/// the first qualifying address, or the empty set when no interface carries
/// one — an absent local address means nothing to scan, not a failure.
pub fn candidates_for_interfaces(ips: &Vec<InterfaceIp>) -> (r: Vec<CandidateAddress>)
    ensures
        first_qualifying(ips@) matches Some(a) ==> r@.len() == 255 && forall|i: int|
            0 <= i < 255 ==> #[trigger] r@[i] == candidate_at(a, i),
        first_qualifying(ips@) is None ==> r@.len() == 0,
{
    match select_local_address(ips) {
        Some(a) => enumerate_candidates(&a),
        None => Vec::new(),
    }
}

/// The candidate set for this host: the /24 sweep of the first qualifying
/// address bound to any of its interfaces, or the empty set when no
/// interface carries one. Whatever the host's interfaces turn out to be,
/// a non-empty sweep always derives from a non-loopback address.
pub fn local_scan_candidates() -> (r: Vec<CandidateAddress>)
    ensures
        r@.len() == 0 || r@.len() == 255,
        r@.len() == 255 ==> exists|a: LocalAddress|
            !a.is_loopback() && forall|i: int| 0 <= i < 255 ==> #[trigger] r@[i] == candidate_at(
                a,
                i,
            ),
{
    let ips = crate::interfaces::host_interface_ips();
    let r = candidates_for_interfaces(&ips);
    proof {
        crate::interfaces::lemma_first_qualifying_qualifies(ips@);
    }
    r
}

} // verus!
