//! Probe outcomes and scan sessions. A probe either responded or failed;
//! timeouts, refusals and transport errors all collapse to failure, and a
//! response with any status code at all counts as a responder. A session
//! accumulates outcomes as probes resolve, in completion order, and hands
//! out its responders only once every launched probe has resolved.

use vstd::prelude::*;
use crate::addr::CandidateAddress;

verus! {

/// What one probe of a candidate address came to: the address responded at
/// the transport level, or it failed. No latency or status-code information
/// is retained.
#[derive(Clone, Copy, Debug, PartialEq, Eq, Structural)]
pub enum ProbeOutcome {
    Responded(CandidateAddress),
    Failed(CandidateAddress),
}

impl ProbeOutcome {
    /// The address this outcome speaks of.
    pub open spec fn addr(self) -> CandidateAddress {
        match self {
            ProbeOutcome::Responded(a) => a,
            ProbeOutcome::Failed(a) => a,
        }
    }
}

/// The responders among a sequence of outcomes, in the order the outcomes
/// arrived; failed probes are dropped, not surfaced as errors.
pub open spec fn responders_of(s: Seq<ProbeOutcome>) -> Seq<CandidateAddress>
    decreases s.len(),
{
    if s.len() == 0 {
        Seq::empty()
    } else {
        responders_of(s.drop_last()) + (match s.last() {
            ProbeOutcome::Responded(a) => seq![a],
            ProbeOutcome::Failed(_) => Seq::<CandidateAddress>::empty(),
        })
    }
}

/// Classifies what came back from one probe. Success is transport-level
/// only: any response at all, whatever its status code, makes the address a
/// responder; no response — timeout, refusal, transport error — makes it
/// failed.
pub fn classify_probe(addr: CandidateAddress, response_status: Option<u16>) -> (r: ProbeOutcome)
    ensures
        r.addr() == addr,
        (r is Responded) <==> (response_status is Some),
{
    match response_status {
        Some(_) => ProbeOutcome::Responded(addr),
        None => ProbeOutcome::Failed(addr),
    }
}

/// One subnet scan in flight: the count of probes not yet resolved and the
/// responders accumulated so far. The session is created with every probe
/// launched, records each outcome exactly once as it resolves, and
/// surrenders its responders only when nothing is left in flight — a scan
/// never ends early on first success.
pub struct ScanSession {
    pending: usize,
    responders: Vec<CandidateAddress>,
    outcomes: Ghost<Seq<ProbeOutcome>>,
    launched: Ghost<nat>,
}

impl ScanSession {
    /// How many probes were launched for this session.
    pub closed spec fn launched_count(self) -> nat {
        self.launched@
    }

    /// The outcomes resolved so far, in completion order.
    pub closed spec fn outcomes_seq(self) -> Seq<ProbeOutcome> {
        self.outcomes@
    }

    /// How many launched probes have not yet resolved.
    pub closed spec fn pending_count(self) -> nat {
        self.pending as nat
    }

    /// The session's invariant: the responders are exactly the responders
    /// among the resolved outcomes, and resolved plus pending probes account
    /// for every launched probe.
    pub closed spec fn wf(self) -> bool {
        &&& self.responders@ == responders_of(self.outcomes@)
        &&& self.outcomes@.len() + self.pending as nat == self.launched@
    }

    /// Launches a session over the given candidates: one probe per
    /// candidate is now in flight, none has resolved.
    pub fn begin(candidates: &Vec<CandidateAddress>) -> (s: Self)
        ensures
            s.wf(),
            s.launched_count() == candidates@.len(),
            s.outcomes_seq() == Seq::<ProbeOutcome>::empty(),
            s.pending_count() == candidates@.len(),
    {
        ScanSession {
            pending: candidates.len(),
            responders: Vec::new(),
            outcomes: Ghost(Seq::empty()),
            launched: Ghost(candidates@.len()),
        }
    }

    /// True when every launched probe has resolved.
    pub fn is_complete(&self) -> (r: bool)
        ensures
            r == (self.pending_count() == 0),
    {
        self.pending == 0
    }

    /// Records the outcome of one probe that just resolved: a responder is
    /// appended to the accumulator immediately, a failure is dropped.
    pub fn record(&mut self, outcome: ProbeOutcome)
        requires
            old(self).wf(),
            old(self).pending_count() > 0,
        ensures
            final(self).wf(),
            final(self).outcomes_seq() == old(self).outcomes_seq().push(outcome),
            final(self).launched_count() == old(self).launched_count(),
            final(self).pending_count() == old(self).pending_count() - 1,
    {
        self.pending = self.pending - 1;
        match outcome {
            ProbeOutcome::Responded(a) => self.responders.push(a),
            ProbeOutcome::Failed(_) => {},
        }
        proof {
            self.outcomes@ = self.outcomes@.push(outcome);
            assert(self.outcomes@.drop_last() =~= old(self).outcomes@);
            assert(self.responders@ =~= responders_of(self.outcomes@));
        }
    }

    /// The full responder set, available only once every launched probe has
    /// resolved: the session does not surrender a partial set.
    pub fn into_responders(self) -> (r: Vec<CandidateAddress>)
        requires
            self.wf(),
            self.pending_count() == 0,
        ensures
            r@ == responders_of(self.outcomes_seq()),
    {
        self.responders
    }
}

/// The responder set never strays outside the probed set: every responder
/// among a sequence of outcomes is an address some outcome spoke of.
pub proof fn lemma_responders_subset(s: Seq<ProbeOutcome>, c: Set<CandidateAddress>)
    requires
        forall|i: int| 0 <= i < s.len() ==> c.contains(s[i].addr()),
    ensures
        forall|j: int| 0 <= j < responders_of(s).len() ==> c.contains(responders_of(s)[j]),
    decreases s.len(),
{
    if s.len() > 0 {
        lemma_responders_subset(s.drop_last(), c);
        let r = responders_of(s);
        let rp = responders_of(s.drop_last());
        assert(c.contains(s[s.len() - 1].addr()));
        assert forall|j: int| 0 <= j < r.len() implies c.contains(r[j]) by {
            if j < rp.len() {
                assert(r[j] == rp[j]);
            } else {
                assert(r[j] == s.last().addr());
            }
        }
    }
}

/// First-responder selection: none when nothing responded, else whichever
/// responder the collection presents first — completion order, with no
/// claim of being the lowest address or stable across runs.
pub fn first_responder(responders: &Vec<CandidateAddress>) -> (r: Option<CandidateAddress>)
    ensures
        (r is None) <==> responders@.len() == 0,
        responders@.len() > 0 ==> r == Some(responders@[0]),
{
    if responders.len() == 0 {
        None
    } else {
        Some(responders[0])
    }
}

} // verus!
