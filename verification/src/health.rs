//! Health polling: one fixed target probed repeatedly at a fixed interval
//! until a probe succeeds or an optional attempt budget runs out. The loop
//! itself performs I/O and sleeps, so it lives with the caller; here is the
//! poller's state machine, with the attempt and sleep accounting proved.
//!
//! States: probing, sleeping, succeeded (terminal), exhausted (terminal).
//! A successful probe ends the poll at once; a failed one leads to a sleep
//! when attempts remain (or the budget is unbounded), and straight to
//! exhaustion — without a final sleep — when it was the last attempt.

use vstd::prelude::*;

verus! {

/// Where a health poll stands.
#[derive(Clone, Copy, Debug, PartialEq, Eq, Structural)]
pub enum PollState {
    Probing,
    Sleeping,
    Succeeded,
    Exhausted,
}

/// The state of one health poll: the current state, the attempts left of a
/// bounded budget (none means unbounded retry), and how many probes and
/// interposed sleeps have happened.
#[derive(Clone, Copy, Debug, PartialEq, Eq)]
pub struct HealthPoller {
    pub state: PollState,
    pub remaining: Option<u16>,
    pub attempts: u64,
    pub sleeps: u64,
}

/// The policy of one health poll: the target URL, the per-attempt timeout,
/// the interval slept between attempts, and the optional attempt budget —
/// none means retry forever.
pub struct HealthCheckPolicy {
    pub target: String,
    pub timeout_ms: u64,
    pub interval_ms: u64,
    pub max_attempts: Option<u16>,
}

/// The poller a poll starts from: probing, with the full budget, unless the
/// budget is zero, in which case it is exhausted before any probe.
pub open spec fn spec_start(max_attempts: Option<u16>) -> HealthPoller {
    HealthPoller {
        state: if max_attempts == Some(0u16) {
            PollState::Exhausted
        } else {
            PollState::Probing
        },
        remaining: max_attempts,
        attempts: 0,
        sleeps: 0,
    }
}

/// One probe resolving while probing. Success ends the poll at once.
/// Failure consumes one attempt of a bounded budget: exhaustion when it was
/// the last, a sleep otherwise; an unbounded poller always sleeps and
/// retries.
pub open spec fn spec_probe(p: HealthPoller, success: bool) -> HealthPoller {
    if success {
        HealthPoller {
            state: PollState::Succeeded,
            remaining: p.remaining,
            attempts: (p.attempts + 1) as u64,
            sleeps: p.sleeps,
        }
    } else {
        match p.remaining {
            None => HealthPoller {
                state: PollState::Sleeping,
                remaining: None,
                attempts: (p.attempts + 1) as u64,
                sleeps: p.sleeps,
            },
            Some(k) => HealthPoller {
                state: if k <= 1 {
                    PollState::Exhausted
                } else {
                    PollState::Sleeping
                },
                remaining: Some(if k > 0 {
                    (k - 1) as u16
                } else {
                    0u16
                }),
                attempts: (p.attempts + 1) as u64,
                sleeps: p.sleeps,
            },
        }
    }
}

/// The interval elapsing while sleeping: back to probing, one more sleep on
/// the books.
pub open spec fn spec_sleep_done(p: HealthPoller) -> HealthPoller {
    HealthPoller {
        state: PollState::Probing,
        remaining: p.remaining,
        attempts: p.attempts,
        sleeps: (p.sleeps + 1) as u64,
    }
}

/// A whole poll run over the given probe results, as the polling loop
/// drives it: resolve a probe, sleep out the interval whenever the poller
/// asks for one, and repeat.
pub open spec fn run_outcomes(p: HealthPoller, results: Seq<bool>) -> HealthPoller
    decreases results.len(),
{
    if results.len() == 0 {
        p
    } else {
        let p1 = spec_probe(p, results[0]);
        let p2 = if p1.state is Sleeping {
            spec_sleep_done(p1)
        } else {
            p1
        };
        run_outcomes(p2, results.drop_first())
    }
}

impl HealthPoller {
    /// Starts a poll with the given attempt budget; none means unbounded.
    pub fn start(max_attempts: Option<u16>) -> (r: Self)
        ensures
            r == spec_start(max_attempts),
    {
        let state = match max_attempts {
            Some(0u16) => PollState::Exhausted,
            _ => PollState::Probing,
        };
        HealthPoller { state, remaining: max_attempts, attempts: 0, sleeps: 0 }
    }

    /// Records that the probe in flight resolved, successfully or not.
    pub fn record_probe(&mut self, success: bool)
        requires
            old(self).state is Probing,
            old(self).attempts < u64::MAX,
        ensures
            *final(self) == spec_probe(*old(self), success),
    {
        self.attempts = self.attempts + 1;
        if success {
            self.state = PollState::Succeeded;
        } else {
            match self.remaining {
                None => {
                    self.state = PollState::Sleeping;
                },
                Some(k) => {
                    let k2: u16 = if k > 0 {
                        k - 1
                    } else {
                        0
                    };
                    self.remaining = Some(k2);
                    self.state = if k <= 1 {
                        PollState::Exhausted
                    } else {
                        PollState::Sleeping
                    };
                },
            }
        }
    }

    /// Records that the between-attempt interval has elapsed.
    pub fn finish_sleep(&mut self)
        requires
            old(self).state is Sleeping,
            old(self).sleeps < u64::MAX,
        ensures
            *final(self) == spec_sleep_done(*old(self)),
    {
        self.state = PollState::Probing;
        self.sleeps = self.sleeps + 1;
    }

    /// True when the poll has ended, one way or the other.
    pub fn is_done(&self) -> (r: bool)
        ensures
            r == (self.state is Succeeded || self.state is Exhausted),
    {
        match self.state {
            PollState::Succeeded => true,
            PollState::Exhausted => true,
            PollState::Probing => false,
            PollState::Sleeping => false,
        }
    }

    /// True when the poll ended in success.
    pub fn succeeded(&self) -> (r: bool)
        ensures
            r == (self.state is Succeeded),
    {
        match self.state {
            PollState::Succeeded => true,
            _ => false,
        }
    }
}

impl HealthCheckPolicy {
    /// The poller this policy starts from.
    pub fn poller(&self) -> (r: HealthPoller)
        ensures
            r == spec_start(self.max_attempts),
    {
        HealthPoller::start(self.max_attempts)
    }
}

/// A probing poller whose bounded budget equals the number of probes left,
/// all of which fail, ends exhausted: every budgeted attempt is made, with
/// a sleep after each failure except the last.
proof fn lemma_all_failures_run(p: HealthPoller, results: Seq<bool>)
    requires
        p.state is Probing,
        p.remaining matches Some(k) && k as int == results.len(),
        results.len() >= 1,
        forall|i: int| 0 <= i < results.len() ==> !results[i],
        p.attempts + results.len() <= u64::MAX,
        p.sleeps + results.len() <= u64::MAX,
    ensures
        run_outcomes(p, results).state is Exhausted,
        run_outcomes(p, results).attempts == p.attempts + results.len(),
        run_outcomes(p, results).sleeps == p.sleeps + results.len() - 1,
    decreases results.len(),
{
    let p1 = spec_probe(p, results[0]);
    assert(!results[0]);
    if results.len() == 1 {
        assert(p1.state is Exhausted);
        assert(run_outcomes(p, results) == run_outcomes(p1, results.drop_first()));
        assert(results.drop_first().len() == 0);
        assert(run_outcomes(p1, results.drop_first()) == p1);
    } else {
        assert(p1.state is Sleeping);
        let p2 = spec_sleep_done(p1);
        assert(run_outcomes(p, results) == run_outcomes(p2, results.drop_first()));
        lemma_all_failures_run(p2, results.drop_first());
    }
}

/// A poll with a bounded budget against a target that never succeeds ends
/// exhausted — reported as plain failure — after exactly its budgeted
/// number of attempts, with exactly one fewer interposed sleeps: the poller
/// sleeps between attempts, never after the final one.
pub proof fn lemma_bounded_poll_exhausts(n: u16, results: Seq<bool>)
    requires
        n >= 1,
        results.len() == n as int,
        forall|i: int| 0 <= i < results.len() ==> !results[i],
    ensures
        run_outcomes(spec_start(Some(n)), results).state is Exhausted,
        run_outcomes(spec_start(Some(n)), results).attempts == n as int,
        run_outcomes(spec_start(Some(n)), results).sleeps == n as int - 1,
{
    lemma_all_failures_run(spec_start(Some(n)), results);
}

/// A probing unbounded poller whose probes fail until the last one, which
/// succeeds, ends in success, one attempt per probe.
proof fn lemma_unbounded_run(p: HealthPoller, results: Seq<bool>)
    requires
        p.state is Probing,
        p.remaining is None,
        results.len() >= 1,
        forall|i: int| 0 <= i < results.len() - 1 ==> !results[i],
        results[results.len() - 1],
        p.attempts + results.len() <= u64::MAX,
        p.sleeps + results.len() <= u64::MAX,
    ensures
        run_outcomes(p, results).state is Succeeded,
        run_outcomes(p, results).attempts == p.attempts + results.len(),
    decreases results.len(),
{
    let p1 = spec_probe(p, results[0]);
    if results.len() == 1 {
        assert(results[0]);
        assert(p1.state is Succeeded);
        assert(run_outcomes(p, results) == run_outcomes(p1, results.drop_first()));
        assert(results.drop_first().len() == 0);
        assert(run_outcomes(p1, results.drop_first()) == p1);
    } else {
        assert(!results[0]);
        assert(p1.state is Sleeping);
        let p2 = spec_sleep_done(p1);
        assert(run_outcomes(p, results) == run_outcomes(p2, results.drop_first()));
        lemma_unbounded_run(p2, results.drop_first());
    }
}

/// An unbounded poll against a target that starts succeeding on some
/// attempt returns success, having made exactly that many attempts: retry
/// forever means the first success always ends the poll.
pub proof fn lemma_unbounded_poll_succeeds(results: Seq<bool>)
    requires
        results.len() >= 1,
        results.len() <= u64::MAX,
        forall|i: int| 0 <= i < results.len() - 1 ==> !results[i],
        results[results.len() - 1],
    ensures
        run_outcomes(spec_start(None), results).state is Succeeded,
        run_outcomes(spec_start(None), results).attempts == results.len(),
{
    lemma_unbounded_run(spec_start(None), results);
}

} // verus!
