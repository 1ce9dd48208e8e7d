//! One chase pass: toggle each line in index order, racing a quantum wait
//! against the button after every toggle.
use vstd::prelude::*;
use crate::leds::{LedBank, Level, toggled_prefix};
use crate::race::RaceOutcome;

verus! {

/// Where a chase pass stands.
#[derive(Clone, Copy, Debug, PartialEq, Eq, Structural)]
pub enum PassStatus {
    /// A line has been toggled and its wait is in flight.
    Racing,
    /// The edge was observed; the remaining lines were not toggled.
    Interrupted,
    /// Every line was toggled without interruption.
    Completed,
}

/// Abstract state of a pass: the line levels, the line whose wait is (or was
/// last) in flight, and the status.
pub struct PassState {
    pub leds: Seq<Level>,
    pub step: nat,
    pub status: PassStatus,
}

/// The state right after a pass starts on `leds`: line 0 toggled.
pub open spec fn pass_begin(leds: Seq<Level>) -> PassState {
    PassState { leds: toggled_prefix(leds, 1), step: 0, status: PassStatus::Racing }
}

/// One race resolved during a pass. A finished pass stays as it is.
pub open spec fn pass_next(s: PassState, o: RaceOutcome) -> PassState {
    if s.status != PassStatus::Racing {
        s
    } else {
        match o {
            RaceOutcome::EdgeObserved => PassState { status: PassStatus::Interrupted, ..s },
            RaceOutcome::TimedOut => if s.step + 1 < s.leds.len() {
                PassState {
                    leds: s.leds.update(s.step + 1 as int, s.leds[s.step + 1 as int].flipped()),
                    step: s.step + 1,
                    status: PassStatus::Racing,
                }
            } else {
                PassState { status: PassStatus::Completed, ..s }
            },
        }
    }
}

/// The state after the races `outs` resolved, in order, starting from `s`.
pub open spec fn pass_run(s: PassState, outs: Seq<RaceOutcome>) -> PassState
    decreases outs.len(),
{
    if outs.len() == 0 {
        s
    } else {
        pass_next(pass_run(s, outs.drop_last()), outs.last())
    }
}

/// `k` races that all timed out.
pub open spec fn timeouts(k: nat) -> Seq<RaceOutcome> {
    Seq::new(k, |i: int| RaceOutcome::TimedOut)
}

proof fn lemma_timeouts_prefix(pre: Seq<Level>, j: nat)
    requires
        1 <= pre.len(),
        j < pre.len(),
    ensures
        pass_run(pass_begin(pre), timeouts(j)) == (PassState {
            leds: toggled_prefix(pre, j + 1),
            step: j,
            status: PassStatus::Racing,
        }),
    decreases j,
{
    if j > 0 {
        assert(timeouts(j).drop_last() =~= timeouts((j - 1) as nat));
        lemma_timeouts_prefix(pre, (j - 1) as nat);
        let prev = toggled_prefix(pre, j);
        assert(prev.update(j as int, prev[j as int].flipped()) =~= toggled_prefix(pre, j + 1));
    } else {
        assert(timeouts(0) =~= Seq::<RaceOutcome>::empty());
    }
}

/// A pass on `n >= 1` lines with no edge: after `j < n` timeouts exactly lines
/// `0..=j` have been toggled, once each and in index order; the `n`-th timeout
/// reports the cycle completed with every line toggled exactly once.
pub proof fn lemma_uninterrupted_pass(pre: Seq<Level>)
    requires
        1 <= pre.len(),
    ensures
        forall|j: nat| j < pre.len() ==> #[trigger] pass_run(pass_begin(pre), timeouts(j)) == (
        PassState { leds: toggled_prefix(pre, j + 1), step: j, status: PassStatus::Racing }),
        pass_run(pass_begin(pre), timeouts(pre.len())).status == PassStatus::Completed,
        pass_run(pass_begin(pre), timeouts(pre.len())).leds == toggled_prefix(pre, pre.len()),
{
    assert forall|j: nat| j < pre.len() implies #[trigger] pass_run(pass_begin(pre), timeouts(j)) == (
    PassState { leds: toggled_prefix(pre, j + 1), step: j, status: PassStatus::Racing }) by {
        lemma_timeouts_prefix(pre, j);
    }
    let n = pre.len();
    lemma_timeouts_prefix(pre, (n - 1) as nat);
    assert(timeouts(n).drop_last() =~= timeouts((n - 1) as nat));
}

/// A pass interrupted by the edge in the wait that follows the toggle of line
/// `k`: lines `0..=k` are toggled from their state before the pass, lines after
/// `k` are unchanged, and the pass reports the interruption.
pub proof fn lemma_interrupted_pass(pre: Seq<Level>, k: nat)
    requires
        k < pre.len(),
    ensures
        pass_run(pass_begin(pre), timeouts(k).push(RaceOutcome::EdgeObserved)).status
            == PassStatus::Interrupted,
        pass_run(pass_begin(pre), timeouts(k).push(RaceOutcome::EdgeObserved)).leds
            == toggled_prefix(pre, k + 1),
{
    lemma_timeouts_prefix(pre, k);
    let outs = timeouts(k).push(RaceOutcome::EdgeObserved);
    assert(outs.drop_last() =~= timeouts(k));
}

/// An executing chase pass. The line levels live in the `LedBank` handed to
/// each call, so the button owner can lend the bank for one pass at a time.
pub struct ChasePass {
    step: usize,
    status: PassStatus,
}

impl ChasePass {
    pub closed spec fn step_spec(&self) -> nat {
        self.step as nat
    }

    pub closed spec fn status_spec(&self) -> PassStatus {
        self.status
    }

    /// The abstract state of this pass over the line levels `leds`.
    pub open spec fn state(&self, leds: Seq<Level>) -> PassState {
        PassState { leds, step: self.step_spec(), status: self.status_spec() }
    }

    /// The pass is well formed on a bank of `n` lines.
    pub open spec fn wf(&self, n: nat) -> bool {
        self.step_spec() < n
    }

    /// Starts a pass: toggles line 0, whose wait is then in flight.
    pub fn begin(leds: &mut LedBank) -> (r: ChasePass)
        requires
            old(leds)@.len() >= 1,
        ensures
            r.wf(final(leds)@.len()),
            r.state(final(leds)@) == pass_begin(old(leds)@),
    {
        leds.toggle(0);
        proof {
            assert(leds@ =~= toggled_prefix(old(leds)@, 1));
        }
        ChasePass { step: 0, status: PassStatus::Racing }
    }

    /// Index of the line whose wait is, or was last, in flight.
    pub fn step(&self) -> (r: usize)
        ensures
            r == self.step_spec(),
    {
        self.step
    }

    pub fn status(&self) -> (r: PassStatus)
        ensures
            r == self.status_spec(),
    {
        self.status
    }

    /// Applies the outcome of the race that followed the last toggle: on an
    /// edge the pass stops, on a timeout the next line is toggled, or the pass
    /// completes after the last line. Returns the new status.
    pub fn advance(&mut self, leds: &mut LedBank, o: RaceOutcome) -> (r: PassStatus)
        requires
            old(self).wf(old(leds)@.len()),
        ensures
            final(self).wf(final(leds)@.len()),
            final(leds)@.len() == old(leds)@.len(),
            final(self).state(final(leds)@) == pass_next(old(self).state(old(leds)@), o),
            r == final(self).status_spec(),
    {
        if self.status != PassStatus::Racing {
            return self.status;
        }
        match o {
            RaceOutcome::EdgeObserved => {
                self.status = PassStatus::Interrupted;
            },
            RaceOutcome::TimedOut => {
                if self.step < leds.len() - 1 {
                    self.step = self.step + 1;
                    leds.toggle(self.step);
                } else {
                    self.status = PassStatus::Completed;
                }
            },
        }
        self.status
    }
}

} // verus!
