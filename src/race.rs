//! First-completed-wins race between a button edge and a quantum deadline.
use vstd::prelude::*;

verus! {

/// How a race between the edge wait and its deadline resolved.
#[derive(Clone, Copy, Debug, PartialEq, Eq, Structural)]
pub enum RaceOutcome {
    EdgeObserved,
    TimedOut,
}

/// Resolves a race from what is known at time `now_ms`: whether the edge has
/// been seen, and the deadline of the timer. `None` while neither side has
/// completed. An edge that arrives together with the deadline wins, so a press
/// is never dropped in favour of the clock.
pub fn resolve_race(edge_seen: bool, now_ms: u64, deadline_ms: u64) -> (r: Option<RaceOutcome>)
    ensures
        edge_seen ==> r == Some(RaceOutcome::EdgeObserved),
        !edge_seen && now_ms >= deadline_ms ==> r == Some(RaceOutcome::TimedOut),
        !edge_seen && now_ms < deadline_ms ==> r is None,
{
    if edge_seen {
        Some(RaceOutcome::EdgeObserved)
    } else if now_ms >= deadline_ms {
        Some(RaceOutcome::TimedOut)
    } else {
        None
    }
}

} // verus!
