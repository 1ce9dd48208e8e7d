use led_circle::race::{resolve_race, RaceOutcome};

#[test]
fn edge_wins_a_tie_with_the_deadline() {
    assert_eq!(resolve_race(true, 1000, 1000), Some(RaceOutcome::EdgeObserved));
    assert_eq!(resolve_race(true, 1500, 1000), Some(RaceOutcome::EdgeObserved));
}

#[test]
fn deadline_without_edge_times_out() {
    assert_eq!(resolve_race(false, 1000, 1000), Some(RaceOutcome::TimedOut));
    assert_eq!(resolve_race(false, 1200, 1000), Some(RaceOutcome::TimedOut));
}

#[test]
fn race_pending_before_either_side() {
    assert_eq!(resolve_race(false, 999, 1000), None);
    assert_eq!(resolve_race(true, 10, 1000), Some(RaceOutcome::EdgeObserved));
}
