use led_circle::chase::{ChasePass, PassStatus};
use led_circle::leds::{LedBank, Level};
use led_circle::race::RaceOutcome;

fn mixed() -> Vec<Level> {
    vec![
        Level::Low,
        Level::High,
        Level::Low,
        Level::Low,
        Level::High,
        Level::High,
        Level::Low,
        Level::High,
    ]
}

fn flipped(v: &[Level]) -> Vec<Level> {
    v.iter().map(|l| l.flip()).collect()
}

#[test]
fn uninterrupted_pass_toggles_each_line_once_in_order() {
    for n in 1..=8usize {
        let pre: Vec<Level> = mixed()[..n].to_vec();
        let mut bank = LedBank::from_levels(pre.clone());
        let mut pass = ChasePass::begin(&mut bank);
        for j in 0..n {
            assert_eq!(pass.status(), PassStatus::Racing);
            assert_eq!(pass.step(), j);
            let mut expect = flipped(&pre[..=j]);
            expect.extend_from_slice(&pre[j + 1..]);
            assert_eq!(bank.levels(), expect);
            let st = pass.advance(&mut bank, RaceOutcome::TimedOut);
            if j + 1 < n {
                assert_eq!(st, PassStatus::Racing);
            } else {
                assert_eq!(st, PassStatus::Completed);
            }
        }
        assert_eq!(bank.levels(), flipped(&pre));
    }
}

#[test]
fn interrupted_pass_keeps_partial_pattern() {
    let pre = mixed();
    for k in 0..pre.len() {
        let mut bank = LedBank::from_levels(pre.clone());
        let mut pass = ChasePass::begin(&mut bank);
        for _ in 0..k {
            assert_eq!(pass.advance(&mut bank, RaceOutcome::TimedOut), PassStatus::Racing);
        }
        assert_eq!(pass.advance(&mut bank, RaceOutcome::EdgeObserved), PassStatus::Interrupted);
        let mut expect = flipped(&pre[..=k]);
        expect.extend_from_slice(&pre[k + 1..]);
        assert_eq!(bank.levels(), expect);
    }
}

#[test]
fn finished_pass_ignores_further_outcomes() {
    let mut bank = LedBank::new(2, Level::Low);
    let mut pass = ChasePass::begin(&mut bank);
    assert_eq!(pass.advance(&mut bank, RaceOutcome::EdgeObserved), PassStatus::Interrupted);
    assert_eq!(pass.advance(&mut bank, RaceOutcome::TimedOut), PassStatus::Interrupted);
    assert_eq!(bank.levels(), vec![Level::High, Level::Low]);
}

#[test]
fn single_line_pass_completes_after_one_quantum() {
    let mut bank = LedBank::new(1, Level::High);
    let mut pass = ChasePass::begin(&mut bank);
    assert_eq!(bank.levels(), vec![Level::Low]);
    assert_eq!(pass.advance(&mut bank, RaceOutcome::TimedOut), PassStatus::Completed);
    assert_eq!(bank.levels(), vec![Level::Low]);
}
