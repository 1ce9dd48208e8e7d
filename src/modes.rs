//! The mode state machine: chase passes repeat until the button interrupts
//! one, all lines go OFF until the next press, and an optional flashing
//! acknowledgement precedes the next pass. Each call takes the outcome of the
//! wait that the previous action asked for and returns the next action; the
//! firmware performs the actions on the hardware.
use vstd::prelude::*;
use crate::chase::{ChasePass, PassState, PassStatus, pass_next};
use crate::leds::{LedBank, Level, all_at, forced, set_all_leds, toggled_prefix};
use crate::race::RaceOutcome;

verus! {

/// Length of one chase step, in milliseconds.
pub const QUANTUM_MS: u64 = 1000;

/// Length of each ON and each OFF phase of the acknowledgement, in milliseconds.
pub const FLASH_MS: u64 = 200;

/// Number of ON/OFF pairs in the acknowledgement.
pub const FLASH_PAIRS: usize = 5;

#[derive(Clone, Copy, Debug, PartialEq, Eq, Structural)]
pub enum Mode {
    /// Chase passes repeat.
    Running,
    /// All lines OFF, waiting for a press.
    Disabled,
    /// The flashing acknowledgement is in progress.
    Acknowledging,
}

/// What to do to the lines before waiting.
#[derive(Clone, Copy, Debug, PartialEq, Eq, Structural)]
pub enum Effect {
    /// Leave the lines as they are.
    Keep,
    /// Flip one line.
    Toggle(usize),
    /// Force every line to one level.
    SetAll(Level),
}

/// What to wait for after the effect; its outcome is the next call's input.
#[derive(Clone, Copy, Debug, PartialEq, Eq, Structural)]
pub enum Wait {
    /// Race this many milliseconds against the next falling edge.
    Race(u64),
    /// Wait for the next falling edge, unbounded; it resolves as an edge.
    Edge,
    /// Wait this many milliseconds, ignoring the button; it resolves as a timeout.
    Delay(u64),
}

#[derive(Clone, Copy, Debug, PartialEq, Eq, Structural)]
pub struct Action {
    pub effect: Effect,
    pub wait: Wait,
}

/// Status line worth emitting for a transition.
#[derive(Clone, Copy, Debug, PartialEq, Eq, Structural)]
pub enum Report {
    Quiet,
    /// A chase pass was interrupted by the button.
    Interrupted,
    /// A chase pass completed; a new one has started.
    CycleCompleted,
    /// The button re-enabled the animation.
    Enabled,
}

/// Abstract state of the machine. `step` is the chase line whose wait is in
/// flight while running; `phase` counts the acknowledgement's half periods.
pub struct Machine {
    pub leds: Seq<Level>,
    pub mode: Mode,
    pub step: nat,
    pub phase: nat,
    pub acknowledge: bool,
}

pub open spec fn machine_wf(m: Machine) -> bool {
    &&& 1 <= m.leds.len()
    &&& m.step < m.leds.len()
    &&& m.mode == Mode::Acknowledging ==> m.phase < 2 * FLASH_PAIRS
}

/// ON for the first half of each pair, OFF for the second.
pub open spec fn flash_level(phase: nat) -> Level {
    if phase % 2 == 0 {
        Level::High
    } else {
        Level::Low
    }
}

pub open spec fn chase_action(line: nat) -> Action {
    Action { effect: Effect::Toggle(line as usize), wait: Wait::Race(QUANTUM_MS) }
}

pub open spec fn flash_action(phase: nat) -> Action {
    Action { effect: Effect::SetAll(flash_level(phase)), wait: Wait::Delay(FLASH_MS) }
}

/// A pass just begun on `leds`: line 0 toggled, its race in flight.
pub open spec fn fresh_pass(leds: Seq<Level>, acknowledge: bool) -> Machine {
    Machine { leds: toggled_prefix(leds, 1), mode: Mode::Running, step: 0, phase: 0, acknowledge }
}

/// The transition taken when the wait of the last action resolved with `o`:
/// the new state, the next action and the report.
pub open spec fn machine_next(m: Machine, o: RaceOutcome) -> (Machine, Action, Report) {
    match m.mode {
        Mode::Running => {
            let p = pass_next(PassState { leds: m.leds, step: m.step, status: PassStatus::Racing }, o);
            match p.status {
                PassStatus::Racing => (
                    Machine { leds: p.leds, step: p.step, ..m },
                    chase_action(p.step),
                    Report::Quiet,
                ),
                PassStatus::Interrupted => (
                    Machine { leds: forced(p.leds, Level::Low), mode: Mode::Disabled, ..m },
                    Action { effect: Effect::SetAll(Level::Low), wait: Wait::Edge },
                    Report::Interrupted,
                ),
                PassStatus::Completed => (
                    fresh_pass(p.leds, m.acknowledge),
                    chase_action(0),
                    Report::CycleCompleted,
                ),
            }
        },
        Mode::Disabled => match o {
            RaceOutcome::EdgeObserved => if m.acknowledge {
                (
                    Machine {
                        leds: forced(m.leds, flash_level(0)),
                        mode: Mode::Acknowledging,
                        phase: 0,
                        ..m
                    },
                    flash_action(0),
                    Report::Enabled,
                )
            } else {
                (fresh_pass(m.leds, m.acknowledge), chase_action(0), Report::Enabled)
            },
            RaceOutcome::TimedOut => (m, Action { effect: Effect::Keep, wait: Wait::Edge }, Report::Quiet),
        },
        Mode::Acknowledging => if m.phase + 1 < 2 * FLASH_PAIRS {
            (
                Machine { leds: forced(m.leds, flash_level(m.phase + 1)), phase: m.phase + 1, ..m },
                flash_action(m.phase + 1),
                Report::Quiet,
            )
        } else {
            (fresh_pass(m.leds, m.acknowledge), chase_action(0), Report::Quiet)
        },
    }
}

/// The state after the waits `outs` resolved, in order, starting from `m`.
pub open spec fn machine_run(m: Machine, outs: Seq<RaceOutcome>) -> Machine
    decreases outs.len(),
{
    if outs.len() == 0 {
        m
    } else {
        machine_next(machine_run(m, outs.drop_last()), outs.last()).0
    }
}

/// The actions issued, in order, while the waits `outs` resolved from `m`.
pub open spec fn machine_trace(m: Machine, outs: Seq<RaceOutcome>) -> Seq<Action>
    decreases outs.len(),
{
    if outs.len() == 0 {
        Seq::empty()
    } else {
        machine_trace(m, outs.drop_last()).push(
            machine_next(machine_run(m, outs.drop_last()), outs.last()).1,
        )
    }
}
proof fn lemma_flash_prefix(m: Machine, outs: Seq<RaceOutcome>, j: nat)
    requires
        machine_wf(m),
        m.mode == Mode::Disabled,
        m.acknowledge,
        outs.len() == 2 * FLASH_PAIRS + 1,
        outs[0] == RaceOutcome::EdgeObserved,
        1 <= j <= 2 * FLASH_PAIRS,
    ensures
        machine_run(m, outs.take(j as int)) == (Machine {
            leds: all_at(m.leds.len(), flash_level((j - 1) as nat)),
            mode: Mode::Acknowledging,
            phase: (j - 1) as nat,
            ..m
        }),
        machine_trace(m, outs.take(j as int)) == Seq::new(j, |i: int| flash_action(i as nat)),
    decreases j,
{
    let t = outs.take(j as int);
    if j == 1 {
        assert(t.drop_last() =~= Seq::<RaceOutcome>::empty());
        assert(machine_run(m, t.drop_last()) == m);
        assert(machine_trace(m, t.drop_last()) == Seq::<Action>::empty());
        assert(t.last() == outs[0]);
        assert(machine_run(m, t).leds =~= all_at(m.leds.len(), flash_level(0)));
        assert(machine_trace(m, t) =~= Seq::new(j, |i: int| flash_action(i as nat)));
    } else {
        assert(t.drop_last() =~= outs.take(j - 1));
        lemma_flash_prefix(m, outs, (j - 1) as nat);
        assert(machine_run(m, t).leds =~= all_at(m.leds.len(), flash_level((j - 1) as nat)));
        assert(machine_trace(m, t) =~= Seq::new(j, |i: int| flash_action(i as nat)));
    }
}

/// The acknowledgement: from `Disabled` with acknowledgement on, whatever the
/// lines show, a press starts exactly five ON/OFF pairs of `FLASH_MS` each that
/// the button cannot interrupt; after the last OFF phase every line is OFF, and
/// the wait that follows it starts a fresh chase pass from line 0.
pub proof fn lemma_acknowledgement(m: Machine, outs: Seq<RaceOutcome>)
    requires
        machine_wf(m),
        m.mode == Mode::Disabled,
        m.acknowledge,
        outs.len() == 2 * FLASH_PAIRS + 1,
        outs[0] == RaceOutcome::EdgeObserved,
    ensures
        forall|i: int|
            0 <= i < 2 * FLASH_PAIRS ==> #[trigger] machine_trace(m, outs)[i] == flash_action(
                i as nat,
            ),
        machine_run(m, outs.take(2 * FLASH_PAIRS)).leds == all_at(m.leds.len(), Level::Low),
        machine_trace(m, outs)[2 * FLASH_PAIRS] == chase_action(0),
        machine_run(m, outs) == fresh_pass(all_at(m.leds.len(), Level::Low), true),
{
    let k = 2 * FLASH_PAIRS;
    lemma_flash_prefix(m, outs, k as nat);
    assert(outs.drop_last() =~= outs.take(k as int));
}

/// The running machine: owns the line levels, the current pass and the mode.
pub struct Controller {
    leds: LedBank,
    pass: ChasePass,
    mode: Mode,
    phase: usize,
    acknowledge: bool,
}

impl View for Controller {
    type V = Machine;

    closed spec fn view(&self) -> Machine {
        Machine {
            leds: self.leds@,
            mode: self.mode,
            step: self.pass.step_spec(),
            phase: self.phase as nat,
            acknowledge: self.acknowledge,
        }
    }
}

impl Controller {
    /// Internal consistency: the view is well formed and a running machine's
    /// pass is in flight.
    pub closed spec fn wf(&self) -> bool {
        &&& machine_wf(self@)
        &&& self.pass.wf(self.leds@.len())
        &&& self.mode == Mode::Running ==> self.pass.status_spec() == PassStatus::Racing
        &&& self.mode != Mode::Acknowledging ==> self.phase == 0
    }

    /// Starts in `Running` with a pass begun on `leds`; returns the machine and
    /// its first action. `acknowledge` selects the flashing acknowledgement
    /// before each re-enabled pass.
    pub fn start(leds: LedBank, acknowledge: bool) -> (r: (Controller, Action))
        requires
            leds@.len() >= 1,
        ensures
            r.0.wf(),
            r.0@ == fresh_pass(leds@, acknowledge),
            r.1 == chase_action(0),
    {
        let mut leds = leds;
        let pass = ChasePass::begin(&mut leds);
        let c = Controller { leds, pass, mode: Mode::Running, phase: 0, acknowledge };
        (c, Action { effect: Effect::Toggle(0), wait: Wait::Race(QUANTUM_MS) })
    }

    /// Takes the outcome of the wait that the last action asked for and moves
    /// to the next state; returns the next action and the report.
    pub fn on_outcome(&mut self, o: RaceOutcome) -> (r: (Action, Report))
        requires
            old(self).wf(),
        ensures
            final(self).wf(),
            (final(self)@, r.0, r.1) == machine_next(old(self)@, o),
    {
        match self.mode {
            Mode::Running => {
                let st = self.pass.advance(&mut self.leds, o);
                match st {
                    PassStatus::Racing => {
                        let line = self.pass.step();
                        (Action { effect: Effect::Toggle(line), wait: Wait::Race(QUANTUM_MS) }, Report::Quiet)
                    },
                    PassStatus::Interrupted => {
                        set_all_leds(&mut self.leds, Level::Low);
                        self.mode = Mode::Disabled;
                        (Action { effect: Effect::SetAll(Level::Low), wait: Wait::Edge }, Report::Interrupted)
                    },
                    PassStatus::Completed => {
                        self.pass = ChasePass::begin(&mut self.leds);
                        (Action { effect: Effect::Toggle(0), wait: Wait::Race(QUANTUM_MS) }, Report::CycleCompleted)
                    },
                }
            },
            Mode::Disabled => match o {
                RaceOutcome::EdgeObserved => {
                    if self.acknowledge {
                        set_all_leds(&mut self.leds, Level::High);
                        self.mode = Mode::Acknowledging;
                        self.phase = 0;
                        (Action { effect: Effect::SetAll(Level::High), wait: Wait::Delay(FLASH_MS) }, Report::Enabled)
                    } else {
                        self.pass = ChasePass::begin(&mut self.leds);
                        self.mode = Mode::Running;
                        (Action { effect: Effect::Toggle(0), wait: Wait::Race(QUANTUM_MS) }, Report::Enabled)
                    }
                },
                RaceOutcome::TimedOut => (Action { effect: Effect::Keep, wait: Wait::Edge }, Report::Quiet),
            },
            Mode::Acknowledging => {
                if self.phase + 1 < 2 * FLASH_PAIRS {
                    self.phase = self.phase + 1;
                    let level = if self.phase % 2 == 0 { Level::High } else { Level::Low };
                    set_all_leds(&mut self.leds, level);
                    (Action { effect: Effect::SetAll(level), wait: Wait::Delay(FLASH_MS) }, Report::Quiet)
                } else {
                    self.pass = ChasePass::begin(&mut self.leds);
                    self.mode = Mode::Running;
                    self.phase = 0;
                    (Action { effect: Effect::Toggle(0), wait: Wait::Race(QUANTUM_MS) }, Report::Quiet)
                }
            },
        }
    }

    pub fn mode(&self) -> (r: Mode)
        ensures
            r == self@.mode,
    {
        self.mode
    }

    /// The chase line whose wait is in flight while running.
    pub fn step(&self) -> (r: usize)
        ensures
            r == self@.step,
    {
        self.pass.step()
    }

    /// The levels the lines show now, in index order.
    pub fn levels(&self) -> (r: Vec<Level>)
        ensures
            r@ == self@.leds,
    {
        self.leds.levels()
    }
}

} // verus!
