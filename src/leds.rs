//! The LED array as the library sees it: one logic level per output line.
use vstd::prelude::*;

verus! {

/// Logic level of one output line: `Low` is OFF, `High` is ON.
#[derive(Clone, Copy, Debug, PartialEq, Eq, Structural)]
pub enum Level {
    Low,
    High,
}

impl Level {
    /// The other level.
    pub open spec fn flipped(self) -> Level {
        match self {
            Level::Low => Level::High,
            Level::High => Level::Low,
        }
    }

    pub fn flip(self) -> (r: Level)
        ensures
            r == self.flipped(),
    {
        match self {
            Level::Low => Level::High,
            Level::High => Level::Low,
        }
    }
}

/// `n` lines, all at `level`.
pub open spec fn all_at(n: nat, level: Level) -> Seq<Level> {
    Seq::new(n, |i: int| level)
}

/// `s` with each of its first `k` lines flipped and the others left as they are.
pub open spec fn toggled_prefix(s: Seq<Level>, k: nat) -> Seq<Level> {
    Seq::new(s.len(), |i: int| if i < k { s[i].flipped() } else { s[i] })
}

/// What forcing every line of `s` to `level` leaves behind.
pub open spec fn forced(s: Seq<Level>, level: Level) -> Seq<Level> {
    all_at(s.len(), level)
}

/// Forcing all lines to one level a second time changes nothing.
pub proof fn lemma_force_idempotent(s: Seq<Level>, level: Level)
    ensures
        forced(forced(s, level), level) == forced(s, level),
{
    assert(forced(forced(s, level), level) =~= forced(s, level));
}

/// A fixed-length bank of output lines; identity is positional.
pub struct LedBank {
    lines: Vec<Level>,
}

impl View for LedBank {
    type V = Seq<Level>;

    closed spec fn view(&self) -> Seq<Level> {
        self.lines@
    }
}

impl LedBank {
    /// `n` lines, all at `level`.
    pub fn new(n: usize, level: Level) -> (r: LedBank)
        ensures
            r@ == all_at(n as nat, level),
    {
        let mut lines: Vec<Level> = Vec::new();
        let mut i: usize = 0;
        while i < n
            invariant
                i <= n,
                lines@ == all_at(i as nat, level),
            decreases n - i,
        {
            lines.push(level);
            i = i + 1;
            assert(lines@ =~= all_at(i as nat, level));
        }
        LedBank { lines }
    }

    /// A bank whose lines start at the given levels, in order.
    pub fn from_levels(levels: Vec<Level>) -> (r: LedBank)
        ensures
            r@ == levels@,
    {
        LedBank { lines: levels }
    }

    pub fn len(&self) -> (r: usize)
        ensures
            r == self@.len(),
    {
        self.lines.len()
    }

    /// Level of line `i`.
    pub fn level(&self, i: usize) -> (r: Level)
        requires
            i < self@.len(),
        ensures
            r == self@[i as int],
    {
        self.lines[i]
    }

    /// The levels of all lines, in index order.
    pub fn levels(&self) -> (r: Vec<Level>)
        ensures
            r@ == self@,
    {
        self.lines.clone()
    }

    /// Flips line `i` from whatever level it had.
    pub fn toggle(&mut self, i: usize)
        requires
            i < old(self)@.len(),
        ensures
            final(self)@ == old(self)@.update(i as int, old(self)@[i as int].flipped()),
    {
        let l = self.lines[i].flip();
        self.lines.set(i, l);
    }
}

/// Forces every line of the bank to `level`.
pub fn set_all_leds(leds: &mut LedBank, level: Level)
    ensures
        final(leds)@ == forced(old(leds)@, level),
{
    let n = leds.lines.len();
    let mut i: usize = 0;
    while i < n
        invariant
            i <= n,
            n == leds.lines@.len(),
            n == old(leds)@.len(),
            forall|j: int| 0 <= j < i ==> leds.lines@[j] == level,
        decreases n - i,
    {
        leds.lines.set(i, level);
        i = i + 1;
    }
    assert(leds@ =~= forced(old(leds)@, level));
}

} // verus!
