//! The speaker's beep: a square wave driven one half period at a time from
//! a timer interrupt.

use vstd::prelude::*;

verus! {

/// Period of the beep's square wave, in timer counts.
pub const BEEP_PERIOD: u16 = 2000;

/// Half periods a beep lasts.
pub const BEEP_LENGTH: u32 = 40;

/// What the timer interrupt is to do.
#[derive(Debug, PartialEq, Eq, Structural)]
pub enum Tick {
    /// The beep is over: stop the timer.
    Silence,
    /// Drive the speaker pin to `high` and run the timer again for
    /// `restart` counts.
    Toggle { high: bool, restart: u16 },
}

/// The state of the beeper: the level the speaker pin was last driven to and
/// the half periods left in the current beep.
pub struct Beeper {
    pin_high: bool,
    note_time: u32,
}

impl Beeper {
    /// Whether the speaker pin is driven high.
    pub closed spec fn high(self) -> bool {
        self.pin_high
    }

    /// Half periods left in the current beep.
    pub closed spec fn remaining(self) -> u32 {
        self.note_time
    }

    /// The beeper after a beep is started.
    pub closed spec fn started(self) -> Beeper {
        Beeper { pin_high: self.pin_high, note_time: BEEP_LENGTH }
    }

    /// The beeper after one timer interrupt.
    pub closed spec fn ticked(self) -> Beeper {
        if self.note_time == 0 {
            self
        } else {
            Beeper { pin_high: !self.pin_high, note_time: (self.note_time - 1) as u32 }
        }
    }

    /// The beeper after `n` timer interrupts.
    pub open spec fn ticked_n(self, n: nat) -> Beeper
        decreases n,
    {
        if n == 0 {
            self
        } else {
            self.ticked_n((n - 1) as nat).ticked()
        }
    }

    /// A silent beeper with the pin low.
    pub fn new() -> (b: Self)
        ensures
            !b.high(),
            b.remaining() == 0,
    {
        Beeper { pin_high: false, note_time: 0 }
    }

    /// Whether the speaker pin is driven high.
    pub fn pin_high(&self) -> (h: bool)
        ensures
            h == self.high(),
    {
        self.pin_high
    }

    /// Half periods left in the current beep.
    pub fn note_time(&self) -> (n: u32)
        ensures
            n == self.remaining(),
    {
        self.note_time
    }

    /// Starts a beep (or starts the current one over) and returns the
    /// timer counts to the first interrupt.
    pub fn start(&mut self) -> (count: u16)
        ensures
            *final(self) == old(self).started(),
            final(self).remaining() == BEEP_LENGTH,
            final(self).high() == old(self).high(),
            count == BEEP_PERIOD / 2,
    {
        self.note_time = BEEP_LENGTH;
        BEEP_PERIOD / 2
    }

    /// Handles one timer interrupt: while the beep lasts, turns the speaker
    /// pin over and runs the timer for another half period; after it, stops
    /// the timer.
    pub fn tick(&mut self) -> (t: Tick)
        ensures
            *final(self) == old(self).ticked(),
            old(self).remaining() == 0 ==> t == Tick::Silence && *final(self) == *old(self),
            old(self).remaining() > 0 ==> {
                &&& t == (Tick::Toggle { high: !old(self).high(), restart: BEEP_PERIOD / 2 })
                &&& final(self).high() == !old(self).high()
                &&& final(self).remaining() == old(self).remaining() - 1
            },
    {
        if self.note_time == 0 {
            return Tick::Silence;
        }
        self.pin_high = !self.pin_high;
        self.note_time = self.note_time - 1;
        Tick::Toggle { high: self.pin_high, restart: BEEP_PERIOD / 2 }
    }
}

/// While a beep lasts, each interrupt turns the pin over once: after `n`
/// interrupts, no more than the half periods that were left, `n` fewer are
/// left and the pin has turned over `n` times.
pub proof fn ticks_count_down(b: Beeper, n: nat)
    requires
        n <= b.remaining(),
    ensures
        b.ticked_n(n).remaining() == b.remaining() - n,
        b.ticked_n(n).high() == if n % 2 == 0 {
            b.high()
        } else {
            !b.high()
        },
    decreases n,
{
    if n > 0 {
        ticks_count_down(b, (n - 1) as nat);
    }
}

/// A silent beeper stays silent: an interrupt changes nothing.
pub proof fn silence_is_stable(b: Beeper, n: nat)
    requires
        b.remaining() == 0,
    ensures
        b.ticked_n(n) == b,
    decreases n,
{
    if n > 0 {
        silence_is_stable(b, (n - 1) as nat);
    }
}

/// A beep is whole periods of the wave: started from any state, the beeper
/// turns the pin over at each of the next `BEEP_LENGTH` interrupts, is
/// silent from then on, and leaves the pin at the level it had when the beep
/// began.
pub proof fn beep_is_whole_periods(b: Beeper, n: nat)
    ensures
        n < BEEP_LENGTH ==> b.started().ticked_n(n).remaining() > 0,
        b.started().ticked_n(BEEP_LENGTH as nat).remaining() == 0,
        b.started().ticked_n(BEEP_LENGTH as nat).high() == b.high(),
        n >= BEEP_LENGTH ==> b.started().ticked_n(n) == b.started().ticked_n(
            BEEP_LENGTH as nat,
        ),
{
    let s = b.started();
    if n < BEEP_LENGTH {
        ticks_count_down(s, n);
    }
    ticks_count_down(s, BEEP_LENGTH as nat);
    if n >= BEEP_LENGTH {
        lemma_ticked_n_add(s, BEEP_LENGTH as nat, (n - BEEP_LENGTH) as nat);
        silence_is_stable(s.ticked_n(BEEP_LENGTH as nat), (n - BEEP_LENGTH) as nat);
    }
}

proof fn lemma_ticked_n_add(b: Beeper, m: nat, k: nat)
    ensures
        b.ticked_n(m + k) == b.ticked_n(m).ticked_n(k),
    decreases k,
{
    if k > 0 {
        lemma_ticked_n_add(b, m, (k - 1) as nat);
        assert((m + k - 1) as nat == m + (k - 1) as nat);
    }
}

} // verus!
