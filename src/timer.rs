use vstd::prelude::*;

verus! {

/// The four counting rates that bits 0-1 of the timer control select.
#[derive(Clone, Copy, Debug, PartialEq, Eq, Structural)]
pub enum Frequency {
    F4096,
    F262144,
    F65536,
    F16384,
}

pub open spec fn frequency_of(val: u8) -> Frequency {
    if val % 4 == 0 {
        Frequency::F4096
    } else if val % 4 == 1 {
        Frequency::F262144
    } else if val % 4 == 2 {
        Frequency::F65536
    } else {
        Frequency::F16384
    }
}

impl From<u8> for Frequency {
    fn from(val: u8) -> (r: Frequency) {
        match val % 4 {
            0 => Frequency::F4096,
            1 => Frequency::F262144,
            2 => Frequency::F65536,
            _ => Frequency::F16384,
        }
    }
}

impl vstd::std_specs::convert::FromSpecImpl<u8> for Frequency {
    open spec fn obeys_from_spec() -> bool {
        true
    }

    open spec fn from_spec(val: u8) -> Frequency {
        frequency_of(val)
    }
}

/// Machine cycles per counter step for the rate in bits 0-1 of `tac`.
pub open spec fn threshold_of(tac: u8) -> int {
    if tac % 4 == 0 {
        1024
    } else if tac % 4 == 1 {
        16
    } else if tac % 4 == 2 {
        64
    } else {
        256
    }
}

/// One counter step: past 0xFF the counter reloads from the modulo and
/// the step requests an interrupt.
pub open spec fn tick(tima: u8, tma: u8) -> (u8, bool) {
    if tima == 0xFF {
        (tma, true)
    } else {
        ((tima + 1) as u8, false)
    }
}

/// Spend `cycles` in steps of `threshold`: the counter afterwards, whether
/// any step requested an interrupt, and the cycles left over.
pub open spec fn run(tima: u8, tma: u8, cycles: int, threshold: int) -> (u8, bool, int)
    decreases cycles,
{
    if threshold <= 0 || cycles < threshold {
        (tima, false, cycles)
    } else {
        let t = tick(tima, tma);
        let rest = run(t.0, tma, cycles - threshold, threshold);
        (rest.0, t.1 || rest.1, rest.2)
    }
}

proof fn lemma_run_left(tima: u8, tma: u8, cycles: int, threshold: int)
    requires
        threshold > 0,
        cycles >= 0,
    ensures
        0 <= run(tima, tma, cycles, threshold).2 < threshold,
    decreases cycles,
{
    if cycles >= threshold {
        lemma_run_left(tick(tima, tma).0, tma, cycles - threshold, threshold);
    }
}

/// The divider and the programmable counter.
pub struct Timer {
    pub divider: u16,
    pub tima: u8,
    pub tma: u8,
    pub tac: u8,
    /// Cycles counted towards the next counter step.
    pub internal_cycle: usize,
}

impl Timer {
    pub open spec fn pending(&self) -> int {
        self.internal_cycle as int
    }

    pub open spec fn wf(&self) -> bool {
        self.internal_cycle < 1024
    }

    pub fn new() -> (r: Timer)
        ensures
            r.wf(),
            r.divider == 0 && r.tima == 0 && r.tma == 0 && r.tac == 0,
            r.pending() == 0,
    {
        Timer { divider: 0, tima: 0, tma: 0, tac: 0, internal_cycle: 0 }
    }

    /// Advance by `cycles`. The divider always counts (wrapping). With bit
    /// 2 of `tac` set the counter steps once per threshold of cycles; the
    /// result tells whether a step overflowed it.
    pub fn update(&mut self, cycles: u8) -> (r: bool)
        requires
            old(self).wf(),
        ensures
            final(self).wf(),
            final(self).divider == (old(self).divider + cycles) % 65536,
            final(self).tma == old(self).tma,
            final(self).tac == old(self).tac,
            old(self).tac & 4 == 0 ==> !r && final(self).tima == old(self).tima && final(self).pending()
                == old(self).pending(),
            old(self).tac & 4 != 0 ==> ({
                let res = run(
                    old(self).tima,
                    old(self).tma,
                    old(self).pending() + cycles,
                    threshold_of(old(self).tac),
                );
                final(self).tima == res.0 && r == res.1 && final(self).pending() == res.2
            }),
    {
        let cycles = cycles as usize;
        self.divider = ((self.divider as u32 + cycles as u32) % 65536) as u16;
        if self.tac & 0b100 == 0 {
            return false;
        }
        self.internal_cycle += cycles;
        let threshold: usize = match self.tac % 4 {
            0 => 1024,
            1 => 16,
            2 => 64,
            _ => 256,
        };
        let mut interrupt = false;
        let ghost tima0 = self.tima;
        let ghost total = self.internal_cycle as int;
        while self.internal_cycle >= threshold
            invariant
                threshold == threshold_of(self.tac),
                self.divider == (old(self).divider + cycles) % 65536,
                self.tma == old(self).tma,
                self.tac == old(self).tac,
                ({
                    let rest = run(self.tima, self.tma, self.internal_cycle as int, threshold as int);
                    (rest.0, interrupt || rest.1, rest.2) == run(tima0, self.tma, total, threshold as int)
                }),
            decreases self.internal_cycle,
        {
            self.internal_cycle -= threshold;
            if self.tima == 0xFF {
                self.tima = self.tma;
                interrupt = true;
            } else {
                self.tima += 1;
            }
        }
        proof {
            lemma_run_left(tima0, self.tma, total, threshold as int);
        }
        interrupt
    }
}

} // verus!
