use vstd::prelude::*;

verus! {

/// The four timer rates, named by their frequency in Hz.
#[derive(Copy, Clone, Debug, PartialEq, Eq, Structural)]
pub enum Frequency {
    F4096,
    F262144,
    F65536,
    F16384,
}

impl Frequency {
    pub open spec fn spec_cycles_per_tick(self) -> nat {
        match self {
            Frequency::F4096 => 1024,
            Frequency::F262144 => 16,
            Frequency::F65536 => 64,
            Frequency::F16384 => 256,
        }
    }

    /// T-cycles between two increments of a counter running at this rate.
    pub fn cycles_per_tick(&self) -> (r: usize)
        ensures
            r == self.spec_cycles_per_tick(),
    {
        match self {
            Frequency::F4096 => 1024,
            Frequency::F262144 => 16,
            Frequency::F65536 => 64,
            Frequency::F16384 => 256,
        }
    }
}

/// One counter increment: 255 wraps to the modulo and reports an overflow.
pub open spec fn tick(counter: u8, modulo: u8) -> (u8, bool) {
    if counter == 255 {
        (modulo, true)
    } else {
        ((counter + 1) as u8, false)
    }
}

/// The counter after `k` increments, and whether any of them overflowed.
pub open spec fn advance(counter: u8, modulo: u8, k: nat) -> (u8, bool)
    decreases k,
{
    if k == 0 {
        (counter, false)
    } else {
        let (c, o) = advance(counter, modulo, (k - 1) as nat);
        let (c2, o2) = tick(c, modulo);
        (c2, o || o2)
    }
}

/// A counter driven by T-cycles: it increments once per `cycles_per_tick` cycles and on
/// overflow reloads from `modulo`.
#[derive(Copy, Clone, Debug, PartialEq, Eq, Structural)]
pub struct Timer {
    pub frequency: Frequency,
    pub counter: u8,
    pub modulo: u8,
    pub enabled: bool,
    pub cycles: usize,
}

impl Timer {
    pub open spec fn wf(self) -> bool {
        self.cycles < self.frequency.spec_cycles_per_tick()
    }

    /// The state after `c` more T-cycles, and whether the counter overflowed meanwhile.
    pub open spec fn stepped(self, c: u8) -> (Timer, bool) {
        if !self.enabled {
            (self, false)
        } else {
            let total: nat = (self.cycles + c) as nat;
            let cpt: nat = self.frequency.spec_cycles_per_tick();
            let (counter, overflow) = advance(self.counter, self.modulo, total / cpt);
            (Timer { counter, cycles: (total % cpt) as usize, ..self }, overflow)
        }
    }

    /// T-cycles still to run before the next overflow.
    pub open spec fn cycles_to_overflow(self) -> int {
        (256 - self.counter) * self.frequency.spec_cycles_per_tick() - self.cycles
    }

    pub fn new(frequency: Frequency) -> (r: Timer)
        ensures
            r == (Timer { frequency, counter: 0, modulo: 0, enabled: false, cycles: 0 }),
            r.wf(),
    {
        Timer { frequency, counter: 0, modulo: 0, enabled: false, cycles: 0 }
    }

    /// Runs the counter for `cycles` T-cycles; returns whether it overflowed.
    pub fn step(&mut self, cycles: u8) -> (r: bool)
        requires
            old(self).wf(),
        ensures
            (*final(self), r) == old(self).stepped(cycles),
            final(self).wf(),
    {
        if !self.enabled {
            return false;
        }
        let cpt = self.frequency.cycles_per_tick();
        let ghost start = *self;
        let ghost total: nat = (self.cycles + cycles) as nat;
        self.cycles = self.cycles + cycles as usize;
        let mut overflowed = false;
        let ghost mut k: nat = 0;
        while self.cycles >= cpt
            invariant
                cpt == self.frequency.spec_cycles_per_tick(),
                self.frequency == start.frequency,
                self.modulo == start.modulo,
                self.enabled == start.enabled,
                self.cycles + k * cpt == total,
                (self.counter, overflowed) == advance(start.counter, start.modulo, k),
            decreases self.cycles,
        {
            self.cycles = self.cycles - cpt;
            if self.counter == 255 {
                self.counter = self.modulo;
                overflowed = true;
            } else {
                self.counter = self.counter + 1;
            }
            proof {
                k = k + 1;
                assert(self.cycles + k * cpt == total) by (nonlinear_arith)
                    requires
                        self.cycles + cpt + (k - 1) * cpt == total,
                ;
            }
        }
        proof {
            lemma_div_decompose(total, cpt as nat, k, self.cycles as nat);
        }
        overflowed
    }
}

proof fn lemma_div_decompose(total: nat, cpt: nat, k: nat, rest: nat)
    requires
        cpt > 0,
        rest < cpt,
        rest + k * cpt == total,
    ensures
        total / cpt == k,
        total % cpt == rest,
{
    vstd::arithmetic::div_mod::lemma_fundamental_div_mod_converse(total as int, cpt as int, k as int, rest as int);
}

proof fn lemma_advance_below(counter: u8, modulo: u8, k: nat)
    requires
        k <= 255 - counter,
    ensures
        advance(counter, modulo, k) == ((counter + k) as u8, false),
    decreases k,
{
    if k > 0 {
        lemma_advance_below(counter, modulo, (k - 1) as nat);
    }
}

proof fn lemma_advance_overflowed(counter: u8, modulo: u8, k: nat)
    requires
        k >= 256 - counter,
    ensures
        advance(counter, modulo, k).1,
    decreases k,
{
    if k == 256 - counter {
        lemma_advance_below(counter, modulo, (k - 1) as nat);
    } else {
        lemma_advance_overflowed(counter, modulo, (k - 1) as nat);
    }
}

/// An enabled timer overflows in the step in which its accumulated T-cycles reach
/// `(256 - counter) * cycles_per_tick`; a step that stays below that leaves the remaining
/// distance smaller by exactly the cycles run. From a fresh start at counter `init` the
/// distance is `(256 - init) * cycles_per_tick`.
pub proof fn lemma_timer_overflow_point(t: Timer, c: u8)
    requires
        t.wf(),
        t.enabled,
    ensures
        t.stepped(c).1 <==> c >= t.cycles_to_overflow(),
        !t.stepped(c).1 ==> t.stepped(c).0.cycles_to_overflow() == t.cycles_to_overflow() - c,
        t.stepped(c).0.wf(),
        (Timer { cycles: 0, ..t }).cycles_to_overflow() == (256 - t.counter)
            * t.frequency.spec_cycles_per_tick(),
{
    let cpt = t.frequency.spec_cycles_per_tick();
    let total: nat = (t.cycles + c) as nat;
    let k = total / cpt;
    let m: nat = (256 - t.counter) as nat;
    vstd::arithmetic::div_mod::lemma_fundamental_div_mod(total as int, cpt as int);
    if k >= m {
        lemma_advance_overflowed(t.counter, t.modulo, k);
        assert(total >= m * cpt) by (nonlinear_arith)
            requires
                k >= m,
                total == k * cpt + total % cpt,
                total % cpt >= 0,
                cpt > 0,
        ;
    } else {
        lemma_advance_below(t.counter, t.modulo, k);
        assert(total < m * cpt) by (nonlinear_arith)
            requires
                k < m,
                total == k * cpt + total % cpt,
                total % cpt < cpt,
                cpt > 0,
        ;
        let ci: int = t.counter as int;
        let ki: int = k as int;
        let r: int = total as int % cpt as int;
        let cp: int = cpt as int;
        assert((256 - (ci + ki)) * cp - r == (256 - ci) * cp - (ki * cp + r)) by (nonlinear_arith);
    }
}

} // verus!
