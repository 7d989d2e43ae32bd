use vstd::prelude::*;

verus! {

/// Period in M-cycles of the TIMA counter for each TAC clock-select value.
pub open spec fn spec_timer_period(clock: u8) -> u32 {
    if clock == 0 {
        1024
    } else if clock == 1 {
        16
    } else if clock == 2 {
        64
    } else {
        256
    }
}

/// Result of feeding `acc` accumulated M-cycles to the TIMA counter: drains
/// one period at a time, stepping TIMA; an overflow reloads TIMA from TMA and
/// latches the interrupt request.
pub open spec fn spec_timer_drain(tima: u8, tma: u8, acc: int, period: int, fired: bool) -> (
    u8,
    int,
    bool,
)
    decreases acc,
        when period >= 1 && acc >= 0
{
    if acc < period {
        (tima, acc, fired)
    } else if tima == 255 {
        spec_timer_drain(tma, tma, acc - period, period, true)
    } else {
        spec_timer_drain((tima + 1) as u8, tma, acc - period, period, fired)
    }
}

/// The timer unit: DIV, TIMA, TMA and TAC.
pub struct Timer {
    /// DIV: the upper byte of the internal divider, stepped every 256 M-cycles.
    pub divider_counter: u8,
    pub divider_cycle: u16,
    /// TIMA: the programmable counter.
    pub timer_counter: u8,
    pub timer_cycle: u32,
    /// TMA: the value reloaded into TIMA on overflow.
    pub timer_modulo: u8,
    /// TAC bit 2: whether TIMA counts.
    pub tac_enable: bool,
    /// TAC bits 1-0: the clock select.
    pub tac_clock: u8,
}

impl Timer {
    pub open spec fn wf(&self) -> bool {
        self.tac_clock < 4 && self.divider_cycle < 256 && self.timer_cycle < 1024
    }

    pub fn new() -> (r: Timer)
        ensures
            r.wf(),
            r == (Timer {
                divider_counter: 0u8,
                divider_cycle: 0u16,
                timer_counter: 0u8,
                timer_cycle: 0u32,
                timer_modulo: 0u8,
                tac_enable: false,
                tac_clock: 0u8,
            }),
    {
        Self {
            divider_counter: 0,
            divider_cycle: 0,
            timer_counter: 0,
            timer_cycle: 0,
            timer_modulo: 0,
            tac_enable: false,
            tac_clock: 0,
        }
    }

    /// Any write to DIV zeroes the whole internal divider.
    pub fn div_write(&mut self)
        ensures
            *final(self) == (Timer { divider_counter: 0u8, divider_cycle: 0u16, ..*old(self) }),
    {
        self.divider_counter = 0;
        self.divider_cycle = 0;
    }

    pub fn tima_write(&mut self, val: u8)
        ensures
            *final(self) == (Timer { timer_counter: val, ..*old(self) }),
    {
        self.timer_counter = val;
    }

    pub fn tma_write(&mut self, val: u8)
        ensures
            *final(self) == (Timer { timer_modulo: val, ..*old(self) }),
    {
        self.timer_modulo = val;
    }

    /// TAC: bit 2 enables TIMA, bits 1-0 select its clock.
    pub fn tac_write(&mut self, val: u8)
        ensures
            *final(self) == (Timer {
                tac_enable: val / 4 % 2 == 1,
                tac_clock: val % 4,
                ..*old(self)
            }),
    {
        self.tac_enable = val / 4 % 2 == 1;
        self.tac_clock = val % 4;
    }

    /// The TAC register image: five unused bits as ones.
    pub open spec fn spec_tac_read(&self) -> u8 {
        (0xf8 + (if self.tac_enable {
            4int
        } else {
            0
        }) + self.tac_clock) as u8
    }

    /// TAC reads back with its five unused bits as ones.
    pub fn tac_read(&self) -> (r: u8)
        requires
            self.wf(),
        ensures
            r == self.spec_tac_read(),
    {
        let e: u8 = if self.tac_enable {
            4
        } else {
            0
        };
        0xf8 + e + self.tac_clock
    }

    pub(crate) fn divider_tick(&mut self, cycles: u8)
        requires
            old(self).wf(),
        ensures
            final(self).wf(),
            ({
                let acc = old(self).divider_cycle + cycles;
                &&& final(self).divider_counter == (if acc >= 256 {
                    ((old(self).divider_counter + 1) % 256) as u8
                } else {
                    old(self).divider_counter
                })
                &&& final(self).divider_cycle == (if acc >= 256 {
                    (acc - 256) as u16
                } else {
                    acc as u16
                })
            }),
            *final(self) == (Timer {
                divider_counter: final(self).divider_counter,
                divider_cycle: final(self).divider_cycle,
                ..*old(self)
            }),
    {
        self.divider_cycle = self.divider_cycle + cycles as u16;
        if self.divider_cycle >= 256 {
            self.divider_counter = ((self.divider_counter as u16 + 1) % 256) as u8;
            self.divider_cycle = self.divider_cycle - 256;
        }
    }

    pub(crate) fn timer_tick(&mut self, cycles: u8) -> (r: bool)
        requires
            old(self).wf(),
        ensures
            final(self).wf(),
            ({
                let p = spec_timer_period(old(self).tac_clock) as int;
                if old(self).tac_enable {
                    let d = spec_timer_drain(
                        old(self).timer_counter,
                        old(self).timer_modulo,
                        old(self).timer_cycle + cycles,
                        p,
                        false,
                    );
                    &&& final(self).timer_counter == d.0
                    &&& final(self).timer_cycle == d.1
                    &&& r == d.2
                } else {
                    &&& final(self).timer_counter == old(self).timer_counter
                    &&& final(self).timer_cycle == old(self).timer_cycle
                    &&& r == false
                }
            }),
            *final(self) == (Timer {
                timer_counter: final(self).timer_counter,
                timer_cycle: final(self).timer_cycle,
                ..*old(self)
            }),
    {
        if !self.tac_enable {
            return false;
        }
        self.timer_cycle = self.timer_cycle + cycles as u32;
        let period = timer_period(self.tac_clock);
        let mut fired = false;
        let ghost p = spec_timer_period(old(self).tac_clock) as int;
        let ghost goal = spec_timer_drain(
            old(self).timer_counter,
            old(self).timer_modulo,
            old(self).timer_cycle + cycles,
            p,
            false,
        );
        while self.timer_cycle >= period
            invariant
                period == spec_timer_period(old(self).tac_clock),
                p == period as int,
                p >= 16,
                self.timer_cycle < 1024 + 256,
                goal == spec_timer_drain(
                    self.timer_counter,
                    old(self).timer_modulo,
                    self.timer_cycle as int,
                    p,
                    fired,
                ),
                self.timer_modulo == old(self).timer_modulo,
                self.tac_enable == old(self).tac_enable,
                self.tac_clock == old(self).tac_clock,
                self.divider_counter == old(self).divider_counter,
                self.divider_cycle == old(self).divider_cycle,
            decreases self.timer_cycle,
        {
            let ghost pre_tima = self.timer_counter;
            let ghost pre_acc = self.timer_cycle as int;
            let ghost pre_fired = fired;
            if self.timer_counter == 255 {
                self.timer_counter = self.timer_modulo;
                fired = true;
            } else {
                self.timer_counter = self.timer_counter + 1;
            }
            self.timer_cycle = self.timer_cycle - period;
            proof {
                assert(spec_timer_drain(pre_tima, old(self).timer_modulo, pre_acc, p, pre_fired)
                    == spec_timer_drain(
                    self.timer_counter,
                    old(self).timer_modulo,
                    self.timer_cycle as int,
                    p,
                    fired,
                ));
            }
        }
        proof {
            if fired {
                lemma_timer_drain_fired_stays(
                    self.timer_counter,
                    old(self).timer_modulo,
                    self.timer_cycle as int,
                    p,
                );
            }
        }
        fired
    }

    /// Advances the divider and TIMA by `cycles` M-cycles; the result reports
    /// a TIMA overflow, which requests the timer interrupt.
    pub fn tick(&mut self, cycles: u8) -> (r: bool)
        requires
            old(self).wf(),
        ensures
            final(self).wf(),
            final(self).timer_modulo == old(self).timer_modulo,
            final(self).tac_enable == old(self).tac_enable,
            final(self).tac_clock == old(self).tac_clock,
            ({
                let acc = old(self).divider_cycle + cycles;
                final(self).divider_counter == (if acc >= 256 {
                    ((old(self).divider_counter + 1) % 256) as u8
                } else {
                    old(self).divider_counter
                })
            }),
            ({
                let p = spec_timer_period(old(self).tac_clock) as int;
                if old(self).tac_enable {
                    let d = spec_timer_drain(
                        old(self).timer_counter,
                        old(self).timer_modulo,
                        old(self).timer_cycle + cycles,
                        p,
                        false,
                    );
                    final(self).timer_counter == d.0 && r == d.2
                } else {
                    final(self).timer_counter == old(self).timer_counter && r == false
                }
            }),
    {
        self.divider_tick(cycles);
        self.timer_tick(cycles)
    }
}

/// Executable twin of `spec_timer_period`.
pub fn timer_period(clock: u8) -> (r: u32)
    ensures
        r == spec_timer_period(clock),
{
    if clock == 0 {
        1024
    } else if clock == 1 {
        16
    } else if clock == 2 {
        64
    } else {
        256
    }
}

/// Once the drain has latched an overflow, the latch stays set.
proof fn lemma_timer_drain_fired_stays(tima: u8, tma: u8, acc: int, period: int)
    requires
        period >= 1,
        acc >= 0,
    ensures
        spec_timer_drain(tima, tma, acc, period, true).2,
    decreases acc,
{
    if acc >= period {
        if tima == 255 {
            lemma_timer_drain_fired_stays(tma, tma, acc - period, period);
        } else {
            lemma_timer_drain_fired_stays((tima + 1) as u8, tma, acc - period, period);
        }
    }
}

} // verus!
