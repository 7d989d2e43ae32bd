use vstd::prelude::*;

verus! {

// The audio processor: four channels driven by a shared frame sequencer.
// Every register write and every tick is stated as a functional spec over the
// channel state, and the executable methods return exactly those states.

/// A volume envelope: reloads its counter from `period` and steps the volume
/// up or down, clamped to 0 through 15.
pub struct Envelope {
    pub init_vol: u8,
    pub volume: u8,
    /// true steps the volume up, false down.
    pub mode: bool,
    pub period: u8,
    pub counter: u8,
}

impl Envelope {
    pub open spec fn wf(&self) -> bool {
        self.init_vol < 16 && self.volume < 16 && self.period < 8 && self.counter < 8
    }

    pub fn new() -> (r: Envelope)
        ensures
            r.wf(),
            r == (Envelope { init_vol: 0u8, volume: 0u8, mode: true, period: 0u8, counter: 0u8 }),
    {
        Self { init_vol: 0, volume: 0, mode: true, period: 0, counter: 0 }
    }

    pub fn set_vol(&mut self, vol: u8)
        ensures
            *final(self) == (Envelope { init_vol: vol, volume: vol, ..*old(self) }),
    {
        self.init_vol = vol;
        self.volume = vol;
    }

    /// The register image: volume in the high nibble, direction at bit 3,
    /// period in the low three bits.
    pub open spec fn spec_read(&self) -> u8 {
        (self.init_vol * 16 + (if self.mode {
            8int
        } else {
            0
        }) + self.period) as u8
    }

    pub fn read(&self) -> (r: u8)
        requires
            self.wf(),
        ensures
            r == self.spec_read(),
    {
        let dir: u8 = if self.mode {
            8
        } else {
            0
        };
        self.init_vol * 16 + dir + self.period
    }

    /// One envelope step: with a zero period nothing moves; otherwise the
    /// counter counts down and, on reaching zero, reloads and nudges the
    /// volume one step in its direction.
    pub open spec fn spec_tick(self) -> Envelope {
        if self.period == 0 {
            self
        } else {
            let c = if self.counter != 0 {
                (self.counter - 1) as u8
            } else {
                self.counter
            };
            if c == 0 {
                let v = if self.volume < 0x0f && self.mode {
                    (self.volume + 1) as u8
                } else if self.volume > 0 && !self.mode {
                    (self.volume - 1) as u8
                } else {
                    self.volume
                };
                Envelope { counter: self.period, volume: v, ..self }
            } else {
                Envelope { counter: c, ..self }
            }
        }
    }

    pub fn tick(&mut self)
        requires
            old(self).wf(),
        ensures
            final(self).wf(),
            *final(self) == old(self).spec_tick(),
    {
        if self.period == 0 {
            return ;
        }
        if self.counter != 0 {
            self.counter = self.counter - 1;
        }
        if self.counter == 0 {
            self.counter = self.period;
            if self.volume < 0x0f && self.mode {
                self.volume = self.volume + 1;
            } else if self.volume > 0 && !self.mode {
                self.volume = self.volume - 1;
            }
        }
    }
}

/// A length counter: while enabled, each length step counts down; the channel
/// that owns it shuts off when the counter reaches zero.
pub struct LengthCounter {
    pub enabled: bool,
    pub counter: u16,
    pub reset_val: u16,
    /// Set on the frame-sequencer steps that will not clock length next time;
    /// an enable rising edge on such a step clocks the counter once extra.
    pub next_frame_no_clock: bool,
}

impl LengthCounter {
    pub open spec fn wf(&self) -> bool {
        self.counter <= 256 && self.reset_val <= 256
    }

    pub fn new() -> (r: LengthCounter)
        ensures
            r.wf(),
            r == (LengthCounter {
                enabled: false,
                counter: 0u16,
                reset_val: 0u16,
                next_frame_no_clock: false,
            }),
    {
        Self { enabled: false, counter: 0, reset_val: 0, next_frame_no_clock: false }
    }

    pub fn set(&mut self, val: u16)
        requires
            val <= 256,
        ensures
            *final(self) == (LengthCounter { counter: val, reset_val: val, ..*old(self) }),
    {
        self.counter = val;
        self.reset_val = val;
    }

    /// Sets the enable bit; the result says whether this was a rising edge on
    /// a no-clock frame, which owes one extra length tick.
    pub fn enable(&mut self, enabled: bool) -> (r: bool)
        ensures
            *final(self) == (LengthCounter { enabled, ..*old(self) }),
            r == (!old(self).enabled && enabled && old(self).next_frame_no_clock),
    {
        let previous_status = self.enabled;
        self.enabled = enabled;
        !previous_status && enabled && self.next_frame_no_clock
    }

    pub open spec fn spec_tick(self) -> LengthCounter {
        if self.enabled && self.counter > 0 {
            LengthCounter { counter: (self.counter - 1) as u16, ..self }
        } else {
            self
        }
    }

    pub fn tick(&mut self)
        requires
            old(self).wf(),
        ensures
            final(self).wf(),
            *final(self) == old(self).spec_tick(),
    {
        if self.enabled && self.counter > 0 {
            self.counter = self.counter - 1;
        }
    }
}

/// The frequency sweep of the first square channel.
pub struct Sweep {
    pub enabled: bool,
    pub period: u8,
    pub shadow_freq: u16,
    /// true adds the shifted shadow frequency, false subtracts it.
    pub direction: bool,
    pub shift: u8,
    pub counter: u8,
    /// Latched once a subtracting computation ran; switching the direction
    /// back to addition afterwards kills the channel.
    pub neg_calc_made: bool,
}

impl Sweep {
    pub open spec fn wf(&self) -> bool {
        self.period < 8 && self.shift < 8 && self.counter <= 8 && self.shadow_freq < 0x800
    }

    pub fn new() -> (r: Sweep)
        ensures
            r.wf(),
            r == (Sweep {
                enabled: false,
                period: 0u8,
                shadow_freq: 0u16,
                direction: true,
                shift: 0u8,
                counter: 0u8,
                neg_calc_made: false,
            }),
    {
        Self {
            enabled: false,
            period: 0,
            shadow_freq: 0,
            direction: true,
            shift: 0,
            counter: 0,
            neg_calc_made: false,
        }
    }

    /// The counter restarts at the period, or at 8 when the period is zero.
    pub open spec fn spec_reload_counter(self) -> Sweep {
        Sweep {
            counter: if self.period == 0 {
                8u8
            } else {
                self.period
            },
            ..self
        }
    }

    pub fn reload_counter(&mut self)
        ensures
            *final(self) == old(self).spec_reload_counter(),
    {
        if self.period == 0 {
            self.counter = 8;
        } else {
            self.counter = self.period;
        }
    }
}

/// The duty waveform bit of a square channel: four rows of eight steps with
/// 12.5, 25, 50 and 75 percent duty.
pub open spec fn spec_duty_bit(pattern: int, step: int) -> u8 {
    if pattern == 0 {
        if step == 7 {
            1
        } else {
            0
        }
    } else if pattern == 1 {
        if step == 0 || step == 7 {
            1
        } else {
            0
        }
    } else if pattern == 2 {
        if step == 0 || step == 5 || step == 6 || step == 7 {
            1
        } else {
            0
        }
    } else {
        if 1 <= step && step <= 6 {
            1
        } else {
            0
        }
    }
}

/// Executable twin of `spec_duty_bit`.
pub fn duty_bit(pattern: usize, step: usize) -> (r: u8)
    ensures
        r == spec_duty_bit(pattern as int, step as int),
{
    if pattern == 0 {
        if step == 7 {
            1
        } else {
            0
        }
    } else if pattern == 1 {
        if step == 0 || step == 7 {
            1
        } else {
            0
        }
    } else if pattern == 2 {
        if step == 0 || step == 5 || step == 6 || step == 7 {
            1
        } else {
            0
        }
    } else {
        if 1 <= step && step <= 6 {
            1
        } else {
            0
        }
    }
}

/// Shifting a frequency right never enlarges it.
proof fn lemma_shr_le(x: u16, s: u16)
    by (bit_vector)
    ensures
        x >> s <= x,
{
}

/// A square-wave channel; the first one also owns the sweep.
pub struct SquareChannel {
    pub power_on: bool,
    pub enabled: bool,
    pub dac_on: bool,
    pub sweep: Sweep,
    /// true for the first square channel, which honours the sweep registers.
    pub sweep_enabled: bool,
    pub wave_pattern: usize,
    pub duty_step: usize,
    pub period: u16,
    pub period_divider: u16,
    pub envelope: Envelope,
    pub length_counter: LengthCounter,
}

impl SquareChannel {
    pub open spec fn wf(&self) -> bool {
        &&& self.wave_pattern < 4
        &&& self.duty_step < 8
        &&& self.period < 0x800
        &&& self.period_divider <= 0x800
        &&& self.sweep.wf()
        &&& self.envelope.wf()
        &&& self.length_counter.wf()
    }

    pub fn new(sweep_enabled: bool) -> (r: SquareChannel)
        ensures
            r.wf(),
            !r.power_on && !r.enabled && !r.dac_on,
            r.sweep_enabled == sweep_enabled,
            r.wave_pattern == 0 && r.duty_step == 0 && r.period == 0 && r.period_divider == 0,
            r.sweep == (Sweep {
                enabled: false,
                period: 0u8,
                shadow_freq: 0u16,
                direction: true,
                shift: 0u8,
                counter: 0u8,
                neg_calc_made: false,
            }),
            r.envelope == (Envelope {
                init_vol: 0u8,
                volume: 0u8,
                mode: true,
                period: 0u8,
                counter: 0u8,
            }),
            r.length_counter == (LengthCounter {
                enabled: false,
                counter: 0u16,
                reset_val: 0u16,
                next_frame_no_clock: false,
            }),
    {
        Self {
            power_on: false,
            enabled: false,
            dac_on: false,
            sweep: Sweep::new(),
            sweep_enabled,
            wave_pattern: 0,
            duty_step: 0,
            period: 0,
            period_divider: 0,
            envelope: Envelope::new(),
            length_counter: LengthCounter::new(),
        }
    }

    /// One sweep computation: the shadow frequency shifted down and added or
    /// subtracted; a subtraction sets the negate latch, and a result past
    /// 0x7ff disables the channel. Yields the new state and the computed
    /// frequency.
    pub open spec fn spec_sweep_cal(self) -> (SquareChannel, u16) {
        let offset = self.sweep.shadow_freq >> self.sweep.shift;
        let new_period = if self.sweep.direction {
            (self.sweep.shadow_freq + offset) as u16
        } else {
            (self.sweep.shadow_freq - offset) as u16
        };
        let latched = if self.sweep.direction {
            self
        } else {
            SquareChannel { sweep: Sweep { neg_calc_made: true, ..self.sweep }, ..self }
        };
        if new_period > 0x7ff {
            (SquareChannel { enabled: false, ..latched }, new_period)
        } else {
            (latched, new_period)
        }
    }

    pub fn sweep_cal(&mut self) -> (r: u16)
        requires
            old(self).wf(),
        ensures
            final(self).wf(),
            (*final(self), r) == old(self).spec_sweep_cal(),
    {
        proof {
            lemma_shr_le(self.sweep.shadow_freq, self.sweep.shift as u16);
        }
        let offset = self.sweep.shadow_freq >> self.sweep.shift;
        let new_period = if self.sweep.direction {
            self.sweep.shadow_freq + offset
        } else {
            self.sweep.neg_calc_made = true;
            self.sweep.shadow_freq - offset
        };
        if new_period > 0x7ff {
            self.enabled = false;
        }
        new_period
    }

    /// One sweep-clock step: the counter counts down; at zero it reloads and,
    /// if the sweep is live, computes a new frequency, writes it back when it
    /// fits and the shift is nonzero, and probes once more for overflow.
    pub open spec fn spec_sweep_tick(self) -> SquareChannel {
        let c = if self.sweep.counter > 0 {
            (self.sweep.counter - 1) as u8
        } else {
            self.sweep.counter
        };
        let ch = SquareChannel { sweep: Sweep { counter: c, ..self.sweep }, ..self };
        if c == 0 {
            let ch = SquareChannel { sweep: ch.sweep.spec_reload_counter(), ..ch };
            if ch.sweep.enabled && ch.sweep.period > 0 {
                let (ch1, np) = ch.spec_sweep_cal();
                if np <= 0x7ff && ch1.sweep.shift > 0 {
                    let ch2 = SquareChannel {
                        period: np,
                        sweep: Sweep { shadow_freq: np, ..ch1.sweep },
                        ..ch1
                    };
                    ch2.spec_sweep_cal().0
                } else {
                    ch1
                }
            } else {
                ch
            }
        } else {
            ch
        }
    }

    pub fn sweep_tick(&mut self)
        requires
            old(self).wf(),
        ensures
            final(self).wf(),
            *final(self) == old(self).spec_sweep_tick(),
    {
        if self.sweep.counter > 0 {
            self.sweep.counter = self.sweep.counter - 1;
        }
        if self.sweep.counter == 0 {
            self.sweep.reload_counter();
            if self.sweep.enabled && self.sweep.period > 0 {
                let new_period = self.sweep_cal();
                if new_period <= 0x7ff && self.sweep.shift > 0 {
                    self.period = new_period;
                    self.sweep.shadow_freq = new_period;
                    let _ = self.sweep_cal();
                }
            }
        }
    }

    /// A length step that also shuts the channel off at zero.
    pub open spec fn spec_len_ctr_tick(self) -> SquareChannel {
        let lc = self.length_counter.spec_tick();
        SquareChannel {
            length_counter: lc,
            enabled: if lc.counter == 0 {
                false
            } else {
                self.enabled
            },
            ..self
        }
    }

    pub fn len_ctr_tick(&mut self)
        requires
            old(self).wf(),
        ensures
            final(self).wf(),
            *final(self) == old(self).spec_len_ctr_tick(),
    {
        self.length_counter.tick();
        if self.length_counter.counter == 0 {
            self.enabled = false;
        }
    }

    /// Triggering enables the channel when its converter is on, restores a
    /// spent length counter (one short on a no-clock frame with length
    /// enabled), reloads the period divider and the envelope, and restarts
    /// the sweep with an overflow probe when its shift is set.
    pub open spec fn spec_trigger(self) -> SquareChannel {
        let lc = if self.length_counter.counter == 0 && self.length_counter.next_frame_no_clock
            && self.length_counter.enabled {
            LengthCounter { counter: 63u16, ..self.length_counter }
        } else if self.length_counter.counter == 0 {
            LengthCounter { counter: 64u16, ..self.length_counter }
        } else {
            self.length_counter
        };
        let ch = SquareChannel {
            enabled: self.dac_on,
            length_counter: lc,
            period_divider: self.period,
            envelope: Envelope {
                counter: self.envelope.period,
                volume: self.envelope.init_vol,
                ..self.envelope
            },
            ..self
        };
        if ch.sweep_enabled {
            let ch = SquareChannel {
                sweep: Sweep {
                    neg_calc_made: false,
                    shadow_freq: ch.period,
                    ..ch.sweep
                }.spec_reload_counter(),
                ..ch
            };
            let ch = SquareChannel {
                sweep: Sweep {
                    enabled: ch.sweep.period != 0 || ch.sweep.shift != 0,
                    ..ch.sweep
                },
                ..ch
            };
            if ch.sweep.shift != 0 {
                ch.spec_sweep_cal().0
            } else {
                ch
            }
        } else {
            ch
        }
    }

    pub fn trigger(&mut self)
        requires
            old(self).wf(),
        ensures
            final(self).wf(),
            *final(self) == old(self).spec_trigger(),
    {
        self.enabled = self.dac_on;
        if self.length_counter.counter == 0 && self.length_counter.next_frame_no_clock
            && self.length_counter.enabled {
            self.length_counter.counter = 63;
        } else if self.length_counter.counter == 0 {
            self.length_counter.counter = 64;
        }
        self.period_divider = self.period;
        self.envelope.counter = self.envelope.period;
        self.envelope.volume = self.envelope.init_vol;
        if self.sweep_enabled {
            self.sweep.neg_calc_made = false;
            self.sweep.shadow_freq = self.period;
            self.sweep.reload_counter();
            self.sweep.enabled = self.sweep.period != 0 || self.sweep.shift != 0;
            if self.sweep.shift != 0 {
                let _ = self.sweep_cal();
            }
        }
    }

    /// How a write to the sweep register changes the channel: period,
    /// direction and shift are taken from the byte; clearing the negate
    /// direction after a subtracting computation disables the channel.
    pub open spec fn spec_sweep_write(self, val: u8) -> SquareChannel {
        if !self.power_on {
            self
        } else {
            let s = Sweep {
                period: (val / 16 % 8) as u8,
                direction: val / 8 % 2 == 0,
                shift: (val % 8) as u8,
                ..self.sweep
            };
            if s.neg_calc_made && s.direction {
                SquareChannel {
                    sweep: Sweep { neg_calc_made: false, ..s },
                    enabled: false,
                    ..self
                }
            } else {
                SquareChannel { sweep: s, ..self }
            }
        }
    }

    pub fn sweep_write(&mut self, val: u8)
        requires
            old(self).wf(),
        ensures
            final(self).wf(),
            *final(self) == old(self).spec_sweep_write(val),
    {
        if !self.power_on {
            return ;
        }
        self.sweep.period = val / 16 % 8;
        self.sweep.direction = val / 8 % 2 == 0;
        self.sweep.shift = val % 8;
        if self.sweep.neg_calc_made && self.sweep.direction {
            self.sweep.neg_calc_made = false;
            self.enabled = false;
        }
    }

    /// The sweep register image, with its unused top bit as one.
    pub open spec fn spec_sweep_read(&self) -> u8 {
        (128 + self.sweep.period * 16 + (if self.sweep.direction {
            0int
        } else {
            8
        }) + self.sweep.shift) as u8
    }

    pub fn sweep_read(&self) -> (r: u8)
        requires
            self.wf(),
        ensures
            r == self.spec_sweep_read(),
    {
        let dir: u8 = if self.sweep.direction {
            0
        } else {
            8
        };
        128 + self.sweep.period * 16 + dir + self.sweep.shift
    }

    /// The duty bits are stored only while powered; the length counter loads
    /// from the low six bits even while powered down.
    pub open spec fn spec_length_timer_write(self, val: u8) -> SquareChannel {
        let lc = LengthCounter {
            counter: (64 - val % 64) as u16,
            reset_val: (64 - val % 64) as u16,
            ..self.length_counter
        };
        if self.power_on {
            SquareChannel { wave_pattern: (val / 64) as usize, length_counter: lc, ..self }
        } else {
            SquareChannel { length_counter: lc, ..self }
        }
    }

    pub fn length_timer_write(&mut self, val: u8)
        requires
            old(self).wf(),
        ensures
            final(self).wf(),
            *final(self) == old(self).spec_length_timer_write(val),
    {
        if self.power_on {
            self.wave_pattern = (val / 64) as usize;
        }
        self.length_counter.set(64 - (val % 64) as u16);
    }

    /// Only the duty bits read back; the length bits read as ones.
    pub open spec fn spec_length_timer_read(&self) -> u8 {
        (self.wave_pattern * 64 + 0x3f) as u8
    }

    pub fn length_timer_read(&self) -> (r: u8)
        requires
            self.wf(),
        ensures
            r == self.spec_length_timer_read(),
    {
        (self.wave_pattern as u8) * 64 + 0x3f
    }

    /// The envelope register: initial volume, direction and period; a high
    /// five-bit field of zero turns the converter off, which also disables
    /// the channel.
    pub open spec fn spec_envelope_write(self, val: u8) -> SquareChannel {
        if !self.power_on {
            self
        } else {
            let dac = val >= 8;
            SquareChannel {
                envelope: Envelope {
                    init_vol: (val / 16) as u8,
                    volume: (val / 16) as u8,
                    mode: val / 8 % 2 == 1,
                    period: (val % 8) as u8,
                    ..self.envelope
                },
                dac_on: dac,
                enabled: if dac {
                    self.enabled
                } else {
                    false
                },
                ..self
            }
        }
    }

    pub fn envelope_write(&mut self, val: u8)
        requires
            old(self).wf(),
        ensures
            final(self).wf(),
            *final(self) == old(self).spec_envelope_write(val),
    {
        if !self.power_on {
            return ;
        }
        self.envelope.set_vol(val / 16);
        self.envelope.mode = val / 8 % 2 == 1;
        self.envelope.period = val % 8;
        self.dac_on = val >= 8;
        if !self.dac_on {
            self.enabled = false;
        }
    }

    pub fn envelope_read(&self) -> (r: u8)
        requires
            self.wf(),
        ensures
            r == self.envelope.spec_read(),
    {
        self.envelope.read()
    }

    /// The low byte of the period.
    pub open spec fn spec_period_low_write(self, val: u8) -> SquareChannel {
        if !self.power_on {
            self
        } else {
            SquareChannel { period: (self.period - self.period % 256 + val) as u16, ..self }
        }
    }

    pub fn period_low_write(&mut self, val: u8)
        requires
            old(self).wf(),
        ensures
            final(self).wf(),
            *final(self) == old(self).spec_period_low_write(val),
    {
        if !self.power_on {
            return ;
        }
        self.period = self.period - self.period % 256 + val as u16;
    }

    /// The period low byte is write-only.
    pub fn period_low_read(&self) -> (r: u8)
        ensures
            r == 0xff,
    {
        0xff
    }

    /// The control register: period high bits, the length-enable bit (whose
    /// rising edge on a no-clock frame claims an extra length tick), and the
    /// trigger bit.
    pub open spec fn spec_control_write(self, val: u8) -> SquareChannel {
        if !self.power_on {
            self
        } else {
            let ch = SquareChannel {
                period: (self.period % 256 + (val % 8) * 256) as u16,
                length_counter: LengthCounter {
                    enabled: val / 64 % 2 == 1,
                    ..self.length_counter
                },
                ..self
            };
            let edge = !self.length_counter.enabled && val / 64 % 2 == 1
                && self.length_counter.next_frame_no_clock;
            let ch = if edge {
                ch.spec_len_ctr_tick()
            } else {
                ch
            };
            if val >= 128 {
                ch.spec_trigger()
            } else {
                ch
            }
        }
    }

    pub fn control_write(&mut self, val: u8)
        requires
            old(self).wf(),
        ensures
            final(self).wf(),
            *final(self) == old(self).spec_control_write(val),
    {
        if !self.power_on {
            return ;
        }
        self.period = self.period % 256 + (val as u16 % 8) * 256;
        if self.length_counter.enable(val / 64 % 2 == 1) {
            self.len_ctr_tick();
        }
        if val >= 128 {
            self.trigger();
        }
    }

    /// Only the length-enable bit reads back; the rest read as ones.
    pub open spec fn spec_control_read(&self) -> u8 {
        (0xbf + (if self.length_counter.enabled {
            64int
        } else {
            0
        })) as u8
    }

    pub fn control_read(&self) -> (r: u8)
        ensures
            r == self.spec_control_read(),
    {
        let e: u8 = if self.length_counter.enabled {
            64
        } else {
            0
        };
        0xbf + e
    }

    /// One M-cycle: the period divider counts down; at zero it reloads with
    /// the period's two's complement against 0x800 and the duty step advances.
    pub open spec fn spec_tick(self) -> SquareChannel {
        let pd = if self.period_divider != 0 {
            (self.period_divider - 1) as u16
        } else {
            self.period_divider
        };
        if pd == 0 {
            SquareChannel {
                period_divider: (0x800 - self.period) as u16,
                duty_step: ((self.duty_step + 1) % 8) as usize,
                ..self
            }
        } else {
            SquareChannel { period_divider: pd, ..self }
        }
    }

    pub fn tick(&mut self)
        requires
            old(self).wf(),
        ensures
            final(self).wf(),
            *final(self) == old(self).spec_tick(),
    {
        if self.period_divider != 0 {
            self.period_divider = self.period_divider - 1;
        }
        if self.period_divider == 0 {
            self.period_divider = 0x800 - self.period;
            self.duty_step = (self.duty_step + 1) % 8;
        }
    }

    /// The converter input: the envelope volume gated by the duty waveform,
    /// zero while the channel is disabled.
    pub open spec fn spec_output(&self) -> u8 {
        if self.enabled {
            (self.envelope.volume * spec_duty_bit(
                self.wave_pattern as int,
                self.duty_step as int,
            )) as u8
        } else {
            0
        }
    }

    pub fn output(&self) -> (r: u8)
        requires
            self.wf(),
        ensures
            r == self.spec_output(),
            r < 16,
    {
        if self.enabled {
            self.envelope.volume * duty_bit(self.wave_pattern, self.duty_step)
        } else {
            0
        }
    }

    /// Powering the whole audio unit down zeroes every register except the
    /// length counter.
    pub open spec fn spec_power_down(self) -> SquareChannel {
        let ch = self.spec_sweep_write(0);
        let ch = SquareChannel { wave_pattern: 0usize, ..ch };
        let ch = ch.spec_envelope_write(0);
        let ch = ch.spec_period_low_write(0);
        let ch = ch.spec_control_write(0);
        SquareChannel { power_on: false, ..ch }
    }

    pub fn power_down(&mut self)
        requires
            old(self).wf(),
        ensures
            final(self).wf(),
            *final(self) == old(self).spec_power_down(),
    {
        self.sweep_write(0);
        self.wave_pattern = 0;
        self.envelope_write(0);
        self.period_low_write(0);
        self.control_write(0);
        self.power_on = false;
    }
}

/// The wave channel: 32 four-bit samples packed into 16 bytes of wave RAM.
pub struct WaveChannel {
    pub power_on: bool,
    pub enabled: bool,
    pub dac_on: bool,
    pub length_counter: LengthCounter,
    /// The output level latched at trigger time.
    pub volume: u8,
    pub output_level: u8,
    pub period: u16,
    pub period_divider: u16,
    pub wave_ram: Vec<u8>,
    pub sample: u8,
    pub position: usize,
}

impl WaveChannel {
    pub open spec fn wf(&self) -> bool {
        &&& self.length_counter.wf()
        &&& self.volume < 4
        &&& self.output_level < 4
        &&& self.period < 0x800
        &&& self.period_divider <= 0x800
        &&& self.wave_ram@.len() == 16
        &&& self.position < 32
    }

    pub fn new() -> (r: WaveChannel)
        ensures
            r.wf(),
            !r.power_on && !r.enabled && !r.dac_on,
            r.volume == 0 && r.output_level == 0 && r.period == 0 && r.period_divider == 0,
            r.sample == 0 && r.position == 0,
            r.length_counter == (LengthCounter {
                enabled: false,
                counter: 0u16,
                reset_val: 0u16,
                next_frame_no_clock: false,
            }),
    {
        Self {
            power_on: false,
            enabled: false,
            dac_on: false,
            length_counter: LengthCounter::new(),
            volume: 0,
            output_level: 0,
            period: 0,
            period_divider: 0,
            wave_ram: initial_wave_ram(),
            sample: 0,
            position: 0,
        }
    }

    pub open spec fn spec_len_ctr_tick(self) -> WaveChannel {
        let lc = self.length_counter.spec_tick();
        WaveChannel {
            length_counter: lc,
            enabled: if lc.counter == 0 {
                false
            } else {
                self.enabled
            },
            ..self
        }
    }

    pub fn len_ctr_tick(&mut self)
        requires
            old(self).wf(),
        ensures
            final(self).wf(),
            *final(self) == old(self).spec_len_ctr_tick(),
    {
        self.length_counter.tick();
        if self.length_counter.counter == 0 {
            self.enabled = false;
        }
    }

    /// Triggering enables the channel when its converter is on, restores a
    /// spent length counter (255 on a no-clock frame with length enabled,
    /// else 256), latches the output level and restarts the wave position.
    pub open spec fn spec_trigger(self) -> WaveChannel {
        let lc = if self.length_counter.counter == 0 && self.length_counter.next_frame_no_clock
            && self.length_counter.enabled {
            LengthCounter { counter: 255u16, ..self.length_counter }
        } else if self.length_counter.counter == 0 {
            LengthCounter { counter: 256u16, ..self.length_counter }
        } else {
            self.length_counter
        };
        WaveChannel {
            enabled: self.dac_on,
            length_counter: lc,
            volume: self.output_level,
            period_divider: self.period,
            position: 0usize,
            ..self
        }
    }

    pub fn trigger(&mut self)
        requires
            old(self).wf(),
        ensures
            final(self).wf(),
            *final(self) == old(self).spec_trigger(),
    {
        self.enabled = self.dac_on;
        if self.length_counter.counter == 0 && self.length_counter.next_frame_no_clock
            && self.length_counter.enabled {
            self.length_counter.counter = 255;
        } else if self.length_counter.counter == 0 {
            self.length_counter.counter = 256;
        }
        self.volume = self.output_level;
        self.period_divider = self.period;
        self.position = 0;
    }

    /// Bit 7 switches the converter; turning it off disables the channel.
    pub open spec fn spec_dac_enable_write(self, val: u8) -> WaveChannel {
        if !self.power_on {
            self
        } else {
            WaveChannel {
                dac_on: val >= 128,
                enabled: if val >= 128 {
                    self.enabled
                } else {
                    false
                },
                ..self
            }
        }
    }

    pub fn dac_enable_write(&mut self, val: u8)
        requires
            old(self).wf(),
        ensures
            final(self).wf(),
            *final(self) == old(self).spec_dac_enable_write(val),
    {
        if !self.power_on {
            return ;
        }
        self.dac_on = val >= 128;
        if !self.dac_on {
            self.enabled = false;
        }
    }

    /// The converter-enable register image: only bit 7 reads back.
    pub open spec fn spec_dac_enable_read(&self) -> u8 {
        (0x7f + (if self.dac_on {
            128int
        } else {
            0
        })) as u8
    }

    pub fn dac_enable_read(&self) -> (r: u8)
        ensures
            r == self.spec_dac_enable_read(),
    {
        let d: u8 = if self.dac_on {
            128
        } else {
            0
        };
        d + 0x7f
    }

    /// The wave length register loads the counter with 256 minus the byte,
    /// even while the unit is powered down.
    pub open spec fn spec_length_timer(self, val: u8) -> WaveChannel {
        WaveChannel {
            length_counter: LengthCounter {
                counter: (256 - val) as u16,
                reset_val: (256 - val) as u16,
                ..self.length_counter
            },
            ..self
        }
    }

    pub fn length_timer(&mut self, val: u8)
        requires
            old(self).wf(),
        ensures
            final(self).wf(),
            *final(self) == old(self).spec_length_timer(val),
    {
        self.length_counter.set(256 - val as u16);
    }

    /// Bits 6 and 5 select the output level: mute, full, half or quarter.
    pub open spec fn spec_output_level_write(self, val: u8) -> WaveChannel {
        if !self.power_on {
            self
        } else {
            WaveChannel { output_level: (val / 32 % 4) as u8, ..self }
        }
    }

    pub fn output_level_write(&mut self, val: u8)
        requires
            old(self).wf(),
        ensures
            final(self).wf(),
            *final(self) == old(self).spec_output_level_write(val),
    {
        if !self.power_on {
            return ;
        }
        self.output_level = val / 32 % 4;
    }

    /// The output-level register image: bits 6 and 5, the rest ones.
    pub open spec fn spec_output_level_read(&self) -> u8 {
        (self.output_level * 32 + 0x9f) as u8
    }

    pub fn output_level_read(&self) -> (r: u8)
        requires
            self.wf(),
        ensures
            r == self.spec_output_level_read(),
    {
        self.output_level * 32 + 0x9f
    }

    pub open spec fn spec_period_low_write(self, val: u8) -> WaveChannel {
        if !self.power_on {
            self
        } else {
            WaveChannel { period: (self.period - self.period % 256 + val) as u16, ..self }
        }
    }

    pub fn period_low_write(&mut self, val: u8)
        requires
            old(self).wf(),
        ensures
            final(self).wf(),
            *final(self) == old(self).spec_period_low_write(val),
    {
        if !self.power_on {
            return ;
        }
        self.period = self.period - self.period % 256 + val as u16;
    }

    pub fn period_low_read(&self) -> (r: u8)
        ensures
            r == 0xff,
    {
        0xff
    }

    /// The control register: period high bits, length enable (with the
    /// no-clock extra tick) and trigger.
    pub open spec fn spec_control_write(self, val: u8) -> WaveChannel {
        if !self.power_on {
            self
        } else {
            let ch = WaveChannel {
                period: (self.period % 256 + (val % 8) * 256) as u16,
                length_counter: LengthCounter {
                    enabled: val / 64 % 2 == 1,
                    ..self.length_counter
                },
                ..self
            };
            let edge = !self.length_counter.enabled && val / 64 % 2 == 1
                && self.length_counter.next_frame_no_clock;
            let ch = if edge {
                ch.spec_len_ctr_tick()
            } else {
                ch
            };
            if val >= 128 {
                ch.spec_trigger()
            } else {
                ch
            }
        }
    }

    pub fn control_write(&mut self, val: u8)
        requires
            old(self).wf(),
        ensures
            final(self).wf(),
            *final(self) == old(self).spec_control_write(val),
    {
        if !self.power_on {
            return ;
        }
        self.period = self.period % 256 + (val as u16 % 8) * 256;
        if self.length_counter.enable(val / 64 % 2 == 1) {
            self.len_ctr_tick();
        }
        if val >= 128 {
            self.trigger();
        }
    }

    /// The control register image: only the length-enable bit reads back.
    pub open spec fn spec_control_read(&self) -> u8 {
        (0xbf + (if self.length_counter.enabled {
            64int
        } else {
            0
        })) as u8
    }

    pub fn control_read(&self) -> (r: u8)
        ensures
            r == self.spec_control_read(),
    {
        let e: u8 = if self.length_counter.enabled {
            64
        } else {
            0
        };
        0xbf + e
    }

    /// Writes to wave RAM land only while the channel is off.
    pub fn wave_ram_write(&mut self, addr: u16, val: u8)
        requires
            old(self).wf(),
            0xff30 <= addr < 0xff40,
        ensures
            final(self).wf(),
            *final(self) == (WaveChannel { wave_ram: final(self).wave_ram, ..*old(self) }),
            final(self).wave_ram@ == (if old(self).enabled {
                old(self).wave_ram@
            } else {
                old(self).wave_ram@.update(addr - 0xff30, val)
            }),
    {
        if self.enabled {
            return ;
        }
        let offset = (addr - 0xff30) as usize;
        self.wave_ram[offset] = val;
    }

    /// What a read of wave RAM yields: the byte itself while the channel is
    /// off, the byte last sampled while it plays.
    pub open spec fn spec_wave_ram_read(&self, addr: u16) -> u8 {
        if !self.enabled {
            self.wave_ram@[addr - 0xff30]
        } else {
            self.sample
        }
    }

    pub fn wave_ram_read(&self, addr: u16) -> (r: u8)
        requires
            self.wf(),
            0xff30 <= addr < 0xff40,
        ensures
            r == self.spec_wave_ram_read(addr),
    {
        if !self.enabled {
            let offset = (addr - 0xff30) as usize;
            self.wave_ram[offset]
        } else {
            self.sample
        }
    }

    /// One half M-cycle step of the wave position: the divider counts down;
    /// at zero it reloads and the position advances through the 32 nibbles,
    /// latching the byte that holds the current sample.
    pub open spec fn spec_tick(self) -> WaveChannel {
        let pd = if self.period_divider != 0 {
            (self.period_divider - 1) as u16
        } else {
            self.period_divider
        };
        if pd == 0 {
            let pos = ((self.position + 1) % 32) as usize;
            WaveChannel {
                period_divider: (0x800 - self.period) as u16,
                position: pos,
                sample: self.wave_ram@[pos as int / 2],
                ..self
            }
        } else {
            WaveChannel { period_divider: pd, ..self }
        }
    }

    pub fn tick(&mut self)
        requires
            old(self).wf(),
        ensures
            final(self).wf(),
            *final(self) == old(self).spec_tick(),
    {
        if self.period_divider != 0 {
            self.period_divider = self.period_divider - 1;
        }
        if self.period_divider == 0 {
            self.period_divider = 0x800 - self.period;
            self.position = (self.position + 1) % 32;
            self.sample = self.wave_ram[self.position / 2];
        }
    }

    pub open spec fn spec_power_down(self) -> WaveChannel {
        let ch = self.spec_dac_enable_write(0);
        let ch = ch.spec_output_level_write(0);
        let ch = ch.spec_period_low_write(0);
        let ch = ch.spec_control_write(0);
        WaveChannel { power_on: false, ..ch }
    }

    pub fn power_down(&mut self)
        requires
            old(self).wf(),
        ensures
            final(self).wf(),
            *final(self) == old(self).spec_power_down(),
    {
        self.dac_enable_write(0);
        self.output_level_write(0);
        self.period_low_write(0);
        self.control_write(0);
        self.power_on = false;
    }

    /// The converter input: the current nibble shifted per the latched output
    /// level, zero while the channel is disabled.
    pub open spec fn spec_output(&self) -> u8 {
        if !self.enabled {
            0
        } else {
            let nib = if self.position % 2 == 0 {
                self.sample / 16
            } else {
                self.sample % 16
            };
            if self.volume == 0 {
                0
            } else if self.volume == 1 {
                nib
            } else if self.volume == 2 {
                nib / 2
            } else {
                nib / 4
            }
        }
    }

    pub fn output(&self) -> (r: u8)
        requires
            self.wf(),
        ensures
            r == self.spec_output(),
            r < 16,
    {
        if !self.enabled {
            return 0;
        }
        let nib: u8 = if self.position % 2 == 0 {
            self.sample / 16
        } else {
            self.sample % 16
        };
        if self.volume == 0 {
            0
        } else if self.volume == 1 {
            nib
        } else if self.volume == 2 {
            nib / 2
        } else {
            nib / 4
        }
    }
}

/// The wave RAM pattern a powered-on console presents.
fn initial_wave_ram() -> (r: Vec<u8>)
    ensures
        r@.len() == 16,
{
    let mut v: Vec<u8> = Vec::new();
    v.push(0x84);
    v.push(0x40);
    v.push(0x43);
    v.push(0xaa);
    v.push(0x2d);
    v.push(0x78);
    v.push(0x92);
    v.push(0x3c);
    v.push(0x60);
    v.push(0x59);
    v.push(0x59);
    v.push(0xb0);
    v.push(0x34);
    v.push(0xb8);
    v.push(0x2e);
    v.push(0xda);
    v
}

/// The noise channel: a linear-feedback shift register clocked by a divider.
pub struct NoiseChannel {
    pub power_on: bool,
    pub enabled: bool,
    pub dac_on: bool,
    pub length_counter: LengthCounter,
    pub envelope: Envelope,
    pub clock_shift: u8,
    /// true narrows the register to seven effective bits.
    pub lfsr_width: bool,
    pub lfsr: u16,
    pub clock_divider: u8,
    pub timer: u32,
}

impl NoiseChannel {
    pub open spec fn wf(&self) -> bool {
        &&& self.length_counter.wf()
        &&& self.envelope.wf()
        &&& self.clock_shift < 16
        &&& self.lfsr < 0x8000
        &&& (self.clock_divider == 0 || self.clock_divider == 8 || (self.clock_divider % 16 == 0
            && 16 <= self.clock_divider <= 112))
        &&& self.timer <= 112 * 32768
    }

    pub fn new() -> (r: NoiseChannel)
        ensures
            r.wf(),
            !r.power_on && !r.enabled && !r.dac_on,
            r.clock_shift == 0 && !r.lfsr_width && r.lfsr == 0 && r.clock_divider == 0 && r.timer
                == 0,
            r.length_counter == (LengthCounter {
                enabled: false,
                counter: 0u16,
                reset_val: 0u16,
                next_frame_no_clock: false,
            }),
            r.envelope == (Envelope {
                init_vol: 0u8,
                volume: 0u8,
                mode: true,
                period: 0u8,
                counter: 0u8,
            }),
    {
        Self {
            power_on: false,
            enabled: false,
            dac_on: false,
            length_counter: LengthCounter::new(),
            envelope: Envelope::new(),
            clock_shift: 0,
            lfsr_width: false,
            lfsr: 0,
            clock_divider: 0,
            timer: 0,
        }
    }

    pub open spec fn spec_len_ctr_tick(self) -> NoiseChannel {
        let lc = self.length_counter.spec_tick();
        NoiseChannel {
            length_counter: lc,
            enabled: if lc.counter == 0 {
                false
            } else {
                self.enabled
            },
            ..self
        }
    }

    pub fn len_ctr_tick(&mut self)
        requires
            old(self).wf(),
        ensures
            final(self).wf(),
            *final(self) == old(self).spec_len_ctr_tick(),
    {
        self.length_counter.tick();
        if self.length_counter.counter == 0 {
            self.enabled = false;
        }
    }

    /// Triggering enables the channel when its converter is on, restores a
    /// spent length counter, reloads the envelope and seeds the register.
    pub open spec fn spec_trigger(self) -> NoiseChannel {
        let lc = if self.length_counter.counter == 0 && self.length_counter.next_frame_no_clock
            && self.length_counter.enabled {
            LengthCounter { counter: 63u16, ..self.length_counter }
        } else if self.length_counter.counter == 0 {
            LengthCounter { counter: 64u16, ..self.length_counter }
        } else {
            self.length_counter
        };
        NoiseChannel {
            enabled: self.dac_on,
            length_counter: lc,
            envelope: Envelope {
                counter: self.envelope.period,
                volume: self.envelope.init_vol,
                ..self.envelope
            },
            lfsr: 0x7ffu16,
            ..self
        }
    }

    pub fn trigger(&mut self)
        requires
            old(self).wf(),
        ensures
            final(self).wf(),
            *final(self) == old(self).spec_trigger(),
    {
        self.enabled = self.dac_on;
        if self.length_counter.counter == 0 && self.length_counter.next_frame_no_clock
            && self.length_counter.enabled {
            self.length_counter.counter = 63;
        } else if self.length_counter.counter == 0 {
            self.length_counter.counter = 64;
        }
        self.envelope.counter = self.envelope.period;
        self.envelope.volume = self.envelope.init_vol;
        self.lfsr = 0x7ff;
    }

    /// One M-cycle: the timer counts down; at zero it reloads from the coded
    /// divider shifted left, the two low register bits are combined, the
    /// register shifts right with the feedback entering bit 14 (and bit 6 in
    /// narrow mode).
    pub open spec fn spec_tick(self) -> NoiseChannel {
        let t = if self.timer != 0 {
            (self.timer - 1) as u32
        } else {
            self.timer
        };
        if t == 0 {
            let x: u16 = if self.lfsr % 2 != self.lfsr / 2 % 2 {
                1
            } else {
                0
            };
            let shifted = (self.lfsr / 2 + x * 0x4000) as u16;
            let new_lfsr = if self.lfsr_width {
                (shifted - (shifted / 64 % 2) * 64 + x * 64) as u16
            } else {
                shifted
            };
            NoiseChannel {
                timer: (self.clock_divider * spec_noise_pow2(self.clock_shift)) as u32,
                lfsr: new_lfsr,
                ..self
            }
        } else {
            NoiseChannel { timer: t, ..self }
        }
    }

    pub fn tick(&mut self)
        requires
            old(self).wf(),
        ensures
            final(self).wf(),
            *final(self) == old(self).spec_tick(),
    {
        if self.timer != 0 {
            self.timer = self.timer - 1;
        }
        if self.timer == 0 {
            let p = noise_pow2(self.clock_shift);
            let ghost d = self.clock_divider;
            proof {
                assert(d * p <= 112 * 32768) by (nonlinear_arith)
                    requires
                        d <= 112,
                        0 <= p <= 32768,
                ;
            }
            self.timer = (self.clock_divider as u32) * p;
            let x: u16 = if self.lfsr % 2 != self.lfsr / 2 % 2 {
                1
            } else {
                0
            };
            let shifted: u16 = self.lfsr / 2 + x * 0x4000;
            self.lfsr = if self.lfsr_width {
                shifted - (shifted / 64 % 2) * 64 + x * 64
            } else {
                shifted
            };
        }
    }

    /// The converter input: the envelope volume gated by the inverted low
    /// register bit, zero while the channel is disabled.
    pub open spec fn spec_output(&self) -> u8 {
        if self.enabled && self.lfsr % 2 == 0 {
            self.envelope.volume
        } else {
            0
        }
    }

    pub fn output(&self) -> (r: u8)
        requires
            self.wf(),
        ensures
            r == self.spec_output(),
            r < 16,
    {
        if self.enabled {
            if self.lfsr % 2 == 0 {
                self.envelope.volume
            } else {
                0
            }
        } else {
            0
        }
    }

    /// The noise length register loads the counter from the low six bits,
    /// even while the unit is powered down.
    pub open spec fn spec_length_timer(self, val: u8) -> NoiseChannel {
        NoiseChannel {
            length_counter: LengthCounter {
                counter: (64 - val % 64) as u16,
                reset_val: (64 - val % 64) as u16,
                ..self.length_counter
            },
            ..self
        }
    }

    pub fn length_timer(&mut self, val: u8)
        requires
            old(self).wf(),
        ensures
            final(self).wf(),
            *final(self) == old(self).spec_length_timer(val),
    {
        self.length_counter.set(64 - (val % 64) as u16);
    }

    pub open spec fn spec_envelope_write(self, val: u8) -> NoiseChannel {
        if !self.power_on {
            self
        } else {
            let dac = val >= 8;
            NoiseChannel {
                envelope: Envelope {
                    init_vol: (val / 16) as u8,
                    volume: (val / 16) as u8,
                    mode: val / 8 % 2 == 1,
                    period: (val % 8) as u8,
                    ..self.envelope
                },
                dac_on: dac,
                enabled: if dac {
                    self.enabled
                } else {
                    false
                },
                ..self
            }
        }
    }

    pub fn envelope_write(&mut self, val: u8)
        requires
            old(self).wf(),
        ensures
            final(self).wf(),
            *final(self) == old(self).spec_envelope_write(val),
    {
        if !self.power_on {
            return ;
        }
        self.envelope.set_vol(val / 16);
        self.envelope.mode = val / 8 % 2 == 1;
        self.envelope.period = val % 8;
        self.dac_on = val >= 8;
        if !self.dac_on {
            self.enabled = false;
        }
    }

    pub fn envelope_read(&self) -> (r: u8)
        requires
            self.wf(),
        ensures
            r == self.envelope.spec_read(),
    {
        self.envelope.read()
    }

    /// The randomness register: clock shift, register width, and a divider
    /// code where zero stands for eight and the rest for sixteen times the
    /// code.
    pub open spec fn spec_randomness_write(self, val: u8) -> NoiseChannel {
        if !self.power_on {
            self
        } else {
            NoiseChannel {
                clock_shift: (val / 16) as u8,
                lfsr_width: val / 8 % 2 == 1,
                clock_divider: if val % 8 == 0 {
                    8u8
                } else {
                    ((val % 8) * 16) as u8
                },
                ..self
            }
        }
    }

    pub fn randomness_write(&mut self, val: u8)
        requires
            old(self).wf(),
        ensures
            final(self).wf(),
            *final(self) == old(self).spec_randomness_write(val),
    {
        if !self.power_on {
            return ;
        }
        self.clock_shift = val / 16;
        self.lfsr_width = val / 8 % 2 == 1;
        let div_code = val % 8;
        self.clock_divider = if div_code == 0 {
            8
        } else {
            16 * div_code
        };
    }

    /// The randomness register image.
    pub open spec fn spec_randomness_read(&self) -> u8 {
        (self.clock_shift * 16 + (if self.lfsr_width {
            8int
        } else {
            0
        }) + self.clock_divider / 16) as u8
    }

    pub fn randomness_read(&self) -> (r: u8)
        requires
            self.wf(),
        ensures
            r == self.spec_randomness_read(),
    {
        let w: u8 = if self.lfsr_width {
            8
        } else {
            0
        };
        self.clock_shift * 16 + w + self.clock_divider / 16
    }

    /// The control register: length enable (with the no-clock extra tick)
    /// and trigger.
    pub open spec fn spec_control_write(self, val: u8) -> NoiseChannel {
        if !self.power_on {
            self
        } else {
            let ch = NoiseChannel {
                length_counter: LengthCounter {
                    enabled: val / 64 % 2 == 1,
                    ..self.length_counter
                },
                ..self
            };
            let edge = !self.length_counter.enabled && val / 64 % 2 == 1
                && self.length_counter.next_frame_no_clock;
            let ch = if edge {
                ch.spec_len_ctr_tick()
            } else {
                ch
            };
            if val >= 128 {
                ch.spec_trigger()
            } else {
                ch
            }
        }
    }

    pub fn control_write(&mut self, val: u8)
        requires
            old(self).wf(),
        ensures
            final(self).wf(),
            *final(self) == old(self).spec_control_write(val),
    {
        if !self.power_on {
            return ;
        }
        if self.length_counter.enable(val / 64 % 2 == 1) {
            self.len_ctr_tick();
        }
        if val >= 128 {
            self.trigger();
        }
    }

    /// The control register image: only the length-enable bit reads back.
    pub open spec fn spec_control_read(&self) -> u8 {
        (0xbf + (if self.length_counter.enabled {
            64int
        } else {
            0
        })) as u8
    }

    pub fn control_read(&self) -> (r: u8)
        ensures
            r == self.spec_control_read(),
    {
        let e: u8 = if self.length_counter.enabled {
            64
        } else {
            0
        };
        0xbf + e
    }

    pub open spec fn spec_power_down(self) -> NoiseChannel {
        let ch = self.spec_envelope_write(0);
        let ch = ch.spec_randomness_write(0);
        let ch = ch.spec_control_write(0);
        NoiseChannel { power_on: false, ..ch }
    }

    pub fn power_down(&mut self)
        requires
            old(self).wf(),
        ensures
            final(self).wf(),
            *final(self) == old(self).spec_power_down(),
    {
        self.envelope_write(0);
        self.randomness_write(0);
        self.control_write(0);
        self.power_on = false;
    }
}

/// Powers of two up to 2^15, for the noise timer reload.
pub open spec fn spec_noise_pow2(s: u8) -> int {
    if s == 0 {
        1
    } else if s == 1 {
        2
    } else if s == 2 {
        4
    } else if s == 3 {
        8
    } else if s == 4 {
        16
    } else if s == 5 {
        32
    } else if s == 6 {
        64
    } else if s == 7 {
        128
    } else if s == 8 {
        256
    } else if s == 9 {
        512
    } else if s == 10 {
        1024
    } else if s == 11 {
        2048
    } else if s == 12 {
        4096
    } else if s == 13 {
        8192
    } else if s == 14 {
        16384
    } else {
        32768
    }
}

/// Executable twin of `spec_noise_pow2`.
fn noise_pow2(s: u8) -> (r: u32)
    ensures
        r == spec_noise_pow2(s),
{
    if s == 0 {
        1
    } else if s == 1 {
        2
    } else if s == 2 {
        4
    } else if s == 3 {
        8
    } else if s == 4 {
        16
    } else if s == 5 {
        32
    } else if s == 6 {
        64
    } else if s == 7 {
        128
    } else if s == 8 {
        256
    } else if s == 9 {
        512
    } else if s == 10 {
        1024
    } else if s == 11 {
        2048
    } else if s == 12 {
        4096
    } else if s == 13 {
        8192
    } else if s == 14 {
        16384
    } else {
        32768
    }
}

/// One mixed stereo sample, handed out as the integer converter inputs of
/// the four channels with the panning masks and master volume, for the host
/// layer to turn into floating-point amplitudes.
pub struct AudioSample {
    /// Converter inputs of the four channels, each 0 to 15.
    pub ch1: u8,
    pub ch2: u8,
    pub ch3: u8,
    pub ch4: u8,
    /// Bit i set when channel i+1 sounds on the left side.
    pub left_mask: u8,
    /// Bit i set when channel i+1 sounds on the right side.
    pub right_mask: u8,
    /// The NR50 master-volume byte.
    pub volume: u8,
}

/// The audio processor: the four channels, the frame sequencer, panning and
/// master state.
pub struct Apu {
    pub square1: SquareChannel,
    pub square2: SquareChannel,
    pub wave: WaveChannel,
    pub noise: NoiseChannel,
    pub frame_seq_cycles: u16,
    pub frame: u8,
    pub output_cycles: u8,
    pub audio_on: bool,
    pub sound_panning: u8,
    pub volume: u8,
}

impl Apu {
    pub open spec fn wf(&self) -> bool {
        &&& self.square1.wf()
        &&& self.square2.wf()
        &&& self.wave.wf()
        &&& self.noise.wf()
        &&& self.frame_seq_cycles < 2048
        &&& self.frame < 8
        &&& self.output_cycles < 23
    }

    pub fn new() -> (r: Apu)
        ensures
            r.wf(),
            !r.audio_on && r.sound_panning == 0 && r.volume == 0,
            r.frame_seq_cycles == 0 && r.frame == 0 && r.output_cycles == 0,
            !r.square1.power_on && !r.square2.power_on && !r.wave.power_on && !r.noise.power_on,
            r.square1.sweep_enabled && !r.square2.sweep_enabled,
    {
        Self {
            square1: SquareChannel::new(true),
            square2: SquareChannel::new(false),
            wave: WaveChannel::new(),
            noise: NoiseChannel::new(),
            frame_seq_cycles: 0,
            frame: 0,
            output_cycles: 0,
            audio_on: false,
            sound_panning: 0,
            volume: 0,
        }
    }

    /// What one frame-sequencer step does to a square channel: length on
    /// even steps (preceded by the sweep on 2 and 6 for the first channel),
    /// the envelope on step 7, and the no-clock flag mirroring the step
    /// parity.
    pub open spec fn spec_frame_step_square(ch: SquareChannel, f: u8, first: bool)
        -> SquareChannel {
        let ch1 = if f == 2 || f == 6 {
            if first {
                ch.spec_sweep_tick().spec_len_ctr_tick()
            } else {
                ch.spec_len_ctr_tick()
            }
        } else if f == 0 || f == 4 {
            ch.spec_len_ctr_tick()
        } else if f == 7 {
            SquareChannel { envelope: ch.envelope.spec_tick(), ..ch }
        } else {
            ch
        };
        SquareChannel {
            length_counter: LengthCounter {
                next_frame_no_clock: f % 2 == 0,
                ..ch1.length_counter
            },
            ..ch1
        }
    }

    pub open spec fn spec_frame_step_wave(ch: WaveChannel, f: u8) -> WaveChannel {
        let ch1 = if f % 2 == 0 {
            ch.spec_len_ctr_tick()
        } else {
            ch
        };
        WaveChannel {
            length_counter: LengthCounter {
                next_frame_no_clock: f % 2 == 0,
                ..ch1.length_counter
            },
            ..ch1
        }
    }

    pub open spec fn spec_frame_step_noise(ch: NoiseChannel, f: u8) -> NoiseChannel {
        let ch1 = if f % 2 == 0 {
            ch.spec_len_ctr_tick()
        } else if f == 7 {
            NoiseChannel { envelope: ch.envelope.spec_tick(), ..ch }
        } else {
            ch
        };
        NoiseChannel {
            length_counter: LengthCounter {
                next_frame_no_clock: f % 2 == 0,
                ..ch1.length_counter
            },
            ..ch1
        }
    }

    /// One frame-sequencer advance every 2048 M-cycles: length counters tick
    /// on even steps, the sweep on steps 2 and 6, the envelopes on step 7;
    /// the no-clock flags mirror whether the coming step skips length.
    pub open spec fn spec_frame_cycle(self) -> Apu {
        if self.frame_seq_cycles + 1 < 2048 {
            Apu { frame_seq_cycles: (self.frame_seq_cycles + 1) as u16, ..self }
        } else {
            let f = ((self.frame + 1) % 8) as u8;
            Apu {
                frame_seq_cycles: 0u16,
                frame: f,
                square1: Apu::spec_frame_step_square(self.square1, f, true),
                square2: Apu::spec_frame_step_square(self.square2, f, false),
                wave: Apu::spec_frame_step_wave(self.wave, f),
                noise: Apu::spec_frame_step_noise(self.noise, f),
                ..self
            }
        }
    }

    pub fn frame_cycle(&mut self)
        requires
            old(self).wf(),
        ensures
            final(self).wf(),
            *final(self) == old(self).spec_frame_cycle(),
    {
        if self.frame_seq_cycles + 1 < 2048 {
            self.frame_seq_cycles = self.frame_seq_cycles + 1;
            return ;
        }
        self.frame_seq_cycles = 0;
        self.frame = (self.frame + 1) % 8;
        let f = self.frame;
        frame_step_square(&mut self.square1, f, true);
        frame_step_square(&mut self.square2, f, false);
        frame_step_wave(&mut self.wave, f);
        frame_step_noise(&mut self.noise, f);
    }

    /// The state after one M-cycle of channel clocks: both squares and the
    /// noise advance once, the wave twice, and the frame sequencer counts.
    pub open spec fn spec_channel_tick(self) -> Apu {
        Apu {
            square1: self.square1.spec_tick(),
            square2: self.square2.spec_tick(),
            wave: self.wave.spec_tick().spec_tick(),
            noise: self.noise.spec_tick(),
            ..self
        }.spec_frame_cycle()
    }

    /// The full state after one M-cycle, including the output sub-counter.
    pub open spec fn spec_tick(self) -> Apu {
        let a = self.spec_channel_tick();
        if a.output_cycles + 1 == 23 {
            Apu { output_cycles: 0u8, ..a }
        } else {
            Apu { output_cycles: (a.output_cycles + 1) as u8, ..a }
        }
    }

    /// Advances every channel by one M-cycle; every 23rd call emits one
    /// stereo sample.
    pub fn tick(&mut self) -> (r: Option<AudioSample>)
        requires
            old(self).wf(),
        ensures
            final(self).wf(),
            *final(self) == old(self).spec_tick(),
            r is Some <==> old(self).output_cycles + 1 == 23,
            r matches Some(s) ==> s == final(self).spec_output(),
    {
        self.square1.tick();
        self.square2.tick();
        self.wave.tick();
        self.wave.tick();
        self.noise.tick();
        self.frame_cycle();
        if self.output_cycles + 1 == 23 {
            self.output_cycles = 0;
            Some(self.output())
        } else {
            self.output_cycles = self.output_cycles + 1;
            None
        }
    }

    /// The sample the mixer would emit now: each channel's converter input,
    /// with the panning masks gated by the converters and the master switch.
    pub open spec fn spec_output(&self) -> AudioSample {
        AudioSample {
            ch1: self.square1.spec_output(),
            ch2: self.square2.spec_output(),
            ch3: self.wave.spec_output(),
            ch4: self.noise.spec_output(),
            left_mask: ((if self.square1.dac_on && self.audio_on && self.sound_panning / 16 % 2
                == 1 {
                1int
            } else {
                0
            }) + (if self.square2.dac_on && self.audio_on && self.sound_panning / 32 % 2 == 1 {
                2int
            } else {
                0
            }) + (if self.wave.dac_on && self.audio_on && self.sound_panning / 64 % 2 == 1 {
                4int
            } else {
                0
            }) + (if self.noise.dac_on && self.audio_on && self.sound_panning / 128 % 2 == 1 {
                8int
            } else {
                0
            })) as u8,
            right_mask: ((if self.square1.dac_on && self.audio_on && self.sound_panning % 2 == 1 {
                1int
            } else {
                0
            }) + (if self.square2.dac_on && self.audio_on && self.sound_panning / 2 % 2 == 1 {
                2int
            } else {
                0
            }) + (if self.wave.dac_on && self.audio_on && self.sound_panning / 4 % 2 == 1 {
                4int
            } else {
                0
            }) + (if self.noise.dac_on && self.audio_on && self.sound_panning / 8 % 2 == 1 {
                8int
            } else {
                0
            })) as u8,
            volume: self.volume,
        }
    }

    pub fn output(&self) -> (r: AudioSample)
        requires
            self.wf(),
        ensures
            r == self.spec_output(),
    {
        let l1: u8 = if self.square1.dac_on && self.audio_on && self.sound_panning / 16 % 2 == 1 {
            1
        } else {
            0
        };
        let l2: u8 = if self.square2.dac_on && self.audio_on && self.sound_panning / 32 % 2 == 1 {
            2
        } else {
            0
        };
        let l3: u8 = if self.wave.dac_on && self.audio_on && self.sound_panning / 64 % 2 == 1 {
            4
        } else {
            0
        };
        let l4: u8 = if self.noise.dac_on && self.audio_on && self.sound_panning / 128 % 2 == 1 {
            8
        } else {
            0
        };
        let r1: u8 = if self.square1.dac_on && self.audio_on && self.sound_panning % 2 == 1 {
            1
        } else {
            0
        };
        let r2: u8 = if self.square2.dac_on && self.audio_on && self.sound_panning / 2 % 2 == 1 {
            2
        } else {
            0
        };
        let r3: u8 = if self.wave.dac_on && self.audio_on && self.sound_panning / 4 % 2 == 1 {
            4
        } else {
            0
        };
        let r4: u8 = if self.noise.dac_on && self.audio_on && self.sound_panning / 8 % 2 == 1 {
            8
        } else {
            0
        };
        AudioSample {
            ch1: self.square1.output(),
            ch2: self.square2.output(),
            ch3: self.wave.output(),
            ch4: self.noise.output(),
            left_mask: l1 + l2 + l3 + l4,
            right_mask: r1 + r2 + r3 + r4,
            volume: self.volume,
        }
    }

    /// NR50 and NR51 accept writes only while the unit is powered.
    pub fn volume_write(&mut self, val: u8)
        ensures
            *final(self) == (Apu {
                volume: if old(self).audio_on {
                    val
                } else {
                    old(self).volume
                },
                ..*old(self)
            }),
    {
        if self.audio_on {
            self.volume = val;
        }
    }

    pub fn volume_read(&self) -> (r: u8)
        ensures
            r == self.volume,
    {
        self.volume
    }

    pub fn sound_panning_write(&mut self, val: u8)
        ensures
            *final(self) == (Apu {
                sound_panning: if old(self).audio_on {
                    val
                } else {
                    old(self).sound_panning
                },
                ..*old(self)
            }),
    {
        if self.audio_on {
            self.sound_panning = val;
        }
    }

    pub fn sound_panning_read(&self) -> (r: u8)
        ensures
            r == self.sound_panning,
    {
        self.sound_panning
    }

    /// How a write to the master control changes the unit: powering off
    /// zeroes every register except the length counters and wave RAM;
    /// powering on resets the sequencer step to 7 and the wave and duty
    /// positions, and reopens the registers.
    pub open spec fn spec_master_control_write(self, val: u8) -> Apu {
        let on = val >= 128;
        let a = Apu { audio_on: on, ..self };
        let a = if !on {
            Apu {
                square1: a.square1.spec_power_down(),
                square2: a.square2.spec_power_down(),
                wave: a.wave.spec_power_down(),
                noise: a.noise.spec_power_down(),
                sound_panning: 0u8,
                volume: 0u8,
                ..a
            }
        } else {
            a
        };
        if !self.audio_on && on {
            Apu {
                frame: 7u8,
                square1: SquareChannel { duty_step: 0usize, power_on: true, ..a.square1 },
                square2: SquareChannel { duty_step: 0usize, power_on: true, ..a.square2 },
                wave: WaveChannel { position: 0usize, power_on: true, ..a.wave },
                noise: NoiseChannel { power_on: true, ..a.noise },
                ..a
            }
        } else {
            a
        }
    }

    pub fn master_control_write(&mut self, val: u8)
        requires
            old(self).wf(),
        ensures
            final(self).wf(),
            *final(self) == old(self).spec_master_control_write(val),
    {
        let prev_on = self.audio_on;
        self.audio_on = val >= 128;
        if !self.audio_on {
            self.square1.power_down();
            self.square2.power_down();
            self.wave.power_down();
            self.noise.power_down();
            self.sound_panning = 0;
            self.volume = 0;
        }
        if !prev_on && self.audio_on {
            self.frame = 7;
            self.square1.duty_step = 0;
            self.square2.duty_step = 0;
            self.wave.position = 0;
            self.square1.power_on = true;
            self.square2.power_on = true;
            self.wave.power_on = true;
            self.noise.power_on = true;
        }
    }

    /// NR52 reads back the power bit, three unused ones, and the four
    /// channel-enabled booleans in its low nibble.
    pub open spec fn spec_master_control_read(&self) -> u8 {
        ((if self.audio_on {
            128int
        } else {
            0
        }) + 0x70 + (if self.noise.enabled {
            8int
        } else {
            0
        }) + (if self.wave.enabled {
            4int
        } else {
            0
        }) + (if self.square2.enabled {
            2int
        } else {
            0
        }) + (if self.square1.enabled {
            1int
        } else {
            0
        })) as u8
    }

    pub fn master_control_read(&self) -> (r: u8)
        ensures
            r == self.spec_master_control_read(),
            r % 2 == 1 <==> self.square1.enabled,
            r / 2 % 2 == 1 <==> self.square2.enabled,
            r / 4 % 2 == 1 <==> self.wave.enabled,
            r / 8 % 2 == 1 <==> self.noise.enabled,
    {
        let on: u8 = if self.audio_on {
            128
        } else {
            0
        };
        let c4: u8 = if self.noise.enabled {
            8
        } else {
            0
        };
        let c3: u8 = if self.wave.enabled {
            4
        } else {
            0
        };
        let c2: u8 = if self.square2.enabled {
            2
        } else {
            0
        };
        let c1: u8 = if self.square1.enabled {
            1
        } else {
            0
        };
        on + 0x70 + c4 + c3 + c2 + c1
    }
}

/// Applies one frame-sequencer step to a square channel.
fn frame_step_square(ch: &mut SquareChannel, f: u8, first: bool)
    requires
        old(ch).wf(),
    ensures
        final(ch).wf(),
        *final(ch) == Apu::spec_frame_step_square(*old(ch), f, first),
{
    if f == 2 || f == 6 {
        if first {
            ch.sweep_tick();
        }
        ch.len_ctr_tick();
    } else if f == 0 || f == 4 {
        ch.len_ctr_tick();
    } else if f == 7 {
        ch.envelope.tick();
    }
    ch.length_counter.next_frame_no_clock = f % 2 == 0;
}

/// Applies one frame-sequencer step to the wave channel.
fn frame_step_wave(ch: &mut WaveChannel, f: u8)
    requires
        old(ch).wf(),
    ensures
        final(ch).wf(),
        *final(ch) == Apu::spec_frame_step_wave(*old(ch), f),
{
    if f % 2 == 0 {
        ch.len_ctr_tick();
    }
    ch.length_counter.next_frame_no_clock = f % 2 == 0;
}

/// Applies one frame-sequencer step to the noise channel.
fn frame_step_noise(ch: &mut NoiseChannel, f: u8)
    requires
        old(ch).wf(),
    ensures
        final(ch).wf(),
        *final(ch) == Apu::spec_frame_step_noise(*old(ch), f),
{
    if f % 2 == 0 {
        ch.len_ctr_tick();
    } else if f == 7 {
        ch.envelope.tick();
    }
    ch.length_counter.next_frame_no_clock = f % 2 == 0;
}

} // verus!
