use vstd::prelude::*;

use crate::alu;
use crate::bus::{spec_bus_read, spec_bus_read16, spec_bus_write_rel, Bus, Interrupt};
use crate::flags::CpuFlag;
use crate::opcodes::{
    opcode_entry, prefixed_entry, spec_base_cycles, spec_cond, spec_extra_cycles,
    spec_prefixed_cycles, spec_valid_opcode,
};

verus! {

/// A fetch landed on a byte the unprefixed table does not define; the run
/// is aborted with the place and the byte.
#[derive(Debug, Clone, Copy, PartialEq, Eq, Structural)]
pub struct InvalidOpcode {
    pub addr: u16,
    pub opcode: u8,
}

/// The processor: eight 8-bit registers, the two 16-bit pointers, the
/// interrupt-enable and halt state, the prefix latch, and the bus it owns.
pub struct Cpu {
    pub a: u8,
    pub b: u8,
    pub c: u8,
    pub d: u8,
    pub e: u8,
    pub flags: CpuFlag,
    pub h: u8,
    pub l: u8,
    pub stack_pointer: u16,
    pub program_counter: u16,
    pub ime: bool,
    pub bus: Bus,
    pub prefixed_mode: bool,
    pub halted: bool,
    pub frame_ready: bool,
}

/// The interrupt lines that are both requested and enabled.
pub open spec fn spec_pending(b: &Bus) -> Interrupt {
    Interrupt {
        vblank: b.interrupt_flag.vblank && b.interrupt_enable.vblank,
        lcd: b.interrupt_flag.lcd && b.interrupt_enable.lcd,
        timer: b.interrupt_flag.timer && b.interrupt_enable.timer,
        serial: b.interrupt_flag.serial && b.interrupt_enable.serial,
        joypad: b.interrupt_flag.joypad && b.interrupt_enable.joypad,
    }
}

pub open spec fn spec_any_pending(b: &Bus) -> bool {
    let p = spec_pending(b);
    p.vblank || p.lcd || p.timer || p.serial || p.joypad
}

/// The handler address of the highest-priority pending line: the vertical
/// blank first, the joypad last.
pub open spec fn spec_vector(p: Interrupt) -> u16 {
    if p.vblank {
        0x40
    } else if p.lcd {
        0x48
    } else if p.timer {
        0x50
    } else if p.serial {
        0x58
    } else {
        0x60
    }
}

/// The request register with the serviced (highest-priority pending) line
/// cleared.
pub open spec fn spec_clear_highest(f: Interrupt, p: Interrupt) -> Interrupt {
    if p.vblank {
        Interrupt { vblank: false, ..f }
    } else if p.lcd {
        Interrupt { lcd: false, ..f }
    } else if p.timer {
        Interrupt { timer: false, ..f }
    } else if p.serial {
        Interrupt { serial: false, ..f }
    } else {
        Interrupt { joypad: false, ..f }
    }
}

/// The bus after the two stack writes of a pushed 16-bit value: the high
/// byte lands one below the old stack pointer, the low byte two below.
pub open spec fn spec_pushed_rel(o: &Bus, n: &Bus, sp: u16, v: u16) -> bool {
    exists|m: Bus|
        spec_bus_write_rel(o, &m, ((sp + 0xffff) % 0x10000) as u16, (v / 256) as u8) && m.wf()
            && spec_bus_write_rel(&m, n, ((sp + 0xfffe) % 0x10000) as u16, (v % 256) as u8)
}

/// What servicing interrupts before a fetch does, per the (halted, IME,
/// any-pending) truth table: nothing without a pending line or with IME off
/// while running; a bare wake-up when halted with IME off; otherwise IME
/// drops, a halt ends, the return address is pushed and control moves to the
/// vector of the highest-priority line, whose request bit clears.
pub open spec fn spec_interrupt_check_rel(o: &Cpu, n: &Cpu) -> bool {
    let p = spec_pending(&o.bus);
    if !spec_any_pending(&o.bus) {
        n == o
    } else if !o.halted && !o.ime {
        n == o
    } else if o.halted && !o.ime {
        n == Cpu { halted: false, ..*o }
    } else {
        &&& *n == Cpu {
            ime: false,
            halted: false,
            program_counter: spec_vector(p),
            stack_pointer: ((o.stack_pointer + 0xfffe) % 0x10000) as u16,
            bus: n.bus,
            ..*o
        }
        &&& exists|m: Bus|
            spec_pushed_rel(&o.bus, &m, o.stack_pointer, o.program_counter) && m.wf() && n.bus
                == Bus { interrupt_flag: spec_clear_highest(m.interrupt_flag, p), ..m }
    }
}

/// Value and flags of a prefixed rotate, shift or swap, selected by the
/// opcode's high five bits.
pub open spec fn spec_cb_rot(byte: u8, val: u8, carry: bool) -> (u8, CpuFlag) {
    if byte < 0x08 {
        alu::spec_rlc(val)
    } else if byte < 0x10 {
        alu::spec_rrc(val)
    } else if byte < 0x18 {
        alu::spec_rl(val, carry)
    } else if byte < 0x20 {
        alu::spec_rr(val, carry)
    } else if byte < 0x28 {
        alu::spec_sla(val)
    } else if byte < 0x30 {
        alu::spec_sra(val)
    } else if byte < 0x38 {
        alu::spec_swap(val)
    } else {
        alu::spec_srl(val)
    }
}

/// The opcodes of the control family: jumps, calls, returns, resets, idle
/// forms and the mode switches.
pub open spec fn spec_is_control(byte: u8) -> bool {
    byte == 0x00 || byte == 0x10 || byte == 0x18 || byte == 0x20 || byte == 0x28 || byte == 0x30
        || byte == 0x38 || byte == 0x76 || byte == 0xc0 || byte == 0xc2 || byte == 0xc3 || byte
        == 0xc4 || byte == 0xc7 || byte == 0xc8 || byte == 0xc9 || byte == 0xca || byte == 0xcb
        || byte == 0xcc || byte == 0xcd || byte == 0xcf || byte == 0xd0 || byte == 0xd2 || byte
        == 0xd4 || byte == 0xd7 || byte == 0xd8 || byte == 0xd9 || byte == 0xda || byte == 0xdc
        || byte == 0xdf || byte == 0xe7 || byte == 0xe9 || byte == 0xef || byte == 0xf3 || byte
        == 0xf7 || byte == 0xfb || byte == 0xff
}

/// The opcodes of the 16-bit load and arithmetic family.
pub open spec fn spec_is_load16(byte: u8) -> bool {
    byte == 0x01 || byte == 0x03 || byte == 0x08 || byte == 0x09 || byte == 0x0b || byte == 0x11
        || byte == 0x13 || byte == 0x19 || byte == 0x1b || byte == 0x21 || byte == 0x23 || byte
        == 0x29 || byte == 0x2b || byte == 0x31 || byte == 0x33 || byte == 0x39 || byte == 0x3b
        || byte == 0xc1 || byte == 0xc5 || byte == 0xd1 || byte == 0xd5 || byte == 0xe1 || byte
        == 0xe5 || byte == 0xe8 || byte == 0xf1 || byte == 0xf5 || byte == 0xf8 || byte == 0xf9
}

/// The opcodes of the 8-bit arithmetic and logic family.
pub open spec fn spec_is_alu8(byte: u8) -> bool {
    (0x80 <= byte && byte <= 0xbf) || byte == 0x04 || byte == 0x05 || byte == 0x07 || byte == 0x0c
        || byte == 0x0d || byte == 0x0f || byte == 0x14 || byte == 0x15 || byte == 0x17 || byte
        == 0x1c || byte == 0x1d || byte == 0x1f || byte == 0x24 || byte == 0x25 || byte == 0x27
        || byte == 0x2c || byte == 0x2d || byte == 0x2f || byte == 0x34 || byte == 0x35 || byte
        == 0x37 || byte == 0x3c || byte == 0x3d || byte == 0x3f || byte == 0xc6 || byte == 0xce
        || byte == 0xd6 || byte == 0xde || byte == 0xe6 || byte == 0xee || byte == 0xf6 || byte
        == 0xfe
}

/// What one prefixed instruction does: the rotate family writes the
/// computed value back to its slot with the computed flags; BIT only sets
/// flags; RES and SET write the bit-adjusted value with flags untouched.
pub open spec fn spec_prefixed_rel(o: &Cpu, n: &Cpu, byte: u8) -> bool {
    let reg = (byte % 8) as u8;
    let bit = (byte / 8 % 8) as u8;
    let val = o.spec_r8_read(reg);
    if byte < 0x40 {
        let s = spec_cb_rot(byte, val, o.flags.carry);
        Cpu::spec_r8_write_rel(&(Cpu { flags: s.1, ..*o }), n, reg, s.0)
    } else if byte < 0x80 {
        *n == Cpu { flags: alu::spec_bit_test(val, bit, o.flags), ..*o }
    } else if byte < 0xc0 {
        Cpu::spec_r8_write_rel(o, n, reg, alu::spec_res(val, bit))
    } else {
        Cpu::spec_r8_write_rel(o, n, reg, alu::spec_set(val, bit))
    }
}

impl Cpu {
    pub open spec fn wf(&self) -> bool {
        self.bus.wf()
    }

    /// Powers the processor on around a loaded bus. The register file starts
    /// zeroed with SP at 0xfffe and PC at 0x0100 (a documented deviation
    /// from the common post-boot register values, which test programs that
    /// probe them would notice).
    pub fn new(bus: Bus) -> (r: Cpu)
        requires
            bus.wf(),
        ensures
            r.wf(),
            r == (Cpu {
                a: 0u8,
                b: 0u8,
                c: 0u8,
                d: 0u8,
                e: 0u8,
                flags: CpuFlag { zero: false, subtraction: false, half_carry: false, carry: false },
                h: 0u8,
                l: 0u8,
                stack_pointer: 0xfffeu16,
                program_counter: 0x0100u16,
                ime: false,
                bus: r.bus,
                prefixed_mode: false,
                halted: false,
                frame_ready: false,
            }),
            r.bus == bus,
    {
        Self {
            a: 0,
            b: 0,
            c: 0,
            d: 0,
            e: 0,
            flags: CpuFlag::empty(),
            h: 0,
            l: 0,
            stack_pointer: 0xfffe,
            program_counter: 0x0100,
            ime: false,
            bus,
            halted: false,
            prefixed_mode: false,
            frame_ready: false,
        }
    }

    /// The immediate byte of the instruction at the program counter.
    pub open spec fn spec_imm8(&self) -> u8 {
        spec_bus_read(&self.bus, ((self.program_counter + 1) % 0x10000) as u16)
    }

    /// The immediate 16-bit operand of the instruction at the program
    /// counter, low byte first.
    pub open spec fn spec_imm16(&self) -> u16 {
        spec_bus_read16(&self.bus, ((self.program_counter + 1) % 0x10000) as u16)
    }

    pub open spec fn spec_bc(&self) -> u16 {
        (self.b * 256 + self.c) as u16
    }

    pub open spec fn spec_de(&self) -> u16 {
        (self.d * 256 + self.e) as u16
    }

    pub open spec fn spec_hl(&self) -> u16 {
        (self.h * 256 + self.l) as u16
    }

    pub open spec fn spec_af(&self) -> u16 {
        (self.a * 256 + self.flags.spec_bits()) as u16
    }

    pub fn get_bc(&self) -> (r: u16)
        ensures
            r == self.spec_bc(),
    {
        self.b as u16 * 256 + self.c as u16
    }

    pub fn set_bc(&mut self, value: u16)
        ensures
            *final(self) == (Cpu { b: (value / 256) as u8, c: (value % 256) as u8, ..*old(self) }),
    {
        self.c = (value % 256) as u8;
        self.b = (value / 256) as u8;
    }

    pub fn get_de(&self) -> (r: u16)
        ensures
            r == self.spec_de(),
    {
        self.d as u16 * 256 + self.e as u16
    }

    pub fn set_de(&mut self, value: u16)
        ensures
            *final(self) == (Cpu { d: (value / 256) as u8, e: (value % 256) as u8, ..*old(self) }),
    {
        self.e = (value % 256) as u8;
        self.d = (value / 256) as u8;
    }

    pub fn get_hl(&self) -> (r: u16)
        ensures
            r == self.spec_hl(),
    {
        self.h as u16 * 256 + self.l as u16
    }

    pub fn set_hl(&mut self, value: u16)
        ensures
            *final(self) == (Cpu { h: (value / 256) as u8, l: (value % 256) as u8, ..*old(self) }),
    {
        self.l = (value % 256) as u8;
        self.h = (value / 256) as u8;
    }

    /// AF writes discard the low nibble of the flag byte.
    pub fn set_af(&mut self, value: u16)
        ensures
            *final(self) == (Cpu {
                a: (value / 256) as u8,
                flags: CpuFlag::spec_from_bits((value % 256) as u8),
                ..*old(self)
            }),
    {
        self.a = (value / 256) as u8;
        self.flags = CpuFlag::from_bits_retain((value % 256) as u8);
    }

    pub fn get_af(&self) -> (r: u16)
        ensures
            r == self.spec_af(),
    {
        self.a as u16 * 256 + self.flags.bits() as u16
    }

    /// A push first decrements SP, then stores at the new SP.
    fn push_u8_to_stack(&mut self, val: u8)
        requires
            old(self).wf(),
        ensures
            final(self).wf(),
            *final(self) == (Cpu {
                stack_pointer: ((old(self).stack_pointer + 0xffff) % 0x10000) as u16,
                bus: final(self).bus,
                ..*old(self)
            }),
            spec_bus_write_rel(
                &old(self).bus,
                &final(self).bus,
                ((old(self).stack_pointer + 0xffff) % 0x10000) as u16,
                val,
            ),
    {
        self.stack_pointer = self.stack_pointer.wrapping_sub(1);
        self.bus.mem_write(self.stack_pointer, val);
    }

    /// Pushing a 16-bit value stores its high byte at SP-1 and its low byte
    /// at SP-2, leaving SP two lower.
    pub fn push_u16_to_stack(&mut self, val: u16)
        requires
            old(self).wf(),
        ensures
            final(self).wf(),
            *final(self) == (Cpu {
                stack_pointer: ((old(self).stack_pointer + 0xfffe) % 0x10000) as u16,
                bus: final(self).bus,
                ..*old(self)
            }),
            spec_pushed_rel(&old(self).bus, &final(self).bus, old(self).stack_pointer, val),
    {
        let hi = (val / 256) as u8;
        let lo = (val % 256) as u8;
        self.push_u8_to_stack(hi);
        let ghost mid = self.bus;
        self.push_u8_to_stack(lo);
        proof {
            assert(spec_bus_write_rel(
                &old(self).bus,
                &mid,
                ((old(self).stack_pointer + 0xffff) % 0x10000) as u16,
                (val / 256) as u8,
            ));
        }
    }

    /// A pop reads the 16-bit value at SP, then raises SP by two.
    pub fn pop_u16_from_stack(&mut self) -> (r: u16)
        requires
            old(self).wf(),
        ensures
            final(self).wf(),
            *final(self) == (Cpu {
                stack_pointer: ((old(self).stack_pointer + 2) % 0x10000) as u16,
                ..*old(self)
            }),
            r == spec_bus_read16(&old(self).bus, old(self).stack_pointer),
    {
        let val = self.bus.mem_read_u16(self.stack_pointer);
        self.stack_pointer = self.stack_pointer.wrapping_add(2);
        val
    }

    /// The value of 8-bit register slot `reg`: B, C, D, E, H, L, the memory
    /// cell at HL, or A.
    pub open spec fn spec_r8_read(&self, reg: u8) -> u8 {
        if reg == 0 {
            self.b
        } else if reg == 1 {
            self.c
        } else if reg == 2 {
            self.d
        } else if reg == 3 {
            self.e
        } else if reg == 4 {
            self.h
        } else if reg == 5 {
            self.l
        } else if reg == 6 {
            spec_bus_read(&self.bus, self.spec_hl())
        } else {
            self.a
        }
    }

    pub fn r8_read(&self, reg: u8) -> (r: u8)
        requires
            self.wf(),
            reg < 8,
        ensures
            r == self.spec_r8_read(reg),
    {
        match reg {
            0 => self.b,
            1 => self.c,
            2 => self.d,
            3 => self.e,
            4 => self.h,
            5 => self.l,
            6 => self.bus.mem_read(self.get_hl()),
            _ => self.a,
        }
    }

    /// How writing 8-bit register slot `reg` changes the state: a plain
    /// register field, or the memory cell at HL for slot 6.
    pub open spec fn spec_r8_write_rel(o: &Cpu, n: &Cpu, reg: u8, value: u8) -> bool {
        if reg == 0 {
            n == Cpu { b: value, ..*o }
        } else if reg == 1 {
            n == Cpu { c: value, ..*o }
        } else if reg == 2 {
            n == Cpu { d: value, ..*o }
        } else if reg == 3 {
            n == Cpu { e: value, ..*o }
        } else if reg == 4 {
            n == Cpu { h: value, ..*o }
        } else if reg == 5 {
            n == Cpu { l: value, ..*o }
        } else if reg == 6 {
            &&& *n == Cpu { bus: n.bus, ..*o }
            &&& spec_bus_write_rel(&o.bus, &n.bus, o.spec_hl(), value)
        } else {
            n == Cpu { a: value, ..*o }
        }
    }

    pub fn r8_write(&mut self, reg: u8, value: u8)
        requires
            old(self).wf(),
            reg < 8,
        ensures
            final(self).wf(),
            Cpu::spec_r8_write_rel(old(self), final(self), reg, value),
    {
        match reg {
            0 => self.b = value,
            1 => self.c = value,
            2 => self.d = value,
            3 => self.e = value,
            4 => self.h = value,
            5 => self.l = value,
            6 => {
                let addr = self.get_hl();
                self.bus.mem_write(addr, value);
            },
            _ => self.a = value,
        }
    }

    /// The value of 16-bit register slot `reg`: BC, DE, HL or SP.
    pub open spec fn spec_r16_read(&self, reg: u8) -> u16 {
        if reg == 0 {
            self.spec_bc()
        } else if reg == 1 {
            self.spec_de()
        } else if reg == 2 {
            self.spec_hl()
        } else {
            self.stack_pointer
        }
    }

    pub fn r16_read(&self, reg: u8) -> (r: u16)
        requires
            reg < 4,
        ensures
            r == self.spec_r16_read(reg),
    {
        match reg {
            0 => self.get_bc(),
            1 => self.get_de(),
            2 => self.get_hl(),
            _ => self.stack_pointer,
        }
    }

    pub fn r16_write(&mut self, reg: u8, value: u16)
        requires
            reg < 4,
        ensures
            *final(self) == (if reg == 0 {
                Cpu { b: (value / 256) as u8, c: (value % 256) as u8, ..*old(self) }
            } else if reg == 1 {
                Cpu { d: (value / 256) as u8, e: (value % 256) as u8, ..*old(self) }
            } else if reg == 2 {
                Cpu { h: (value / 256) as u8, l: (value % 256) as u8, ..*old(self) }
            } else {
                Cpu { stack_pointer: value, ..*old(self) }
            }),
    {
        match reg {
            0 => self.set_bc(value),
            1 => self.set_de(value),
            2 => self.set_hl(value),
            _ => self.stack_pointer = value,
        }
    }

    /// The value of stack-group slot `reg`: BC, DE, HL or AF.
    pub open spec fn spec_r16stk_read(&self, reg: u8) -> u16 {
        if reg == 0 {
            self.spec_bc()
        } else if reg == 1 {
            self.spec_de()
        } else if reg == 2 {
            self.spec_hl()
        } else {
            self.spec_af()
        }
    }

    pub fn r16stk_read(&self, reg: u8) -> (r: u16)
        requires
            reg < 4,
        ensures
            r == self.spec_r16stk_read(reg),
    {
        match reg {
            0 => self.get_bc(),
            1 => self.get_de(),
            2 => self.get_hl(),
            _ => self.get_af(),
        }
    }

    /// Writing the stack-group slot; an AF write masks the flag low nibble.
    pub fn r16stk_write(&mut self, reg: u8, value: u16)
        requires
            reg < 4,
        ensures
            *final(self) == (if reg == 0 {
                Cpu { b: (value / 256) as u8, c: (value % 256) as u8, ..*old(self) }
            } else if reg == 1 {
                Cpu { d: (value / 256) as u8, e: (value % 256) as u8, ..*old(self) }
            } else if reg == 2 {
                Cpu { h: (value / 256) as u8, l: (value % 256) as u8, ..*old(self) }
            } else {
                Cpu {
                    a: (value / 256) as u8,
                    flags: CpuFlag::spec_from_bits((value % 256) as u8),
                    ..*old(self)
                }
            }),
    {
        match reg {
            0 => self.set_bc(value),
            1 => self.set_de(value),
            2 => self.set_hl(value),
            _ => self.set_af(value),
        }
    }

    /// A read through the indirect group: [BC], [DE], or [HL] with a
    /// post-increment or post-decrement of HL.
    pub fn r16mem_read(&mut self, reg: u8) -> (r: u8)
        requires
            old(self).wf(),
            reg < 4,
        ensures
            final(self).wf(),
            reg == 0 ==> *final(self) == *old(self) && r == spec_bus_read(
                &old(self).bus,
                old(self).spec_bc(),
            ),
            reg == 1 ==> *final(self) == *old(self) && r == spec_bus_read(
                &old(self).bus,
                old(self).spec_de(),
            ),
            reg >= 2 ==> ({
                let hl = old(self).spec_hl();
                let nhl: int = if reg == 2 {
                    (hl + 1) % 0x10000
                } else {
                    (hl + 0xffff) % 0x10000
                };
                r == spec_bus_read(&old(self).bus, hl) && *final(self) == (Cpu {
                    h: (nhl / 256) as u8,
                    l: (nhl % 256) as u8,
                    ..*old(self)
                })
            }),
    {
        match reg {
            0 => {
                let addr = self.get_bc();
                self.bus.mem_read(addr)
            },
            1 => {
                let addr = self.get_de();
                self.bus.mem_read(addr)
            },
            2 => {
                let addr = self.get_hl();
                let val = self.bus.mem_read(addr);
                self.set_hl(addr.wrapping_add(1));
                val
            },
            _ => {
                let addr = self.get_hl();
                let val = self.bus.mem_read(addr);
                self.set_hl(addr.wrapping_sub(1));
                val
            },
        }
    }

    /// A write through the indirect group, with the HL post-adjustments.
    #[verifier::rlimit(100)]
    #[verifier::spinoff_prover]
    pub fn r16mem_write(&mut self, reg: u8, value: u8)
        requires
            old(self).wf(),
            reg < 4,
        ensures
            final(self).wf(),
            reg == 0 ==> *final(self) == (Cpu { bus: final(self).bus, ..*old(self) })
                && spec_bus_write_rel(&old(self).bus, &final(self).bus, old(self).spec_bc(), value),
            reg == 1 ==> *final(self) == (Cpu { bus: final(self).bus, ..*old(self) })
                && spec_bus_write_rel(&old(self).bus, &final(self).bus, old(self).spec_de(), value),
            reg >= 2 ==> ({
                let hl = old(self).spec_hl();
                let nhl: int = if reg == 2 {
                    (hl + 1) % 0x10000
                } else {
                    (hl + 0xffff) % 0x10000
                };
                &&& *final(self) == (Cpu {
                    h: (nhl / 256) as u8,
                    l: (nhl % 256) as u8,
                    bus: final(self).bus,
                    ..*old(self)
                })
                &&& spec_bus_write_rel(&old(self).bus, &final(self).bus, hl, value)
            }),
    {
        match reg {
            0 => {
                let addr = self.get_bc();
                self.bus.mem_write(addr, value);
            },
            1 => {
                let addr = self.get_de();
                self.bus.mem_write(addr, value);
            },
            2 => {
                let addr = self.get_hl();
                self.bus.mem_write(addr, value);
                self.set_hl(addr.wrapping_add(1));
            },
            _ => {
                let addr = self.get_hl();
                self.bus.mem_write(addr, value);
                self.set_hl(addr.wrapping_sub(1));
            },
        }
    }

    /// The reset vector a three-bit target selects: eight times the target.
    pub fn tgt3_read(&self, reg: u8) -> (r: u16)
        requires
            reg < 8,
        ensures
            r == reg * 8,
    {
        reg as u16 * 8
    }

    /// Whether branch condition `i` holds: not-zero, zero, no-carry, carry.
    fn cond_met(&self, i: u8) -> (r: bool)
        ensures
            r == spec_cond(i, self.flags),
    {
        if i == 0 {
            !self.flags.zero
        } else if i == 1 {
            self.flags.zero
        } else if i == 2 {
            !self.flags.carry
        } else {
            self.flags.carry
        }
    }

    /// Services pending interrupts before a fetch, per the truth table over
    /// (halted, IME, any-pending).
    #[verifier::rlimit(100)]
    #[verifier::spinoff_prover]
    pub fn interrupt_check(&mut self)
        requires
            old(self).wf(),
        ensures
            final(self).wf(),
            spec_interrupt_check_rel(old(self), final(self)),
    {
        let vblank_interrupt = self.bus.vblank_flag() && self.bus.vblank_enabled();
        let lcd_interrupt = self.bus.lcd_flag() && self.bus.lcd_enabled();
        let timer_interrupt = self.bus.timer_flag() && self.bus.timer_enabled();
        let serial_interrupt = self.bus.serial_flag() && self.bus.serial_enabled();
        let joypad_interrupt = self.bus.joypad_flag() && self.bus.joypad_enabled();
        let interrupt_pending = vblank_interrupt || lcd_interrupt || timer_interrupt
            || serial_interrupt || joypad_interrupt;
        if !interrupt_pending {
            return ;
        }
        if !self.halted && !self.ime {
            return ;
        }
        if self.halted && !self.ime {
            self.halted = false;
            return ;
        }
        self.ime = false;
        self.halted = false;
        self.push_u16_to_stack(self.program_counter);
        let ghost mid = self.bus;
        if vblank_interrupt {
            self.bus.interrupt_flag.vblank = false;
            self.program_counter = 0x0040;
        } else if lcd_interrupt {
            self.bus.interrupt_flag.lcd = false;
            self.program_counter = 0x0048;
        } else if timer_interrupt {
            self.bus.interrupt_flag.timer = false;
            self.program_counter = 0x0050;
        } else if serial_interrupt {
            self.bus.interrupt_flag.serial = false;
            self.program_counter = 0x0058;
        } else {
            self.bus.interrupt_flag.joypad = false;
            self.program_counter = 0x0060;
        }
        proof {
            assert(spec_pushed_rel(
                &old(self).bus,
                &mid,
                old(self).stack_pointer,
                old(self).program_counter,
            ));
        }
    }

    /// What one 8-bit load does: the moved byte lands in its register slot
    /// or memory cell, the indirect HL forms post-adjust HL, and nothing
    /// else of the processor changes.
    pub open spec fn spec_load8_rel(o: &Cpu, n: &Cpu, byte: u8) -> bool {
        &&& n.flags == o.flags
        &&& n.halted == o.halted
        &&& n.prefixed_mode == o.prefixed_mode
        &&& n.ime == o.ime
        &&& n.program_counter == o.program_counter
        &&& n.stack_pointer == o.stack_pointer
        &&& (0x40 <= byte && byte <= 0x7f && byte != 0x76 ==> Cpu::spec_r8_write_rel(
            o,
            n,
            ((byte - 0x40) / 8) as u8,
            o.spec_r8_read((byte % 8) as u8),
        ))
        &&& ((byte == 0x06 || byte == 0x0e || byte == 0x16 || byte == 0x1e || byte == 0x26 || byte
            == 0x2e || byte == 0x36 || byte == 0x3e) ==> Cpu::spec_r8_write_rel(
            o,
            n,
            (byte / 8) as u8,
            o.spec_imm8(),
        ))
        &&& (byte == 0x02 ==> *n == Cpu { bus: n.bus, ..*o } && spec_bus_write_rel(
            &o.bus,
            &n.bus,
            o.spec_bc(),
            o.a,
        ))
        &&& (byte == 0x12 ==> *n == Cpu { bus: n.bus, ..*o } && spec_bus_write_rel(
            &o.bus,
            &n.bus,
            o.spec_de(),
            o.a,
        ))
        &&& (byte == 0x22 ==> ({
            let nhl = (o.spec_hl() + 1) % 0x10000;
            *n == Cpu { h: (nhl / 256) as u8, l: (nhl % 256) as u8, bus: n.bus, ..*o }
                && spec_bus_write_rel(&o.bus, &n.bus, o.spec_hl(), o.a)
        }))
        &&& (byte == 0x32 ==> ({
            let nhl = (o.spec_hl() + 0xffff) % 0x10000;
            *n == Cpu { h: (nhl / 256) as u8, l: (nhl % 256) as u8, bus: n.bus, ..*o }
                && spec_bus_write_rel(&o.bus, &n.bus, o.spec_hl(), o.a)
        }))
        &&& (byte == 0x0a ==> *n == Cpu { a: spec_bus_read(&o.bus, o.spec_bc()), ..*o })
        &&& (byte == 0x1a ==> *n == Cpu { a: spec_bus_read(&o.bus, o.spec_de()), ..*o })
        &&& (byte == 0x2a ==> ({
            let nhl = (o.spec_hl() + 1) % 0x10000;
            *n == Cpu {
                a: spec_bus_read(&o.bus, o.spec_hl()),
                h: (nhl / 256) as u8,
                l: (nhl % 256) as u8,
                ..*o
            }
        }))
        &&& (byte == 0x3a ==> ({
            let nhl = (o.spec_hl() + 0xffff) % 0x10000;
            *n == Cpu {
                a: spec_bus_read(&o.bus, o.spec_hl()),
                h: (nhl / 256) as u8,
                l: (nhl % 256) as u8,
                ..*o
            }
        }))
        &&& (byte == 0xe2 ==> *n == Cpu { bus: n.bus, ..*o } && spec_bus_write_rel(
            &o.bus,
            &n.bus,
            (0xff00 + o.c) as u16,
            o.a,
        ))
        &&& (byte == 0xf2 ==> *n == Cpu {
            a: spec_bus_read(&o.bus, (0xff00 + o.c) as u16),
            ..*o
        })
        &&& (byte == 0xe0 ==> *n == Cpu { bus: n.bus, ..*o } && spec_bus_write_rel(
            &o.bus,
            &n.bus,
            (0xff00 + o.spec_imm8()) as u16,
            o.a,
        ))
        &&& (byte == 0xf0 ==> *n == Cpu {
            a: spec_bus_read(&o.bus, (0xff00 + o.spec_imm8()) as u16),
            ..*o
        })
        &&& (byte == 0xea ==> *n == Cpu { bus: n.bus, ..*o } && spec_bus_write_rel(
            &o.bus,
            &n.bus,
            o.spec_imm16(),
            o.a,
        ))
        &&& (byte == 0xfa ==> *n == Cpu { a: spec_bus_read(&o.bus, o.spec_imm16()), ..*o })
    }

    /// The 8-bit load family: register moves, immediates, the indirect
    /// group, high-page loads and absolute loads.
    #[verifier::rlimit(100)]
    #[verifier::spinoff_prover]
    fn exec_load8(&mut self, byte: u8)
        requires
            old(self).wf(),
            spec_valid_opcode(byte),
        ensures
            final(self).wf(),
            Cpu::spec_load8_rel(old(self), final(self), byte),
    {
        match byte {
            // LD r8, r8
            0x40..=0x75 | 0x77..=0x7f => {
                let val = self.r8_read(byte % 8);
                self.r8_write((byte - 0x40) / 8, val);
            },
            // LD r8, imm8
            0x06 | 0x0e | 0x16 | 0x1e | 0x26 | 0x2e | 0x36 | 0x3e => {
                let val = self.bus.mem_read(self.program_counter.wrapping_add(1));
                self.r8_write(byte / 8, val);
            },
            // LD [r16mem], A
            0x02 | 0x12 | 0x22 | 0x32 => {
                let a = self.a;
                self.r16mem_write(byte / 16, a);
            },
            // LD A, [r16mem]
            0x0a | 0x1a | 0x2a | 0x3a => {
                let val = self.r16mem_read(byte / 16);
                self.a = val;
            },
            // LDH [C], A
            0xe2 => {
                let addr = 0xff00 + self.c as u16;
                self.bus.mem_write(addr, self.a);
            },
            // LDH A, [C]
            0xf2 => {
                let val = self.bus.mem_read(0xff00 + self.c as u16);
                self.a = val;
            },
            // LDH [imm8], A
            0xe0 => {
                let addr_lo = self.bus.mem_read(self.program_counter.wrapping_add(1));
                self.bus.mem_write(0xff00 + addr_lo as u16, self.a);
            },
            // LDH A, [imm8]
            0xf0 => {
                let addr_lo = self.bus.mem_read(self.program_counter.wrapping_add(1));
                let val = self.bus.mem_read(0xff00 + addr_lo as u16);
                self.a = val;
            },
            // LD [imm16], A
            0xea => {
                let addr = self.bus.mem_read_u16(self.program_counter.wrapping_add(1));
                self.bus.mem_write(addr, self.a);
            },
            // LD A, [imm16]
            _ => {
                let addr = self.bus.mem_read_u16(self.program_counter.wrapping_add(1));
                let val = self.bus.mem_read(addr);
                self.a = val;
            },
        }
    }

    /// What one 16-bit load or arithmetic instruction does: immediate and
    /// register moves land in the named pair, a push lowers SP by two and
    /// stores the pair, a pop raises SP by two and loads the value at the
    /// old SP (into AF with the flag low nibble discarded), and the 16-bit
    /// additions set their documented flags.
    pub open spec fn spec_load16_rel(o: &Cpu, n: &Cpu, byte: u8) -> bool {
        &&& n.halted == o.halted
        &&& n.prefixed_mode == o.prefixed_mode
        &&& n.ime == o.ime
        &&& n.program_counter == o.program_counter
        &&& (byte == 0x01 ==> ({
            let v = o.spec_imm16();
            *n == Cpu { b: (v / 256) as u8, c: (v % 256) as u8, ..*o }
        }))
        &&& (byte == 0x11 ==> ({
            let v = o.spec_imm16();
            *n == Cpu { d: (v / 256) as u8, e: (v % 256) as u8, ..*o }
        }))
        &&& (byte == 0x21 ==> ({
            let v = o.spec_imm16();
            *n == Cpu { h: (v / 256) as u8, l: (v % 256) as u8, ..*o }
        }))
        &&& (byte == 0x31 ==> *n == Cpu { stack_pointer: o.spec_imm16(), ..*o })
        &&& (byte == 0x08 ==> *n == Cpu { bus: n.bus, ..*o } && (exists|m: Bus|
            spec_bus_write_rel(&o.bus, &m, o.spec_imm16(), (o.stack_pointer % 256) as u8) && m.wf()
                && spec_bus_write_rel(
                &m,
                &n.bus,
                ((o.spec_imm16() + 1) % 0x10000) as u16,
                (o.stack_pointer / 256) as u8,
            )))
        &&& (byte == 0x03 ==> ({
            let v = (o.spec_bc() + 1) % 0x10000;
            *n == Cpu { b: (v / 256) as u8, c: (v % 256) as u8, ..*o }
        }))
        &&& (byte == 0x13 ==> ({
            let v = (o.spec_de() + 1) % 0x10000;
            *n == Cpu { d: (v / 256) as u8, e: (v % 256) as u8, ..*o }
        }))
        &&& (byte == 0x23 ==> ({
            let v = (o.spec_hl() + 1) % 0x10000;
            *n == Cpu { h: (v / 256) as u8, l: (v % 256) as u8, ..*o }
        }))
        &&& (byte == 0x33 ==> *n == Cpu {
            stack_pointer: ((o.stack_pointer + 1) % 0x10000) as u16,
            ..*o
        })
        &&& (byte == 0x0b ==> ({
            let v = (o.spec_bc() + 0xffff) % 0x10000;
            *n == Cpu { b: (v / 256) as u8, c: (v % 256) as u8, ..*o }
        }))
        &&& (byte == 0x1b ==> ({
            let v = (o.spec_de() + 0xffff) % 0x10000;
            *n == Cpu { d: (v / 256) as u8, e: (v % 256) as u8, ..*o }
        }))
        &&& (byte == 0x2b ==> ({
            let v = (o.spec_hl() + 0xffff) % 0x10000;
            *n == Cpu { h: (v / 256) as u8, l: (v % 256) as u8, ..*o }
        }))
        &&& (byte == 0x3b ==> *n == Cpu {
            stack_pointer: ((o.stack_pointer + 0xffff) % 0x10000) as u16,
            ..*o
        })
        &&& ((byte == 0x09 || byte == 0x19 || byte == 0x29 || byte == 0x39) ==> ({
            let s = alu::spec_add16(o.spec_hl(), o.spec_r16_read((byte / 16) as u8), o.flags);
            *n == Cpu { h: (s.0 / 256) as u8, l: (s.0 % 256) as u8, flags: s.1, ..*o }
        }))
        &&& (byte == 0xc1 ==> ({
            let v = spec_bus_read16(&o.bus, o.stack_pointer);
            *n == Cpu {
                b: (v / 256) as u8,
                c: (v % 256) as u8,
                stack_pointer: ((o.stack_pointer + 2) % 0x10000) as u16,
                ..*o
            }
        }))
        &&& (byte == 0xd1 ==> ({
            let v = spec_bus_read16(&o.bus, o.stack_pointer);
            *n == Cpu {
                d: (v / 256) as u8,
                e: (v % 256) as u8,
                stack_pointer: ((o.stack_pointer + 2) % 0x10000) as u16,
                ..*o
            }
        }))
        &&& (byte == 0xe1 ==> ({
            let v = spec_bus_read16(&o.bus, o.stack_pointer);
            *n == Cpu {
                h: (v / 256) as u8,
                l: (v % 256) as u8,
                stack_pointer: ((o.stack_pointer + 2) % 0x10000) as u16,
                ..*o
            }
        }))
        &&& (byte == 0xf1 ==> ({
            let v = spec_bus_read16(&o.bus, o.stack_pointer);
            *n == Cpu {
                a: (v / 256) as u8,
                flags: CpuFlag::spec_from_bits((v % 256) as u8),
                stack_pointer: ((o.stack_pointer + 2) % 0x10000) as u16,
                ..*o
            }
        }))
        &&& ((byte == 0xc5 || byte == 0xd5 || byte == 0xe5 || byte == 0xf5) ==> *n == Cpu {
            stack_pointer: ((o.stack_pointer + 0xfffe) % 0x10000) as u16,
            bus: n.bus,
            ..*o
        } && spec_pushed_rel(
            &o.bus,
            &n.bus,
            o.stack_pointer,
            o.spec_r16stk_read(((byte - 0xc0) / 16) as u8),
        ))
        &&& (byte == 0xf8 ==> ({
            let s = alu::spec_add_sp_e8(o.stack_pointer, o.spec_imm8());
            *n == Cpu { h: (s.0 / 256) as u8, l: (s.0 % 256) as u8, flags: s.1, ..*o }
        }))
        &&& (byte == 0xe8 ==> ({
            let s = alu::spec_add_sp_e8(o.stack_pointer, o.spec_imm8());
            *n == Cpu { stack_pointer: s.0, flags: s.1, ..*o }
        }))
        &&& (byte == 0xf9 ==> *n == Cpu { stack_pointer: o.spec_hl(), ..*o })
    }

    /// The 16-bit load and arithmetic family: immediate loads, the stack
    /// pointer store, pushes and pops, the pointer adjustments, and the
    /// 16-bit additions.
    fn exec_load16(&mut self, byte: u8)
        requires
            old(self).wf(),
            spec_is_load16(byte),
        ensures
            final(self).wf(),
            Cpu::spec_load16_rel(old(self), final(self), byte),
    {
        match byte {
            0x01 | 0x11 | 0x21 | 0x31 | 0x08 => self.exec_load16_imm(byte),
            0x03 | 0x13 | 0x23 | 0x33 | 0x0b | 0x1b | 0x2b | 0x3b | 0x09 | 0x19 | 0x29 | 0x39 => {
                self.exec_r16_arith(byte)
            },
            _ => self.exec_stack16(byte),
        }
    }

    /// The immediate 16-bit loads and the stack-pointer store.
    #[verifier::rlimit(100)]
    #[verifier::spinoff_prover]
    fn exec_load16_imm(&mut self, byte: u8)
        requires
            old(self).wf(),
            byte == 0x01 || byte == 0x11 || byte == 0x21 || byte == 0x31 || byte == 0x08,
        ensures
            final(self).wf(),
            Cpu::spec_load16_rel(old(self), final(self), byte),
    {
        let val = self.bus.mem_read_u16(self.program_counter.wrapping_add(1));
        if byte == 0x08 {
            let sp = self.stack_pointer;
            self.bus.mem_write_u16(val, sp);
        } else {
            self.r16_write(byte / 16, val);
        }
    }

    /// The 16-bit increments, decrements and HL additions.
    fn exec_r16_arith(&mut self, byte: u8)
        requires
            old(self).wf(),
            byte == 0x03 || byte == 0x13 || byte == 0x23 || byte == 0x33 || byte == 0x0b || byte
                == 0x1b || byte == 0x2b || byte == 0x3b || byte == 0x09 || byte == 0x19 || byte
                == 0x29 || byte == 0x39,
        ensures
            final(self).wf(),
            Cpu::spec_load16_rel(old(self), final(self), byte),
    {
        if byte % 16 == 3 || byte % 16 == 0x0b {
            self.exec_r16_incdec(byte);
        } else {
            let arg = self.r16_read(byte / 16);
            let hl = self.get_hl();
            let (sum, f) = alu::add16(hl, arg, self.flags);
            self.set_hl(sum);
            self.flags = f;
        }
    }

    /// The 16-bit increments and decrements.
    #[verifier::rlimit(100)]
    #[verifier::spinoff_prover]
    fn exec_r16_incdec(&mut self, byte: u8)
        requires
            old(self).wf(),
            byte == 0x03 || byte == 0x13 || byte == 0x23 || byte == 0x33 || byte == 0x0b || byte
                == 0x1b || byte == 0x2b || byte == 0x3b,
        ensures
            final(self).wf(),
            Cpu::spec_load16_rel(old(self), final(self), byte),
    {
        if byte % 16 == 3 {
            self.exec_r16_inc(byte);
        } else {
            self.exec_r16_dec(byte);
        }
    }

    /// The 16-bit increments.
    #[verifier::rlimit(100)]
    #[verifier::spinoff_prover]
    fn exec_r16_inc(&mut self, byte: u8)
        requires
            old(self).wf(),
            byte == 0x03 || byte == 0x13 || byte == 0x23 || byte == 0x33,
        ensures
            final(self).wf(),
            byte == 0x03 ==> ({
                let v = (old(self).spec_bc() + 1) % 0x10000;
                *final(self) == Cpu { b: (v / 256) as u8, c: (v % 256) as u8, ..*old(self) }
            }),
            byte == 0x13 ==> ({
                let v = (old(self).spec_de() + 1) % 0x10000;
                *final(self) == Cpu { d: (v / 256) as u8, e: (v % 256) as u8, ..*old(self) }
            }),
            byte == 0x23 ==> ({
                let v = (old(self).spec_hl() + 1) % 0x10000;
                *final(self) == Cpu { h: (v / 256) as u8, l: (v % 256) as u8, ..*old(self) }
            }),
            byte == 0x33 ==> *final(self) == (Cpu {
                stack_pointer: ((old(self).stack_pointer + 1) % 0x10000) as u16,
                ..*old(self)
            }),
    {
        if byte == 0x03 {
            let v = self.get_bc().wrapping_add(1);
            self.set_bc(v);
        } else if byte == 0x13 {
            let v = self.get_de().wrapping_add(1);
            self.set_de(v);
        } else if byte == 0x23 {
            let v = self.get_hl().wrapping_add(1);
            self.set_hl(v);
        } else {
            self.stack_pointer = self.stack_pointer.wrapping_add(1);
        }
    }

    /// The 16-bit decrements.
    #[verifier::rlimit(100)]
    #[verifier::spinoff_prover]
    fn exec_r16_dec(&mut self, byte: u8)
        requires
            old(self).wf(),
            byte == 0x0b || byte == 0x1b || byte == 0x2b || byte == 0x3b,
        ensures
            final(self).wf(),
            byte == 0x0b ==> ({
                let v = (old(self).spec_bc() + 0xffff) % 0x10000;
                *final(self) == Cpu { b: (v / 256) as u8, c: (v % 256) as u8, ..*old(self) }
            }),
            byte == 0x1b ==> ({
                let v = (old(self).spec_de() + 0xffff) % 0x10000;
                *final(self) == Cpu { d: (v / 256) as u8, e: (v % 256) as u8, ..*old(self) }
            }),
            byte == 0x2b ==> ({
                let v = (old(self).spec_hl() + 0xffff) % 0x10000;
                *final(self) == Cpu { h: (v / 256) as u8, l: (v % 256) as u8, ..*old(self) }
            }),
            byte == 0x3b ==> *final(self) == (Cpu {
                stack_pointer: ((old(self).stack_pointer + 0xffff) % 0x10000) as u16,
                ..*old(self)
            }),
    {
        if byte == 0x0b {
            let v = self.get_bc().wrapping_sub(1);
            proof {
                assert(v == (old(self).spec_bc() + 0xffff) % 0x10000);
            }
            self.set_bc(v);
        } else if byte == 0x1b {
            let v = self.get_de().wrapping_sub(1);
            proof {
                assert(v == (old(self).spec_de() + 0xffff) % 0x10000);
            }
            self.set_de(v);
        } else if byte == 0x2b {
            let v = self.get_hl().wrapping_sub(1);
            proof {
                assert(v == (old(self).spec_hl() + 0xffff) % 0x10000);
            }
            self.set_hl(v);
        } else {
            self.stack_pointer = self.stack_pointer.wrapping_sub(1);
        }
    }

    /// Pushes, pops and the stack-pointer moves.
    fn exec_stack16(&mut self, byte: u8)
        requires
            old(self).wf(),
            byte == 0xc1 || byte == 0xd1 || byte == 0xe1 || byte == 0xf1 || byte == 0xc5 || byte
                == 0xd5 || byte == 0xe5 || byte == 0xf5 || byte == 0xf8 || byte == 0xe8 || byte
                == 0xf9,
        ensures
            final(self).wf(),
            Cpu::spec_load16_rel(old(self), final(self), byte),
    {
        if byte == 0xc1 || byte == 0xd1 || byte == 0xe1 || byte == 0xf1 {
            self.exec_pop(byte);
        } else if byte == 0xc5 || byte == 0xd5 || byte == 0xe5 || byte == 0xf5 {
            self.exec_push(byte);
        } else {
            self.exec_sp_adjust(byte);
        }
    }

    /// The stack-pointer arithmetic moves: HL from SP plus an offset,
    /// SP plus an offset, and SP from HL.
    #[verifier::rlimit(100)]
    #[verifier::spinoff_prover]
    fn exec_sp_adjust(&mut self, byte: u8)
        requires
            old(self).wf(),
            byte == 0xf8 || byte == 0xe8 || byte == 0xf9,
        ensures
            final(self).wf(),
            Cpu::spec_load16_rel(old(self), final(self), byte),
    {
        if byte == 0xf8 {
            let offset = self.bus.mem_read(self.program_counter.wrapping_add(1));
            let (sum, f) = alu::add_sp_e8(self.stack_pointer, offset);
            self.set_hl(sum);
            self.flags = f;
        } else if byte == 0xe8 {
            let offset = self.bus.mem_read(self.program_counter.wrapping_add(1));
            let (sum, f) = alu::add_sp_e8(self.stack_pointer, offset);
            self.stack_pointer = sum;
            self.flags = f;
        } else {
            self.stack_pointer = self.get_hl();
        }
    }

    /// A pop raises SP by two and loads the 16-bit value at the old SP.
    #[verifier::rlimit(100)]
    #[verifier::spinoff_prover]
    fn exec_pop(&mut self, byte: u8)
        requires
            old(self).wf(),
            byte == 0xc1 || byte == 0xd1 || byte == 0xe1 || byte == 0xf1,
        ensures
            final(self).wf(),
            Cpu::spec_load16_rel(old(self), final(self), byte),
    {
        let val = self.pop_u16_from_stack();
        self.r16stk_write((byte - 0xc0) / 16, val);
    }

    /// A push lowers SP by two and stores the named pair on the stack.
    #[verifier::rlimit(100)]
    #[verifier::spinoff_prover]
    fn exec_push(&mut self, byte: u8)
        requires
            old(self).wf(),
            byte == 0xc5 || byte == 0xd5 || byte == 0xe5 || byte == 0xf5,
        ensures
            final(self).wf(),
            Cpu::spec_load16_rel(old(self), final(self), byte),
    {
        let val = self.r16stk_read((byte - 0xc0) / 16);
        self.push_u16_to_stack(val);
    }

    /// What one 8-bit arithmetic or logic instruction does to the
    /// accumulator and the flags; the increments and decrements adjust their
    /// register slot or the cell at HL.
    pub open spec fn spec_alu8_rel(o: &Cpu, n: &Cpu, byte: u8) -> bool {
        &&& n.halted == o.halted
        &&& n.prefixed_mode == o.prefixed_mode
        &&& n.ime == o.ime
        &&& n.program_counter == o.program_counter
        &&& n.stack_pointer == o.stack_pointer
        &&& (byte != 0x34 && byte != 0x35 ==> n.bus == o.bus)
        &&& (0x80 <= byte && byte <= 0x8f ==> (n.a, n.flags) == alu::spec_add8(
            o.a,
            o.spec_r8_read((byte % 8) as u8),
            byte >= 0x88 && o.flags.carry,
        ))
        &&& (0x90 <= byte && byte <= 0x9f ==> (n.a, n.flags) == alu::spec_sub8(
            o.a,
            o.spec_r8_read((byte % 8) as u8),
            byte >= 0x98 && o.flags.carry,
        ))
        &&& (0xa0 <= byte && byte <= 0xa7 ==> (n.a, n.flags) == alu::spec_and8(
            o.a,
            o.spec_r8_read((byte % 8) as u8),
        ))
        &&& (0xa8 <= byte && byte <= 0xaf ==> (n.a, n.flags) == alu::spec_xor8(
            o.a,
            o.spec_r8_read((byte % 8) as u8),
        ))
        &&& (0xb0 <= byte && byte <= 0xb7 ==> (n.a, n.flags) == alu::spec_or8(
            o.a,
            o.spec_r8_read((byte % 8) as u8),
        ))
        &&& (0xb8 <= byte && byte <= 0xbf ==> n.a == o.a && n.flags == alu::spec_sub8(
            o.a,
            o.spec_r8_read((byte % 8) as u8),
            false,
        ).1)
        &&& (byte == 0xc6 || byte == 0xce ==> (n.a, n.flags) == alu::spec_add8(
            o.a,
            o.spec_imm8(),
            byte == 0xce && o.flags.carry,
        ))
        &&& (byte == 0xd6 || byte == 0xde ==> (n.a, n.flags) == alu::spec_sub8(
            o.a,
            o.spec_imm8(),
            byte == 0xde && o.flags.carry,
        ))
        &&& (byte == 0xe6 ==> (n.a, n.flags) == alu::spec_and8(o.a, o.spec_imm8()))
        &&& (byte == 0xee ==> (n.a, n.flags) == alu::spec_xor8(o.a, o.spec_imm8()))
        &&& (byte == 0xf6 ==> (n.a, n.flags) == alu::spec_or8(o.a, o.spec_imm8()))
        &&& (byte == 0xfe ==> n.a == o.a && n.flags == alu::spec_sub8(
            o.a,
            o.spec_imm8(),
            false,
        ).1)
        &&& (byte == 0x27 ==> (n.a, n.flags) == alu::spec_daa(o.a, o.flags))
        &&& (byte == 0x2f ==> n.a == 255 - o.a && n.flags == (CpuFlag {
            subtraction: true,
            half_carry: true,
            ..o.flags
        }))
        &&& (byte == 0x37 ==> n.flags == (CpuFlag {
            subtraction: false,
            half_carry: false,
            carry: true,
            ..o.flags
        }))
        &&& (byte == 0x3f ==> n.flags == (CpuFlag {
            subtraction: false,
            half_carry: false,
            carry: !o.flags.carry,
            ..o.flags
        }))
        &&& (byte == 0x07 ==> n.a == alu::spec_rlc(o.a).0 && n.flags == (CpuFlag {
            zero: false,
            ..alu::spec_rlc(o.a).1
        }))
        &&& (byte == 0x0f ==> n.a == alu::spec_rrc(o.a).0 && n.flags == (CpuFlag {
            zero: false,
            ..alu::spec_rrc(o.a).1
        }))
        &&& (byte == 0x17 ==> n.a == alu::spec_rl(o.a, o.flags.carry).0 && n.flags == (CpuFlag {
            zero: false,
            ..alu::spec_rl(o.a, o.flags.carry).1
        }))
        &&& (byte == 0x1f ==> n.a == alu::spec_rr(o.a, o.flags.carry).0 && n.flags == (CpuFlag {
            zero: false,
            ..alu::spec_rr(o.a, o.flags.carry).1
        }))
        &&& ((byte >= 0x80 || byte == 0x07 || byte == 0x0f || byte == 0x17 || byte == 0x1f || byte
            == 0x27 || byte == 0x2f || byte == 0x37 || byte == 0x3f) ==> *n == Cpu {
            a: n.a,
            flags: n.flags,
            ..*o
        })
        &&& ((byte == 0x04 || byte == 0x0c || byte == 0x14 || byte == 0x1c || byte == 0x24 || byte
            == 0x2c || byte == 0x34 || byte == 0x3c) ==> ({
            let s = alu::spec_inc8(o.spec_r8_read((byte / 8) as u8), o.flags);
            Cpu::spec_r8_write_rel(&(Cpu { flags: s.1, ..*o }), n, (byte / 8) as u8, s.0)
        }))
        &&& ((byte == 0x05 || byte == 0x0d || byte == 0x15 || byte == 0x1d || byte == 0x25 || byte
            == 0x2d || byte == 0x35 || byte == 0x3d) ==> ({
            let s = alu::spec_dec8(o.spec_r8_read((byte / 8) as u8), o.flags);
            Cpu::spec_r8_write_rel(&(Cpu { flags: s.1, ..*o }), n, (byte / 8) as u8, s.0)
        }))
    }

    /// The 8-bit arithmetic and logic family, including the accumulator
    /// rotations, decimal adjust and the carry-flag operations.
    fn exec_alu8(&mut self, byte: u8)
        requires
            old(self).wf(),
            spec_is_alu8(byte),
        ensures
            final(self).wf(),
            Cpu::spec_alu8_rel(old(self), final(self), byte),
    {
        match byte {
            0x80..=0xbf => self.exec_alu8_reg(byte),
            0xc6 | 0xce | 0xd6 | 0xde | 0xe6 | 0xee | 0xf6 | 0xfe => self.exec_alu8_imm(byte),
            0x04 | 0x0c | 0x14 | 0x1c | 0x24 | 0x2c | 0x34 | 0x3c | 0x05 | 0x0d | 0x15 | 0x1d
                | 0x25 | 0x2d | 0x35 | 0x3d => self.exec_alu8_incdec(byte),
            _ => self.exec_alu8_acc(byte),
        }
    }

    /// The register-operand arithmetic block: ADD/ADC/SUB/SBC/AND/XOR/OR/CP
    /// of A with an 8-bit register slot.
    #[verifier::rlimit(100)]
    #[verifier::spinoff_prover]
    fn exec_alu8_reg(&mut self, byte: u8)
        requires
            old(self).wf(),
            0x80 <= byte <= 0xbf,
        ensures
            final(self).wf(),
            Cpu::spec_alu8_rel(old(self), final(self), byte),
    {
        let arg = self.r8_read(byte % 8);
        if byte < 0x90 {
            let cin = byte >= 0x88 && self.flags.carry;
            let (v, f) = alu::add8(self.a, arg, cin);
            self.a = v;
            self.flags = f;
        } else if byte < 0xa0 {
            let cin = byte >= 0x98 && self.flags.carry;
            let (v, f) = alu::sub8(self.a, arg, cin);
            self.a = v;
            self.flags = f;
        } else if byte < 0xa8 {
            let (v, f) = alu::and8(self.a, arg);
            self.a = v;
            self.flags = f;
        } else if byte < 0xb0 {
            let (v, f) = alu::xor8(self.a, arg);
            self.a = v;
            self.flags = f;
        } else if byte < 0xb8 {
            let (v, f) = alu::or8(self.a, arg);
            self.a = v;
            self.flags = f;
        } else {
            let (_v, f) = alu::sub8(self.a, arg, false);
            self.flags = f;
        }
    }

    /// The immediate-operand arithmetic block.
    #[verifier::rlimit(100)]
    #[verifier::spinoff_prover]
    fn exec_alu8_imm(&mut self, byte: u8)
        requires
            old(self).wf(),
            byte == 0xc6 || byte == 0xce || byte == 0xd6 || byte == 0xde || byte == 0xe6 || byte
                == 0xee || byte == 0xf6 || byte == 0xfe,
        ensures
            final(self).wf(),
            Cpu::spec_alu8_rel(old(self), final(self), byte),
    {
        let arg = self.bus.mem_read(self.program_counter.wrapping_add(1));
        if byte == 0xc6 || byte == 0xce {
            let cin = byte == 0xce && self.flags.carry;
            let (v, f) = alu::add8(self.a, arg, cin);
            self.a = v;
            self.flags = f;
        } else if byte == 0xd6 || byte == 0xde {
            let cin = byte == 0xde && self.flags.carry;
            let (v, f) = alu::sub8(self.a, arg, cin);
            self.a = v;
            self.flags = f;
        } else if byte == 0xe6 {
            let (v, f) = alu::and8(self.a, arg);
            self.a = v;
            self.flags = f;
        } else if byte == 0xee {
            let (v, f) = alu::xor8(self.a, arg);
            self.a = v;
            self.flags = f;
        } else if byte == 0xf6 {
            let (v, f) = alu::or8(self.a, arg);
            self.a = v;
            self.flags = f;
        } else {
            let (_v, f) = alu::sub8(self.a, arg, false);
            self.flags = f;
        }
    }

    /// The 8-bit increments and decrements, including the cell at HL.
    #[verifier::rlimit(100)]
    #[verifier::spinoff_prover]
    fn exec_alu8_incdec(&mut self, byte: u8)
        requires
            old(self).wf(),
            byte == 0x04 || byte == 0x0c || byte == 0x14 || byte == 0x1c || byte == 0x24 || byte
                == 0x2c || byte == 0x34 || byte == 0x3c || byte == 0x05 || byte == 0x0d || byte
                == 0x15 || byte == 0x1d || byte == 0x25 || byte == 0x2d || byte == 0x35 || byte
                == 0x3d,
        ensures
            final(self).wf(),
            Cpu::spec_alu8_rel(old(self), final(self), byte),
    {
        let val = self.r8_read(byte / 8);
        if byte % 8 == 4 {
            let (v, f) = alu::inc8(val, self.flags);
            self.r8_write(byte / 8, v);
            self.flags = f;
        } else {
            let (v, f) = alu::dec8(val, self.flags);
            self.r8_write(byte / 8, v);
            self.flags = f;
        }
    }

    /// The accumulator-only block: DAA, CPL, SCF, CCF and the short
    /// rotations.
    #[verifier::rlimit(100)]
    #[verifier::spinoff_prover]
    fn exec_alu8_acc(&mut self, byte: u8)
        requires
            old(self).wf(),
            byte == 0x27 || byte == 0x2f || byte == 0x37 || byte == 0x3f || byte == 0x07 || byte
                == 0x0f || byte == 0x17 || byte == 0x1f,
        ensures
            final(self).wf(),
            Cpu::spec_alu8_rel(old(self), final(self), byte),
    {
        if byte == 0x27 {
            let (v, f) = alu::daa(self.a, self.flags);
            self.a = v;
            self.flags = f;
        } else if byte == 0x2f {
            self.a = 255 - self.a;
            self.flags.subtraction = true;
            self.flags.half_carry = true;
        } else if byte == 0x37 {
            self.flags.subtraction = false;
            self.flags.half_carry = false;
            self.flags.carry = true;
        } else if byte == 0x3f {
            self.flags.subtraction = false;
            self.flags.half_carry = false;
            self.flags.carry = !self.flags.carry;
        } else if byte == 0x07 {
            let (v, f) = alu::rlc(self.a);
            self.a = v;
            self.flags = CpuFlag { zero: false, ..f };
        } else if byte == 0x0f {
            let (v, f) = alu::rrc(self.a);
            self.a = v;
            self.flags = CpuFlag { zero: false, ..f };
        } else if byte == 0x17 {
            let (v, f) = alu::rl(self.a, self.flags.carry);
            self.a = v;
            self.flags = CpuFlag { zero: false, ..f };
        } else {
            let (v, f) = alu::rr(self.a, self.flags.carry);
            self.a = v;
            self.flags = CpuFlag { zero: false, ..f };
        }
    }

    /// The control family: jumps, calls, returns, resets, halt and the
    /// interrupt-enable switches. The result is the extra M-cycles a taken
    /// branch costs.
    /// What one control instruction does: where the program counter moves
    /// (stated relative to the length advance the fetch adds afterwards),
    /// what a call or reset pushes, what a return pops, and the switch
    /// effects of HALT, DI, EI and the prefix byte. A conditional form whose
    /// condition fails changes nothing.
    pub open spec fn spec_control_rel(o: &Cpu, n: &Cpu, byte: u8) -> bool {
        let jr_target = ((o.program_counter + alu::spec_signed(o.spec_imm8()) + 0x10000)
            % 0x10000) as u16;
        let jp_target = ((o.spec_imm16() + 0xfffd) % 0x10000) as u16;
        let ret_target = ((spec_bus_read16(&o.bus, o.stack_pointer) + 0xffff) % 0x10000) as u16;
        let sp_pop = ((o.stack_pointer + 2) % 0x10000) as u16;
        let sp_push = ((o.stack_pointer + 0xfffe) % 0x10000) as u16;
        &&& n.flags == o.flags
        &&& ((byte == 0x00 || byte == 0x10) ==> *n == *o)
        &&& (byte == 0x18 ==> *n == Cpu { program_counter: jr_target, ..*o })
        &&& ((byte == 0x20 || byte == 0x28 || byte == 0x30 || byte == 0x38) ==> (if spec_cond(
            (byte / 8 % 4) as u8,
            o.flags,
        ) {
            *n == Cpu { program_counter: jr_target, ..*o }
        } else {
            *n == *o
        }))
        &&& (byte == 0x76 ==> *n == Cpu { halted: true, ..*o })
        &&& ((byte == 0xc0 || byte == 0xc8 || byte == 0xd0 || byte == 0xd8) ==> (if spec_cond(
            (byte / 8 % 4) as u8,
            o.flags,
        ) {
            *n == Cpu { program_counter: ret_target, stack_pointer: sp_pop, ..*o }
        } else {
            *n == *o
        }))
        &&& ((byte == 0xc2 || byte == 0xca || byte == 0xd2 || byte == 0xda) ==> (if spec_cond(
            (byte / 8 % 4) as u8,
            o.flags,
        ) {
            *n == Cpu { program_counter: jp_target, ..*o }
        } else {
            *n == *o
        }))
        &&& (byte == 0xc3 ==> *n == Cpu { program_counter: jp_target, ..*o })
        &&& ((byte == 0xc4 || byte == 0xcc || byte == 0xd4 || byte == 0xdc) ==> (if spec_cond(
            (byte / 8 % 4) as u8,
            o.flags,
        ) {
            *n == Cpu { program_counter: jp_target, stack_pointer: sp_push, bus: n.bus, ..*o }
                && spec_pushed_rel(
                &o.bus,
                &n.bus,
                o.stack_pointer,
                ((o.program_counter + 3) % 0x10000) as u16,
            )
        } else {
            *n == *o
        }))
        &&& (byte == 0xcd ==> *n == Cpu {
            program_counter: jp_target,
            stack_pointer: sp_push,
            bus: n.bus,
            ..*o
        } && spec_pushed_rel(
            &o.bus,
            &n.bus,
            o.stack_pointer,
            ((o.program_counter + 3) % 0x10000) as u16,
        ))
        &&& ((byte == 0xc7 || byte == 0xcf || byte == 0xd7 || byte == 0xdf || byte == 0xe7 || byte
            == 0xef || byte == 0xf7 || byte == 0xff) ==> *n == Cpu {
            program_counter: ((((byte - 0xc7) / 8) * 8 + 0xffff) % 0x10000) as u16,
            stack_pointer: sp_push,
            bus: n.bus,
            ..*o
        } && spec_pushed_rel(
            &o.bus,
            &n.bus,
            o.stack_pointer,
            ((o.program_counter + 1) % 0x10000) as u16,
        ))
        &&& (byte == 0xc9 ==> *n == Cpu {
            program_counter: ret_target,
            stack_pointer: sp_pop,
            ..*o
        })
        &&& (byte == 0xd9 ==> *n == Cpu {
            program_counter: ret_target,
            stack_pointer: sp_pop,
            ime: true,
            ..*o
        })
        &&& (byte == 0xcb ==> *n == Cpu { prefixed_mode: true, ..*o })
        &&& (byte == 0xe9 ==> *n == Cpu {
            program_counter: ((o.spec_hl() + 0xffff) % 0x10000) as u16,
            ..*o
        })
        &&& (byte == 0xf3 ==> *n == Cpu { ime: false, ..*o })
        &&& (byte == 0xfb ==> *n == Cpu { ime: true, ..*o })
    }

    /// The control family: jumps, calls, returns, resets, halt and the
    /// interrupt-enable switches. The result is the extra M-cycles a taken
    /// branch costs.
    fn exec_control(&mut self, byte: u8) -> (extra: u8)
        requires
            old(self).wf(),
            spec_is_control(byte),
        ensures
            final(self).wf(),
            extra == spec_extra_cycles(byte, old(self).flags),
            Cpu::spec_control_rel(old(self), final(self), byte),
    {
        match byte {
            0x18 | 0x20 | 0x28 | 0x30 | 0x38 | 0xc2 | 0xca | 0xd2 | 0xda | 0xc3 | 0xe9 => {
                self.exec_jump(byte)
            },
            0xc0 | 0xc8 | 0xd0 | 0xd8 | 0xc4 | 0xcc | 0xd4 | 0xdc | 0xcd | 0xc9 | 0xd9 | 0xc7
                | 0xcf | 0xd7 | 0xdf | 0xe7 | 0xef | 0xf7 | 0xff => self.exec_call_ret(byte),
            _ => self.exec_switches(byte),
        }
    }

    /// The jump instructions: relative, absolute, conditional and via HL.
    #[verifier::rlimit(100)]
    #[verifier::spinoff_prover]
    fn exec_jump(&mut self, byte: u8) -> (extra: u8)
        requires
            old(self).wf(),
            byte == 0x18 || byte == 0x20 || byte == 0x28 || byte == 0x30 || byte == 0x38 || byte
                == 0xc2 || byte == 0xca || byte == 0xd2 || byte == 0xda || byte == 0xc3 || byte
                == 0xe9,
        ensures
            final(self).wf(),
            extra == spec_extra_cycles(byte, old(self).flags),
            Cpu::spec_control_rel(old(self), final(self), byte),
    {
        if byte == 0x18 {
            let offset = self.bus.mem_read(self.program_counter.wrapping_add(1));
            self.program_counter = jump_relative(self.program_counter, offset);
            0
        } else if byte == 0x20 || byte == 0x28 || byte == 0x30 || byte == 0x38 {
            let offset = self.bus.mem_read(self.program_counter.wrapping_add(1));
            if self.cond_met(byte / 8 % 4) {
                self.program_counter = jump_relative(self.program_counter, offset);
                1
            } else {
                0
            }
        } else if byte == 0xc3 {
            let addr = self.bus.mem_read_u16(self.program_counter.wrapping_add(1));
            self.program_counter = addr.wrapping_sub(3);
            0
        } else if byte == 0xe9 {
            self.program_counter = self.get_hl().wrapping_sub(1);
            0
        } else {
            if self.cond_met(byte / 8 % 4) {
                let addr = self.bus.mem_read_u16(self.program_counter.wrapping_add(1));
                self.program_counter = addr.wrapping_sub(3);
                1
            } else {
                0
            }
        }
    }

    /// The calls, returns and resets, each moving the return address over
    /// the stack.
    fn exec_call_ret(&mut self, byte: u8) -> (extra: u8)
        requires
            old(self).wf(),
            byte == 0xc0 || byte == 0xc8 || byte == 0xd0 || byte == 0xd8 || byte == 0xc4 || byte
                == 0xcc || byte == 0xd4 || byte == 0xdc || byte == 0xcd || byte == 0xc9 || byte
                == 0xd9 || byte == 0xc7 || byte == 0xcf || byte == 0xd7 || byte == 0xdf || byte
                == 0xe7 || byte == 0xef || byte == 0xf7 || byte == 0xff,
        ensures
            final(self).wf(),
            extra == spec_extra_cycles(byte, old(self).flags),
            Cpu::spec_control_rel(old(self), final(self), byte),
    {
        if byte == 0xc0 || byte == 0xc8 || byte == 0xd0 || byte == 0xd8 || byte == 0xc9 || byte
            == 0xd9 {
            self.exec_ret(byte)
        } else {
            self.exec_call_rst(byte)
        }
    }

    /// The returns, conditional and unconditional, and the interrupt
    /// return.
    #[verifier::rlimit(100)]
    #[verifier::spinoff_prover]
    fn exec_ret(&mut self, byte: u8) -> (extra: u8)
        requires
            old(self).wf(),
            byte == 0xc0 || byte == 0xc8 || byte == 0xd0 || byte == 0xd8 || byte == 0xc9 || byte
                == 0xd9,
        ensures
            final(self).wf(),
            extra == spec_extra_cycles(byte, old(self).flags),
            Cpu::spec_control_rel(old(self), final(self), byte),
    {
        if byte == 0xc9 {
            let addr = self.pop_u16_from_stack();
            self.program_counter = addr.wrapping_sub(1);
            0
        } else if byte == 0xd9 {
            let addr = self.pop_u16_from_stack();
            self.program_counter = addr.wrapping_sub(1);
            self.ime = true;
            0
        } else {
            if self.cond_met(byte / 8 % 4) {
                let addr = self.pop_u16_from_stack();
                self.program_counter = addr.wrapping_sub(1);
                3
            } else {
                0
            }
        }
    }

    /// The calls and resets, each pushing the return address.
    #[verifier::rlimit(100)]
    #[verifier::spinoff_prover]
    fn exec_call_rst(&mut self, byte: u8) -> (extra: u8)
        requires
            old(self).wf(),
            byte == 0xc4 || byte == 0xcc || byte == 0xd4 || byte == 0xdc || byte == 0xcd || byte
                == 0xc7 || byte == 0xcf || byte == 0xd7 || byte == 0xdf || byte == 0xe7 || byte
                == 0xef || byte == 0xf7 || byte == 0xff,
        ensures
            final(self).wf(),
            extra == spec_extra_cycles(byte, old(self).flags),
            Cpu::spec_control_rel(old(self), final(self), byte),
    {
        if byte == 0xcd || byte == 0xc4 || byte == 0xcc || byte == 0xd4 || byte == 0xdc {
            self.exec_call(byte)
        } else {
            self.exec_rst(byte)
        }
    }

    /// The calls, conditional and unconditional.
    #[verifier::rlimit(100)]
    #[verifier::spinoff_prover]
    fn exec_call(&mut self, byte: u8) -> (extra: u8)
        requires
            old(self).wf(),
            byte == 0xcd || byte == 0xc4 || byte == 0xcc || byte == 0xd4 || byte == 0xdc,
        ensures
            final(self).wf(),
            extra == spec_extra_cycles(byte, old(self).flags),
            Cpu::spec_control_rel(old(self), final(self), byte),
    {
        if byte == 0xcd {
            let addr = self.bus.mem_read_u16(self.program_counter.wrapping_add(1));
            let ret = self.program_counter.wrapping_add(3);
            self.push_u16_to_stack(ret);
            self.program_counter = addr.wrapping_sub(3);
            0
        } else {
            if self.cond_met(byte / 8 % 4) {
                let addr = self.bus.mem_read_u16(self.program_counter.wrapping_add(1));
                let ret = self.program_counter.wrapping_add(3);
                self.push_u16_to_stack(ret);
                self.program_counter = addr.wrapping_sub(3);
                3
            } else {
                0
            }
        }
    }

    /// The resets: push the next address and jump to the fixed vector.
    #[verifier::rlimit(100)]
    #[verifier::spinoff_prover]
    fn exec_rst(&mut self, byte: u8) -> (extra: u8)
        requires
            old(self).wf(),
            byte == 0xc7 || byte == 0xcf || byte == 0xd7 || byte == 0xdf || byte == 0xe7 || byte
                == 0xef || byte == 0xf7 || byte == 0xff,
        ensures
            final(self).wf(),
            extra == spec_extra_cycles(byte, old(self).flags),
            Cpu::spec_control_rel(old(self), final(self), byte),
    {
        let addr = self.tgt3_read((byte - 0xc7) / 8);
        let ret = self.program_counter.wrapping_add(1);
        self.push_u16_to_stack(ret);
        self.program_counter = addr.wrapping_sub(1);
        0
    }

    /// The idle and mode-switch instructions: NOP, STOP, HALT, the prefix
    /// byte, DI and EI.
    #[verifier::rlimit(100)]
    #[verifier::spinoff_prover]
    fn exec_switches(&mut self, byte: u8) -> (extra: u8)
        requires
            old(self).wf(),
            byte == 0x00 || byte == 0x10 || byte == 0x76 || byte == 0xcb || byte == 0xf3 || byte
                == 0xfb,
        ensures
            final(self).wf(),
            extra == spec_extra_cycles(byte, old(self).flags),
            Cpu::spec_control_rel(old(self), final(self), byte),
    {
        if byte == 0x76 {
            self.halted = true;
        } else if byte == 0xcb {
            self.prefixed_mode = true;
        } else if byte == 0xf3 {
            self.ime = false;
        } else if byte == 0xfb {
            self.ime = true;
        }
        0
    }

    /// Executes one unprefixed instruction, routed by opcode family; the
    /// result is the extra M-cycles of a taken branch.
    fn execute_instruction(&mut self, byte: u8) -> (extra: u8)
        requires
            old(self).wf(),
            spec_valid_opcode(byte),
        ensures
            final(self).wf(),
            extra == spec_extra_cycles(byte, old(self).flags),
            byte == 0x76 ==> final(self).halted,
            byte == 0xcb ==> final(self).prefixed_mode,
    {
        match byte {
            0x00 | 0x10 | 0x18 | 0x20 | 0x28 | 0x30 | 0x38 | 0x76 | 0xc0 | 0xc2 | 0xc3 | 0xc4
                | 0xc7 | 0xc8 | 0xc9 | 0xca | 0xcb | 0xcc | 0xcd | 0xcf | 0xd0 | 0xd2 | 0xd4 | 0xd7
                | 0xd8 | 0xd9 | 0xda | 0xdc | 0xdf | 0xe7 | 0xe9 | 0xef | 0xf3 | 0xf7 | 0xfb
                | 0xff => self.exec_control(byte),
            0x01 | 0x03 | 0x08 | 0x09 | 0x0b | 0x11 | 0x13 | 0x19 | 0x1b | 0x21 | 0x23 | 0x29
                | 0x2b | 0x31 | 0x33 | 0x39 | 0x3b | 0xc1 | 0xc5 | 0xd1 | 0xd5 | 0xe1 | 0xe5 | 0xe8
                | 0xf1 | 0xf5 | 0xf8 | 0xf9 => {
                self.exec_load16(byte);
                0
            },
            0x04 | 0x05 | 0x07 | 0x0c | 0x0d | 0x0f | 0x14 | 0x15 | 0x17 | 0x1c | 0x1d | 0x1f
                | 0x24 | 0x25 | 0x27 | 0x2c | 0x2d | 0x2f | 0x34 | 0x35 | 0x37 | 0x3c | 0x3d | 0x3f
                | 0x80..=0xbf | 0xc6 | 0xce | 0xd6 | 0xde | 0xe6 | 0xee | 0xf6 | 0xfe => {
                self.exec_alu8(byte);
                0
            },
            _ => {
                self.exec_load8(byte);
                0
            },
        }
    }

    /// Executes one prefixed instruction: rotations, shifts, the nibble
    /// swap, and the bit test, reset and set forms.
    #[verifier::rlimit(100)]
    #[verifier::spinoff_prover]
    fn execute_prefixed(&mut self, byte: u8)
        requires
            old(self).wf(),
        ensures
            final(self).wf(),
            spec_prefixed_rel(old(self), final(self), byte),
    {
        let reg = byte % 8;
        if byte < 0x40 {
            let val = self.r8_read(reg);
            let (v, f) = if byte < 0x08 {
                alu::rlc(val)
            } else if byte < 0x10 {
                alu::rrc(val)
            } else if byte < 0x18 {
                alu::rl(val, self.flags.carry)
            } else if byte < 0x20 {
                alu::rr(val, self.flags.carry)
            } else if byte < 0x28 {
                alu::sla(val)
            } else if byte < 0x30 {
                alu::sra(val)
            } else if byte < 0x38 {
                alu::swap(val)
            } else {
                alu::srl(val)
            };
            self.r8_write(reg, v);
            self.flags = f;
        } else if byte < 0x80 {
            let val = self.r8_read(reg);
            self.flags = alu::bit_test(val, byte / 8 % 8, self.flags);
        } else if byte < 0xc0 {
            let val = self.r8_read(reg);
            let v = alu::res_bit(val, byte / 8 % 8);
            self.r8_write(reg, v);
        } else {
            let val = self.r8_read(reg);
            let v = alu::set_bit(val, byte / 8 % 8);
            self.r8_write(reg, v);
        }
    }

    /// One processor step: service interrupts, then idle one M-cycle while
    /// halted, or fetch, execute and retire one instruction, advancing the
    /// peripherals by the instruction's cost, which is returned. When no
    /// interrupt intervenes the cost of an instruction is exactly its table
    /// cycles plus the taken-branch extra, and an undefined opcode is the
    /// one fetch that fails.
    pub fn step(&mut self) -> (r: Result<u8, InvalidOpcode>)
        requires
            old(self).wf(),
        ensures
            final(self).wf(),
            ({
                let pre = *old(self);
                (!pre.halted && !(pre.ime && spec_any_pending(&pre.bus))) ==> {
                    let b = spec_bus_read(&pre.bus, pre.program_counter);
                    if pre.prefixed_mode {
                        r == Result::<u8, InvalidOpcode>::Ok(spec_prefixed_cycles(b))
                    } else if spec_valid_opcode(b) {
                        r == Result::<u8, InvalidOpcode>::Ok(
                            (spec_base_cycles(b) + spec_extra_cycles(b, pre.flags)) as u8,
                        )
                    } else {
                        r == Result::<u8, InvalidOpcode>::Err(
                            InvalidOpcode { addr: pre.program_counter, opcode: b },
                        )
                    }
                }
            }),
            ({
                let pre = *old(self);
                (pre.halted && !spec_any_pending(&pre.bus)) ==> r == Result::<
                    u8,
                    InvalidOpcode,
                >::Ok(1) && final(self).halted
            }),
    {
        self.interrupt_check();
        if self.halted {
            let fr = self.bus.tick(1);
            self.frame_ready = fr;
            return Ok(1);
        }
        if self.prefixed_mode {
            let byte = self.bus.mem_read(self.program_counter);
            let op = prefixed_entry(byte);
            self.prefixed_mode = false;
            self.execute_prefixed(byte);
            self.program_counter = self.program_counter.wrapping_add(1);
            let total = op.cycles;
            let fr = self.bus.tick(total);
            self.frame_ready = fr;
            Ok(total)
        } else {
            let byte = self.bus.mem_read(self.program_counter);
            let entry = opcode_entry(byte);
            match entry {
                None => Err(InvalidOpcode { addr: self.program_counter, opcode: byte }),
                Some(op) => {
                    let extra = self.execute_instruction(byte);
                    self.program_counter = self.program_counter.wrapping_add(op.bytes);
                    let total = op.cycles + extra;
                    let fr = self.bus.tick(total);
                    self.frame_ready = fr;
                    Ok(total)
                },
            }
        }
    }

    /// Runs instruction by instruction until the processor halts or fetches
    /// an undefined opcode, which is reported. A very large instruction
    /// budget bounds the loop against programs that never halt.
    pub fn run(&mut self) -> (r: Result<(), InvalidOpcode>)
        requires
            old(self).wf(),
        ensures
            final(self).wf(),
    {
        let mut fuel: u64 = 0xffff_ffff;
        while fuel > 0
            invariant
                self.wf(),
            decreases fuel,
        {
            fuel = fuel - 1;
            let outcome = self.step();
            match outcome {
                Err(e) => {
                    return Err(e);
                },
                Ok(_) => {},
            }
            if self.halted {
                return Ok(());
            }
        }
        Ok(())
    }
}

/// The target of a relative jump: the program counter plus the
/// sign-extended offset.
fn jump_relative(pc: u16, offset: u8) -> (r: u16)
    ensures
        r == ((pc + alu::spec_signed(offset) + 0x10000) % 0x10000) as u16,
{
    if offset < 128 {
        pc.wrapping_add(offset as u16)
    } else {
        pc.wrapping_sub(256 - offset as u16)
    }
}

} // verus!
