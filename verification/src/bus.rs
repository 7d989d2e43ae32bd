use vstd::prelude::*;

use crate::apu::{Apu, AudioSample};
use crate::cartridge::{Cartridge, Mapper};
use crate::joypad::Joypad;
use crate::ppu::{spec_lcd_enabled, DisplayStatus, Ppu, PpuMode};
use crate::render::{render_scanline, spec_render_pixel, Frame};
use crate::timer::{spec_timer_drain, spec_timer_period, Timer};

verus! {

/// The five interrupt lines, as a group of named bits: bit 0 the vertical
/// blank, bit 1 the LCD status, bit 2 the timer, bit 3 serial, bit 4 joypad.
#[derive(Clone, Copy, PartialEq, Eq, Structural, Debug)]
pub struct Interrupt {
    pub vblank: bool,
    pub lcd: bool,
    pub timer: bool,
    pub serial: bool,
    pub joypad: bool,
}

impl Interrupt {
    /// The five-bit encoding of the lines.
    pub open spec fn spec_bits(self) -> u8 {
        ((if self.vblank {
            1int
        } else {
            0
        }) + (if self.lcd {
            2int
        } else {
            0
        }) + (if self.timer {
            4int
        } else {
            0
        }) + (if self.serial {
            8int
        } else {
            0
        }) + (if self.joypad {
            16int
        } else {
            0
        })) as u8
    }

    /// Decoding a written byte; the three unused bits are discarded.
    pub open spec fn spec_from_bits(val: u8) -> Interrupt {
        Interrupt {
            vblank: val % 2 == 1,
            lcd: val / 2 % 2 == 1,
            timer: val / 4 % 2 == 1,
            serial: val / 8 % 2 == 1,
            joypad: val / 16 % 2 == 1,
        }
    }

    pub fn empty() -> (r: Interrupt)
        ensures
            r == (Interrupt {
                vblank: false,
                lcd: false,
                timer: false,
                serial: false,
                joypad: false,
            }),
    {
        Interrupt { vblank: false, lcd: false, timer: false, serial: false, joypad: false }
    }

    pub fn bits(&self) -> (r: u8)
        ensures
            r == self.spec_bits(),
    {
        let v: u8 = if self.vblank {
            1
        } else {
            0
        };
        let l: u8 = if self.lcd {
            2
        } else {
            0
        };
        let t: u8 = if self.timer {
            4
        } else {
            0
        };
        let s: u8 = if self.serial {
            8
        } else {
            0
        };
        let j: u8 = if self.joypad {
            16
        } else {
            0
        };
        v + l + t + s + j
    }

    pub fn from_bits_retain(val: u8) -> (r: Interrupt)
        ensures
            r == Interrupt::spec_from_bits(val),
    {
        Interrupt {
            vblank: val % 2 == 1,
            lcd: val / 2 % 2 == 1,
            timer: val / 4 % 2 == 1,
            serial: val / 8 % 2 == 1,
            joypad: val / 16 % 2 == 1,
        }
    }
}

/// The memory-mapped bus: work and high RAM, the cartridge and every
/// peripheral, the interrupt registers, the framebuffer and the audio queue.
pub struct Bus {
    pub cpu_ram: Vec<u8>,
    pub hram: Vec<u8>,
    pub cartridge: Cartridge,
    pub joypad: Joypad,
    pub timer: Timer,
    pub interrupt_enable: Interrupt,
    pub interrupt_flag: Interrupt,
    pub ppu: Ppu,
    pub frame: Frame,
    pub apu: Apu,
    pub audio_buffer: Vec<AudioSample>,
}

/// What a read of each bus address returns, over the whole memory map:
/// cartridge banks, video and work RAM (with the echo region mirroring work
/// RAM), object attributes, the prohibited region as zero, each peripheral
/// register with its read-as-one bits, high RAM, and the two interrupt
/// registers; unmapped addresses read 0xff.
#[verifier::opaque]
pub open spec fn spec_bus_read(b: &Bus, addr: u16) -> u8 {
    if addr < 0x4000 {
        b.cartridge.spec_read_bank0(addr)
    } else if addr < 0x8000 {
        b.cartridge.spec_read_bankn(addr)
    } else if addr < 0xa000 {
        b.ppu.vram@[addr - 0x8000]
    } else if addr < 0xc000 {
        b.cartridge.spec_ram_read(addr)
    } else if addr < 0xe000 {
        b.cpu_ram@[addr - 0xc000]
    } else if addr < 0xfe00 {
        b.cpu_ram@[addr - 0xe000]
    } else if addr < 0xfea0 {
        b.ppu.oam@[addr - 0xfe00]
    } else if addr < 0xff00 {
        0
    } else if addr == 0xff00 {
        b.joypad.spec_read()
    } else if addr == 0xff04 {
        b.timer.divider_counter
    } else if addr == 0xff05 {
        b.timer.timer_counter
    } else if addr == 0xff06 {
        b.timer.timer_modulo
    } else if addr == 0xff07 {
        b.timer.spec_tac_read()
    } else if addr == 0xff0f {
        (0xe0 + b.interrupt_flag.spec_bits()) as u8
    } else if addr == 0xff10 {
        b.apu.square1.spec_sweep_read()
    } else if addr == 0xff11 {
        b.apu.square1.spec_length_timer_read()
    } else if addr == 0xff12 {
        b.apu.square1.envelope.spec_read()
    } else if addr == 0xff14 {
        b.apu.square1.spec_control_read()
    } else if addr == 0xff16 {
        b.apu.square2.spec_length_timer_read()
    } else if addr == 0xff17 {
        b.apu.square2.envelope.spec_read()
    } else if addr == 0xff19 {
        b.apu.square2.spec_control_read()
    } else if addr == 0xff1a {
        b.apu.wave.spec_dac_enable_read()
    } else if addr == 0xff1c {
        b.apu.wave.spec_output_level_read()
    } else if addr == 0xff1e {
        b.apu.wave.spec_control_read()
    } else if addr == 0xff21 {
        b.apu.noise.envelope.spec_read()
    } else if addr == 0xff22 {
        b.apu.noise.spec_randomness_read()
    } else if addr == 0xff23 {
        b.apu.noise.spec_control_read()
    } else if addr == 0xff24 {
        b.apu.volume
    } else if addr == 0xff25 {
        b.apu.sound_panning
    } else if addr == 0xff26 {
        b.apu.spec_master_control_read()
    } else if 0xff30 <= addr && addr < 0xff40 {
        b.apu.wave.spec_wave_ram_read(addr)
    } else if addr == 0xff40 {
        b.ppu.control
    } else if addr == 0xff41 {
        b.ppu.spec_read_status()
    } else if addr == 0xff42 {
        b.ppu.scy
    } else if addr == 0xff43 {
        b.ppu.scx
    } else if addr == 0xff44 {
        b.ppu.scanline
    } else if addr == 0xff45 {
        b.ppu.lyc
    } else if addr == 0xff47 {
        b.ppu.bg_palette
    } else if addr == 0xff48 {
        b.ppu.obp0
    } else if addr == 0xff49 {
        b.ppu.obp1
    } else if addr == 0xff4a {
        b.ppu.wy
    } else if addr == 0xff4b {
        b.ppu.wx
    } else if 0xff80 <= addr && addr < 0xffff {
        b.hram@[addr - 0xff80]
    } else if addr == 0xffff {
        (0xe0 + b.interrupt_enable.spec_bits()) as u8
    } else {
        0xff
    }
}

/// A sixteen-bit read: the low byte at `addr`, the high byte one past it
/// (wrapping at the top of the address space).
pub open spec fn spec_bus_read16(b: &Bus, addr: u16) -> u16 {
    (spec_bus_read(b, addr) + 256 * spec_bus_read(b, ((addr + 1) % 0x10000) as u16)) as u16
}

/// How a write changes the bus, per address class. Writes into the ROM
/// space are mapper control writes; the echo region mirrors work RAM; the
/// prohibited region, read-only registers and unmapped addresses change
/// nothing; a DMA write replaces the whole object-attribute memory with the
/// 160 bytes read from the named page.
#[verifier::opaque]
pub open spec fn spec_bus_write_rel(o: &Bus, n: &Bus, addr: u16, data: u8) -> bool {
    if addr < 0x8000 {
        &&& *n == Bus { cartridge: n.cartridge, ..*o }
        &&& Cartridge::spec_ctrl_write_rel(o.cartridge, n.cartridge, addr, data)
    } else if addr < 0xa000 {
        &&& *n == Bus { ppu: n.ppu, ..*o }
        &&& n.ppu == Ppu { vram: n.ppu.vram, ..o.ppu }
        &&& n.ppu.vram@ == o.ppu.vram@.update(addr - 0x8000, data)
    } else if addr < 0xc000 {
        &&& *n == Bus { cartridge: n.cartridge, ..*o }
        &&& Cartridge::spec_ram_write_rel(o.cartridge, n.cartridge, addr, data)
    } else if addr < 0xe000 {
        &&& *n == Bus { cpu_ram: n.cpu_ram, ..*o }
        &&& n.cpu_ram@ == o.cpu_ram@.update(addr - 0xc000, data)
    } else if addr < 0xfe00 {
        &&& *n == Bus { cpu_ram: n.cpu_ram, ..*o }
        &&& n.cpu_ram@ == o.cpu_ram@.update(addr - 0xe000, data)
    } else if addr < 0xfea0 {
        &&& *n == Bus { ppu: n.ppu, ..*o }
        &&& n.ppu == Ppu { oam: n.ppu.oam, ..o.ppu }
        &&& n.ppu.oam@ == o.ppu.oam@.update(addr - 0xfe00, data)
    } else if addr < 0xff00 {
        *n == *o
    } else if addr == 0xff00 {
        *n == Bus {
            joypad: Joypad {
                select_mode: data / 32 % 2 == 1,
                dpad_mode: data / 16 % 2 == 1,
                ..o.joypad
            },
            ..*o
        }
    } else if addr == 0xff04 {
        *n == Bus {
            timer: Timer { divider_counter: 0u8, divider_cycle: 0u16, ..o.timer },
            ..*o
        }
    } else if addr == 0xff05 {
        *n == Bus { timer: Timer { timer_counter: data, ..o.timer }, ..*o }
    } else if addr == 0xff06 {
        *n == Bus { timer: Timer { timer_modulo: data, ..o.timer }, ..*o }
    } else if addr == 0xff07 {
        *n == Bus {
            timer: Timer {
                tac_enable: data / 4 % 2 == 1,
                tac_clock: (data % 4) as u8,
                ..o.timer
            },
            ..*o
        }
    } else if addr == 0xff0f {
        *n == Bus { interrupt_flag: Interrupt::spec_from_bits(data), ..*o }
    } else if addr == 0xff10 {
        *n == Bus {
            apu: Apu { square1: o.apu.square1.spec_sweep_write(data), ..o.apu },
            ..*o
        }
    } else if addr == 0xff11 {
        *n == Bus {
            apu: Apu { square1: o.apu.square1.spec_length_timer_write(data), ..o.apu },
            ..*o
        }
    } else if addr == 0xff12 {
        *n == Bus {
            apu: Apu { square1: o.apu.square1.spec_envelope_write(data), ..o.apu },
            ..*o
        }
    } else if addr == 0xff13 {
        *n == Bus {
            apu: Apu { square1: o.apu.square1.spec_period_low_write(data), ..o.apu },
            ..*o
        }
    } else if addr == 0xff14 {
        *n == Bus {
            apu: Apu { square1: o.apu.square1.spec_control_write(data), ..o.apu },
            ..*o
        }
    } else if addr == 0xff16 {
        *n == Bus {
            apu: Apu { square2: o.apu.square2.spec_length_timer_write(data), ..o.apu },
            ..*o
        }
    } else if addr == 0xff17 {
        *n == Bus {
            apu: Apu { square2: o.apu.square2.spec_envelope_write(data), ..o.apu },
            ..*o
        }
    } else if addr == 0xff18 {
        *n == Bus {
            apu: Apu { square2: o.apu.square2.spec_period_low_write(data), ..o.apu },
            ..*o
        }
    } else if addr == 0xff19 {
        *n == Bus {
            apu: Apu { square2: o.apu.square2.spec_control_write(data), ..o.apu },
            ..*o
        }
    } else if addr == 0xff1a {
        *n == Bus {
            apu: Apu { wave: o.apu.wave.spec_dac_enable_write(data), ..o.apu },
            ..*o
        }
    } else if addr == 0xff1b {
        *n == Bus { apu: Apu { wave: o.apu.wave.spec_length_timer(data), ..o.apu }, ..*o }
    } else if addr == 0xff1c {
        *n == Bus {
            apu: Apu { wave: o.apu.wave.spec_output_level_write(data), ..o.apu },
            ..*o
        }
    } else if addr == 0xff1d {
        *n == Bus {
            apu: Apu { wave: o.apu.wave.spec_period_low_write(data), ..o.apu },
            ..*o
        }
    } else if addr == 0xff1e {
        *n == Bus { apu: Apu { wave: o.apu.wave.spec_control_write(data), ..o.apu }, ..*o }
    } else if addr == 0xff20 {
        *n == Bus {
            apu: Apu { noise: o.apu.noise.spec_length_timer(data), ..o.apu },
            ..*o
        }
    } else if addr == 0xff21 {
        *n == Bus {
            apu: Apu { noise: o.apu.noise.spec_envelope_write(data), ..o.apu },
            ..*o
        }
    } else if addr == 0xff22 {
        *n == Bus {
            apu: Apu { noise: o.apu.noise.spec_randomness_write(data), ..o.apu },
            ..*o
        }
    } else if addr == 0xff23 {
        *n == Bus {
            apu: Apu { noise: o.apu.noise.spec_control_write(data), ..o.apu },
            ..*o
        }
    } else if addr == 0xff24 {
        *n == Bus {
            apu: Apu {
                volume: if o.apu.audio_on {
                    data
                } else {
                    o.apu.volume
                },
                ..o.apu
            },
            ..*o
        }
    } else if addr == 0xff25 {
        *n == Bus {
            apu: Apu {
                sound_panning: if o.apu.audio_on {
                    data
                } else {
                    o.apu.sound_panning
                },
                ..o.apu
            },
            ..*o
        }
    } else if addr == 0xff26 {
        *n == Bus { apu: o.apu.spec_master_control_write(data), ..*o }
    } else if 0xff30 <= addr && addr < 0xff40 {
        &&& *n == Bus { apu: n.apu, ..*o }
        &&& n.apu == Apu { wave: n.apu.wave, ..o.apu }
        &&& n.apu.wave == crate::apu::WaveChannel { wave_ram: n.apu.wave.wave_ram, ..o.apu.wave }
        &&& n.apu.wave.wave_ram@ == (if o.apu.wave.enabled {
            o.apu.wave.wave_ram@
        } else {
            o.apu.wave.wave_ram@.update(addr - 0xff30, data)
        })
    } else if addr == 0xff40 {
        *n == Bus {
            ppu: if spec_lcd_enabled(data) {
                Ppu { control: data, ..o.ppu }
            } else {
                Ppu {
                    control: data,
                    scanline: 0u8,
                    cycle: 0u32,
                    mode: PpuMode::HBlank,
                    ..o.ppu
                }
            },
            ..*o
        }
    } else if addr == 0xff41 {
        *n == Bus {
            ppu: Ppu {
                status: (data / 8 % 16 * 8 + (if o.ppu.status / 4 % 2 == 1 {
                    4int
                } else {
                    0
                })) as u8,
                ..o.ppu
            },
            ..*o
        }
    } else if addr == 0xff42 {
        *n == Bus { ppu: Ppu { scy: data, ..o.ppu }, ..*o }
    } else if addr == 0xff43 {
        *n == Bus { ppu: Ppu { scx: data, ..o.ppu }, ..*o }
    } else if addr == 0xff45 {
        *n == Bus { ppu: Ppu { lyc: data, ..o.ppu }, ..*o }
    } else if addr == 0xff46 {
        if data <= 0xdf {
            &&& *n == Bus { ppu: n.ppu, ..*o }
            &&& n.ppu == Ppu { oam: n.ppu.oam, ..o.ppu }
            &&& n.ppu.oam@ == Seq::new(0xa0, |i: int| spec_bus_read(o, (data * 256 + i) as u16))
        } else {
            *n == *o
        }
    } else if addr == 0xff47 {
        *n == Bus { ppu: Ppu { bg_palette: data, ..o.ppu }, ..*o }
    } else if addr == 0xff48 {
        *n == Bus { ppu: Ppu { obp0: data, ..o.ppu }, ..*o }
    } else if addr == 0xff49 {
        *n == Bus { ppu: Ppu { obp1: data, ..o.ppu }, ..*o }
    } else if addr == 0xff4a {
        *n == Bus { ppu: Ppu { wy: data, ..o.ppu }, ..*o }
    } else if addr == 0xff4b {
        *n == Bus { ppu: Ppu { wx: data, ..o.ppu }, ..*o }
    } else if 0xff80 <= addr && addr < 0xffff {
        &&& *n == Bus { hram: n.hram, ..*o }
        &&& n.hram@ == o.hram@.update(addr - 0xff80, data)
    } else if addr == 0xffff {
        *n == Bus { interrupt_enable: Interrupt::spec_from_bits(data), ..*o }
    } else {
        *n == *o
    }
}

/// One tick of the audio processor repeated `k` times: the end state and
/// the samples emitted along the way.
pub open spec fn spec_apu_run(a: Apu, k: int) -> (Apu, Seq<AudioSample>)
    decreases k,
{
    if k <= 0 {
        (a, Seq::empty())
    } else {
        let prev = spec_apu_run(a, k - 1);
        let a1 = prev.0.spec_tick();
        if prev.0.output_cycles + 1 == 23 {
            (a1, prev.1.push(a1.spec_output()))
        } else {
            (a1, prev.1)
        }
    }
}

impl Bus {
    pub open spec fn wf(&self) -> bool {
        &&& self.cpu_ram@.len() == 0x2000
        &&& self.hram@.len() == 0x7f
        &&& self.cartridge.wf()
        &&& self.joypad.wf()
        &&& self.timer.wf()
        &&& self.ppu.wf()
        &&& self.frame.wf()
        &&& self.apu.wf()
    }

    pub fn new(cartridge: Cartridge) -> (r: Bus)
        requires
            cartridge.wf(),
        ensures
            r.wf(),
            r.cartridge == cartridge,
            r.interrupt_enable == (Interrupt {
                vblank: false,
                lcd: false,
                timer: false,
                serial: false,
                joypad: false,
            }),
            r.interrupt_flag == r.interrupt_enable,
            r.audio_buffer@.len() == 0,
            forall|i: int| 0 <= i < 0x2000 ==> r.cpu_ram@[i] == 0,
            forall|i: int| 0 <= i < 0x7f ==> r.hram@[i] == 0,
    {
        Bus {
            cpu_ram: zero_vec(0x2000),
            hram: zero_vec(0x7f),
            cartridge,
            joypad: Joypad::new(),
            timer: Timer::new(),
            interrupt_enable: Interrupt::empty(),
            interrupt_flag: Interrupt::empty(),
            ppu: Ppu::new(),
            frame: Frame::new(),
            apu: Apu::new(),
            audio_buffer: Vec::new(),
        }
    }

    pub fn vblank_enabled(&self) -> (r: bool)
        ensures
            r == self.interrupt_enable.vblank,
    {
        self.interrupt_enable.vblank
    }

    pub fn vblank_flag(&self) -> (r: bool)
        ensures
            r == self.interrupt_flag.vblank,
    {
        self.interrupt_flag.vblank
    }

    pub fn lcd_enabled(&self) -> (r: bool)
        ensures
            r == self.interrupt_enable.lcd,
    {
        self.interrupt_enable.lcd
    }

    pub fn lcd_flag(&self) -> (r: bool)
        ensures
            r == self.interrupt_flag.lcd,
    {
        self.interrupt_flag.lcd
    }

    pub fn timer_enabled(&self) -> (r: bool)
        ensures
            r == self.interrupt_enable.timer,
    {
        self.interrupt_enable.timer
    }

    pub fn timer_flag(&self) -> (r: bool)
        ensures
            r == self.interrupt_flag.timer,
    {
        self.interrupt_flag.timer
    }

    pub fn serial_enabled(&self) -> (r: bool)
        ensures
            r == self.interrupt_enable.serial,
    {
        self.interrupt_enable.serial
    }

    pub fn serial_flag(&self) -> (r: bool)
        ensures
            r == self.interrupt_flag.serial,
    {
        self.interrupt_flag.serial
    }

    pub fn joypad_enabled(&self) -> (r: bool)
        ensures
            r == self.interrupt_enable.joypad,
    {
        self.interrupt_enable.joypad
    }

    pub fn joypad_flag(&self) -> (r: bool)
        ensures
            r == self.interrupt_flag.joypad,
    {
        self.interrupt_flag.joypad
    }

    /// Routes a read through the memory map.
    #[verifier::rlimit(100)]
    pub fn mem_read(&self, addr: u16) -> (r: u8)
        requires
            self.wf(),
        ensures
            r == spec_bus_read(self, addr),
    {
        proof {
            reveal(spec_bus_read);
        }
        if addr < 0x4000 {
            self.cartridge.read_bank0(addr)
        } else if addr < 0x8000 {
            self.cartridge.read_bankn(addr)
        } else if addr < 0xa000 {
            self.ppu.read_vram(addr)
        } else if addr < 0xc000 {
            self.cartridge.ram_read(addr)
        } else if addr < 0xe000 {
            self.cpu_ram[(addr - 0xc000) as usize]
        } else if addr < 0xfe00 {
            self.cpu_ram[(addr - 0xe000) as usize]
        } else if addr < 0xfea0 {
            self.ppu.oam_read(addr)
        } else if addr < 0xff00 {
            0
        } else if addr == 0xff00 {
            self.joypad.read()
        } else if addr == 0xff04 {
            self.timer.divider_counter
        } else if addr == 0xff05 {
            self.timer.timer_counter
        } else if addr == 0xff06 {
            self.timer.timer_modulo
        } else if addr == 0xff07 {
            self.timer.tac_read()
        } else if addr == 0xff0f {
            0xe0 + self.interrupt_flag.bits()
        } else if addr == 0xff10 {
            self.apu.square1.sweep_read()
        } else if addr == 0xff11 {
            self.apu.square1.length_timer_read()
        } else if addr == 0xff12 {
            self.apu.square1.envelope_read()
        } else if addr == 0xff14 {
            self.apu.square1.control_read()
        } else if addr == 0xff16 {
            self.apu.square2.length_timer_read()
        } else if addr == 0xff17 {
            self.apu.square2.envelope_read()
        } else if addr == 0xff19 {
            self.apu.square2.control_read()
        } else if addr == 0xff1a {
            self.apu.wave.dac_enable_read()
        } else if addr == 0xff1c {
            self.apu.wave.output_level_read()
        } else if addr == 0xff1e {
            self.apu.wave.control_read()
        } else if addr == 0xff21 {
            self.apu.noise.envelope_read()
        } else if addr == 0xff22 {
            self.apu.noise.randomness_read()
        } else if addr == 0xff23 {
            self.apu.noise.control_read()
        } else if addr == 0xff24 {
            self.apu.volume_read()
        } else if addr == 0xff25 {
            self.apu.sound_panning_read()
        } else if addr == 0xff26 {
            self.apu.master_control_read()
        } else if 0xff30 <= addr && addr < 0xff40 {
            self.apu.wave.wave_ram_read(addr)
        } else if addr == 0xff40 {
            self.ppu.read_ctrl()
        } else if addr == 0xff41 {
            self.ppu.read_status()
        } else if addr == 0xff42 {
            self.ppu.scy
        } else if addr == 0xff43 {
            self.ppu.scx
        } else if addr == 0xff44 {
            self.ppu.scanline
        } else if addr == 0xff45 {
            self.ppu.lyc
        } else if addr == 0xff47 {
            self.ppu.bg_palette
        } else if addr == 0xff48 {
            self.ppu.obp0
        } else if addr == 0xff49 {
            self.ppu.obp1
        } else if addr == 0xff4a {
            self.ppu.wy
        } else if addr == 0xff4b {
            self.ppu.wx
        } else if 0xff80 <= addr && addr < 0xffff {
            self.hram[(addr - 0xff80) as usize]
        } else if addr == 0xffff {
            0xe0 + self.interrupt_enable.bits()
        } else {
            0xff
        }
    }

    /// Routes a write through the memory map.
    #[verifier::rlimit(100)]
    pub fn mem_write(&mut self, addr: u16, data: u8)
        requires
            old(self).wf(),
        ensures
            final(self).wf(),
            spec_bus_write_rel(old(self), final(self), addr, data),
    {
        proof {
            reveal(spec_bus_write_rel);
        }
        if addr < 0x4000 {
            self.cartridge.write_bank0(addr, data);
        } else if addr < 0x8000 {
            self.cartridge.write_bankn(addr, data);
        } else if addr < 0xa000 {
            self.ppu.write_vram(addr, data);
        } else if addr < 0xc000 {
            self.cartridge.ram_write(addr, data);
        } else if addr < 0xe000 {
            self.cpu_ram[(addr - 0xc000) as usize] = data;
        } else if addr < 0xfe00 {
            self.cpu_ram[(addr - 0xe000) as usize] = data;
        } else if addr < 0xfea0 {
            self.ppu.oam_write(addr, data);
        } else if addr < 0xff00 {
        } else if addr == 0xff00 {
            self.joypad.write(data);
        } else if addr == 0xff04 {
            self.timer.div_write();
        } else if addr == 0xff05 {
            self.timer.tima_write(data);
        } else if addr == 0xff06 {
            self.timer.tma_write(data);
        } else if addr == 0xff07 {
            self.timer.tac_write(data);
        } else if addr == 0xff0f {
            self.interrupt_flag = Interrupt::from_bits_retain(data);
        } else if addr == 0xff10 {
            self.apu.square1.sweep_write(data);
        } else if addr == 0xff11 {
            self.apu.square1.length_timer_write(data);
        } else if addr == 0xff12 {
            self.apu.square1.envelope_write(data);
        } else if addr == 0xff13 {
            self.apu.square1.period_low_write(data);
        } else if addr == 0xff14 {
            self.apu.square1.control_write(data);
        } else if addr == 0xff16 {
            self.apu.square2.length_timer_write(data);
        } else if addr == 0xff17 {
            self.apu.square2.envelope_write(data);
        } else if addr == 0xff18 {
            self.apu.square2.period_low_write(data);
        } else if addr == 0xff19 {
            self.apu.square2.control_write(data);
        } else if addr == 0xff1a {
            self.apu.wave.dac_enable_write(data);
        } else if addr == 0xff1b {
            self.apu.wave.length_timer(data);
        } else if addr == 0xff1c {
            self.apu.wave.output_level_write(data);
        } else if addr == 0xff1d {
            self.apu.wave.period_low_write(data);
        } else if addr == 0xff1e {
            self.apu.wave.control_write(data);
        } else if addr == 0xff20 {
            self.apu.noise.length_timer(data);
        } else if addr == 0xff21 {
            self.apu.noise.envelope_write(data);
        } else if addr == 0xff22 {
            self.apu.noise.randomness_write(data);
        } else if addr == 0xff23 {
            self.apu.noise.control_write(data);
        } else if addr == 0xff24 {
            self.apu.volume_write(data);
        } else if addr == 0xff25 {
            self.apu.sound_panning_write(data);
        } else if addr == 0xff26 {
            self.apu.master_control_write(data);
        } else if 0xff30 <= addr && addr < 0xff40 {
            self.apu.wave.wave_ram_write(addr, data);
        } else if addr == 0xff40 {
            self.ppu.write_to_ctrl(data);
        } else if addr == 0xff41 {
            self.ppu.write_status(data);
        } else if addr == 0xff42 {
            self.ppu.scy = data;
        } else if addr == 0xff43 {
            self.ppu.scx = data;
        } else if addr == 0xff45 {
            self.ppu.lyc = data;
        } else if addr == 0xff46 {
            if data <= 0xdf {
                self.oam_dma_copy(data);
            }
        } else if addr == 0xff47 {
            self.ppu.bg_palette = data;
        } else if addr == 0xff48 {
            self.ppu.obp0 = data;
        } else if addr == 0xff49 {
            self.ppu.obp1 = data;
        } else if addr == 0xff4a {
            self.ppu.wy = data;
        } else if addr == 0xff4b {
            self.ppu.wx = data;
        } else if 0xff80 <= addr && addr < 0xffff {
            self.hram[(addr - 0xff80) as usize] = data;
        } else if addr == 0xffff {
            self.interrupt_enable = Interrupt::from_bits_retain(data);
        }
    }

    /// The DMA transfer: copies the 160 bytes at page `data` into the
    /// object-attribute memory atomically, leaving it equal to that slice
    /// of the memory as it stood before the transfer.
    fn oam_dma_copy(&mut self, data: u8)
        requires
            old(self).wf(),
            data <= 0xdf,
        ensures
            final(self).wf(),
            *final(self) == (Bus { ppu: final(self).ppu, ..*old(self) }),
            final(self).ppu == (Ppu { oam: final(self).ppu.oam, ..old(self).ppu }),
            (final(self).ppu.oam@ == Seq::new(
                0xa0,
                |i: int| spec_bus_read(old(self), (data * 256 + i) as u16),
            )),
    {
        let start: u16 = data as u16 * 256;
        let mut page: Vec<u8> = Vec::new();
        let mut i: usize = 0;
        while i < 0xa0
            invariant
                self.wf(),
                *self == *old(self),
                data <= 0xdf,
                start == data * 256,
                i <= 0xa0,
                page@.len() == i,
                forall|j: int|
                    0 <= j < i ==> page@[j] == spec_bus_read(old(self), (data * 256 + j) as u16),
            decreases 0xa0 - i,
        {
            let b = self.mem_read(start + i as u16);
            page.push(b);
            i = i + 1;
        }
        proof {
            assert(page@ =~= Seq::new(
                0xa0,
                |i: int| spec_bus_read(old(self), (data * 256 + i) as u16),
            ));
        }
        self.ppu.oam_dma(page);
    }

    /// Advances the peripherals by `cycles` M-cycles, merging the interrupt
    /// requests they raise into IF and rendering a scanline when the pixel
    /// processor enters its drawing phase. The result says whether a whole
    /// frame was completed (the processor entered the vertical blank).
    #[verifier::rlimit(100)]
    #[verifier::spinoff_prover]
    pub fn tick(&mut self, cycles: u8) -> (r: bool)
        requires
            old(self).wf(),
        ensures
            final(self).wf(),
            final(self).cartridge == old(self).cartridge,
            final(self).cpu_ram == old(self).cpu_ram,
            final(self).hram == old(self).hram,
            final(self).interrupt_enable == old(self).interrupt_enable,
            // interrupt merging
            final(self).interrupt_flag.serial == old(self).interrupt_flag.serial,
            final(self).interrupt_flag.lcd ==> old(self).interrupt_flag.lcd || spec_lcd_enabled(
                old(self).ppu.control,
            ),
            (old(self).interrupt_flag.lcd ==> final(self).interrupt_flag.lcd),
            final(self).interrupt_flag.joypad == (old(self).interrupt_flag.joypad || old(
                self,
            ).joypad.interrupt),
            !final(self).joypad.interrupt,
            final(self).joypad == (Joypad { interrupt: false, ..old(self).joypad }),
            // the timer interrupt fires exactly on TIMA overflow
            ({
                let t = old(self).timer;
                let fired = t.tac_enable && spec_timer_drain(
                    t.timer_counter,
                    t.timer_modulo,
                    t.timer_cycle + cycles,
                    spec_timer_period(t.tac_clock) as int,
                    false,
                ).2;
                final(self).interrupt_flag.timer == (old(self).interrupt_flag.timer || fired)
            }),
            // the vertical-blank interrupt fires exactly on entering line 144
            ({
                let vb = spec_lcd_enabled(old(self).ppu.control) && old(self).ppu.scanline == 143
                    && final(self).ppu.scanline == 144;
                final(self).interrupt_flag.vblank == (old(self).interrupt_flag.vblank || vb)
            }),
            // frame completion reports the transition into the vertical blank
            r == (spec_lcd_enabled(old(self).ppu.control) && old(self).ppu.mode != PpuMode::VBlank
                && final(self).ppu.mode == PpuMode::VBlank),
            // the audio processor advances cycle by cycle, queueing samples
            final(self).apu == spec_apu_run(old(self).apu, cycles as int).0,
            (final(self).audio_buffer@ == old(self).audio_buffer@ + spec_apu_run(
                old(self).apu,
                cycles as int,
            ).1),
            // a drawing transition renders the current scanline
            ((spec_lcd_enabled(old(self).ppu.control) && old(self).ppu.mode != PpuMode::Draw
                && final(self).ppu.mode == PpuMode::Draw) ==> forall|x: int|
                0 <= x < 160 ==> final(self).frame.spec_pixel(
                    x,
                    final(self).ppu.scanline as int,
                ) == spec_render_pixel(&final(self).ppu, x, final(self).ppu.scanline as int)),
            (!(spec_lcd_enabled(old(self).ppu.control) && old(self).ppu.mode != PpuMode::Draw
                && final(self).ppu.mode == PpuMode::Draw) ==> final(self).frame == old(
                self,
            ).frame && final(self).ppu.scanline_oams == old(self).ppu.scanline_oams),
    {
        let timer_interrupt = self.timer.tick(cycles);
        if timer_interrupt {
            self.interrupt_flag.timer = true;
        }
        let (display_result, lcd_interrupt, vblank_interrupt) = self.ppu.tick(cycles);
        if lcd_interrupt {
            self.interrupt_flag.lcd = true;
        }
        if vblank_interrupt {
            self.interrupt_flag.vblank = true;
        }
        if self.joypad.interrupt {
            self.interrupt_flag.joypad = true;
        }
        self.joypad.interrupt = false;
        let ghost pre_loop = *self;
        let mut c: u8 = 0;
        while c < cycles
            invariant
                self.apu.wf(),
                c <= cycles,
                pre_loop.apu == old(self).apu,
                pre_loop.audio_buffer == old(self).audio_buffer,
                self.apu == spec_apu_run(old(self).apu, c as int).0,
                (self.audio_buffer@ == old(self).audio_buffer@ + spec_apu_run(
                    old(self).apu,
                    c as int,
                ).1),
                (*self == Bus { apu: self.apu, audio_buffer: self.audio_buffer, ..pre_loop }),
            decreases cycles - c,
        {
            let s = self.apu.tick();
            match s {
                Some(amp) => {
                    self.audio_buffer.push(amp);
                },
                None => {},
            }
            c = c + 1;
        }
        match display_result {
            DisplayStatus::DoNothing => false,
            DisplayStatus::OAMScan => false,
            DisplayStatus::NewScanline => {
                let ghost pre_ppu = self.ppu;
                self.ppu.oam_scan();
                proof {
                    crate::ppu::lemma_oam_scan_hits(&pre_ppu, 40);
                    assert forall|k: int|
                        0 <= k < self.ppu.scanline_oams@.len() implies self.ppu.spec_sprite_hit(
                        #[trigger] self.ppu.scanline_oams@[k] as int,
                    ) by {
                        assert(pre_ppu.spec_sprite_hit(self.ppu.scanline_oams@[k] as int));
                    }
                }
                render_scanline(&self.ppu, &mut self.frame);
                false
            },
            DisplayStatus::NewFrame => true,
        }
    }

    /// A sixteen-bit read, low byte first.
    pub fn mem_read_u16(&self, addr: u16) -> (r: u16)
        requires
            self.wf(),
        ensures
            r == spec_bus_read16(self, addr),
    {
        let lo = self.mem_read(addr);
        let hi = self.mem_read(addr.wrapping_add(1));
        lo as u16 + 256 * (hi as u16)
    }

    /// A sixteen-bit write, low byte first.
    #[verifier::rlimit(100)]
    #[verifier::spinoff_prover]
    pub fn mem_write_u16(&mut self, addr: u16, data: u16)
        requires
            old(self).wf(),
        ensures
            final(self).wf(),
            (exists|mid: Bus|
                spec_bus_write_rel(old(self), &mid, addr, (data % 256) as u8) && mid.wf()
                    && spec_bus_write_rel(
                    &mid,
                    final(self),
                    ((addr + 1) % 0x10000) as u16,
                    (data / 256) as u8,
                )),
    {
        let ghost pre = *self;
        self.mem_write(addr, (data % 256) as u8);
        let ghost mid = *self;
        self.mem_write(addr.wrapping_add(1), (data / 256) as u8);
        proof {
            assert(spec_bus_write_rel(&pre, &mid, addr, (data % 256) as u8));
        }
    }
}

/// A zero-filled vector of the given length.
fn zero_vec(n: usize) -> (r: Vec<u8>)
    ensures
        r@.len() == n,
        forall|i: int| 0 <= i < n ==> r@[i] == 0,
{
    let mut v: Vec<u8> = Vec::new();
    let mut k: usize = 0;
    while k < n
        invariant
            k <= n,
            v@.len() == k,
            forall|i: int| 0 <= i < k ==> v@[i] == 0,
        decreases n - k,
    {
        v.push(0);
        k = k + 1;
    }
    v
}

} // verus!
