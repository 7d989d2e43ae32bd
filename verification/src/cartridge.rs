use vstd::prelude::*;

verus! {

/// Why a ROM image was rejected at load.
#[derive(Debug, Clone, Copy, PartialEq, Eq, Structural)]
pub enum CartridgeError {
    /// Shorter than the cartridge header.
    RomTooShort,
    /// Header byte 0x0148 names a ROM size beyond 8 MiB.
    UnknownRomSize,
    /// Header byte 0x0149 is not one of the five defined RAM-size codes.
    UnknownRamSize,
    /// The image length does not match the ROM size the header names.
    RomSizeMismatch,
    /// Header byte 0x0147 names a mapper outside the supported families.
    UnknownMapper,
}

/// The capability set of a mapper, as the bus uses it.
pub trait Mapper {
    spec fn inv(&self) -> bool;

    fn read_bank0(&self, addr: u16) -> u8
        requires
            self.inv(),
            addr < 0x4000,
    ;

    fn read_bankn(&self, addr: u16) -> u8
        requires
            self.inv(),
            0x4000 <= addr < 0x8000,
    ;

    fn write_bank0(&mut self, addr: u16, val: u8)
        requires
            old(self).inv(),
            addr < 0x4000,
        ensures
            final(self).inv(),
    ;

    fn write_bankn(&mut self, addr: u16, val: u8)
        requires
            old(self).inv(),
            0x4000 <= addr < 0x8000,
        ensures
            final(self).inv(),
    ;

    fn ram_read(&self, addr: u16) -> u8
        requires
            self.inv(),
            0xa000 <= addr < 0xc000,
    ;

    fn ram_write(&mut self, addr: u16, val: u8)
        requires
            old(self).inv(),
            0xa000 <= addr < 0xc000,
        ensures
            final(self).inv(),
    ;
}

/// A cartridge without a bank controller: flat ROM, optional flat RAM.
pub struct Mbc0 {
    pub cartridge_rom: Vec<u8>,
    pub cartridge_ram: Vec<u8>,
}

/// The MBC1 controller: a 5-bit ROM bank register, a 2-bit upper selector
/// shared between ROM and RAM banking, and a mode bit.
pub struct Mbc1 {
    pub ram_enabled: bool,
    pub rom_bank: u8,
    pub ram_bank: u8,
    pub banking_mode: bool,
    pub max_bank: u16,
    pub rom_size: usize,
    pub ram_size: usize,
    pub cartridge_rom: Vec<u8>,
    pub cartridge_ram: Vec<u8>,
}

/// The MBC3 controller: a 7-bit ROM bank register and a secondary selector
/// that picks either a RAM bank or one of the latched real-time-clock bytes.
pub struct Mbc3 {
    pub cartridge_rom: Vec<u8>,
    pub cartridge_ram: Vec<u8>,
    pub ram_size: usize,
    pub max_bank: u16,
    pub ram_enabled: bool,
    pub rom_bank: u8,
    pub bank_or_register: u8,
    pub rtc_prior_val: bool,
    pub rtc_s: u8,
    pub rtc_m: u8,
    pub rtc_h: u8,
    pub rtc_dl: u8,
    pub rtc_day_upper: bool,
    pub rtc_halt: bool,
    pub rtc_carry: bool,
}

/// The mapper families in scope, as a tagged variant the bus dispatches over.
pub enum Cartridge {
    Flat(Mbc0),
    Banked1(Mbc1),
    Banked3(Mbc3),
}

impl Mbc0 {
    pub open spec fn wf(&self) -> bool {
        self.cartridge_rom.len() >= 0x8000
    }

    pub fn new(rom: &[u8], ram_size: usize) -> (r: Mbc0)
        requires
            rom@.len() >= 0x8000,
        ensures
            r.wf(),
            r.cartridge_rom@ == rom@,
            r.cartridge_ram@.len() == ram_size,
            forall|i: int| 0 <= i < ram_size ==> r.cartridge_ram@[i] == 0,
    {
        Self { cartridge_rom: slice_to_vec(rom), cartridge_ram: zero_vec(ram_size) }
    }

    pub open spec fn spec_rom_read(&self, addr: u16) -> u8 {
        self.cartridge_rom@[addr as int]
    }

    pub open spec fn spec_ram_read(&self, addr: u16) -> u8 {
        if addr - 0xa000 < self.cartridge_ram@.len() {
            self.cartridge_ram@[addr - 0xa000]
        } else {
            0xff
        }
    }

    pub fn read_bank0(&self, addr: u16) -> (r: u8)
        requires
            self.wf(),
            addr < 0x8000,
        ensures
            r == self.spec_rom_read(addr),
    {
        self.cartridge_rom[addr as usize]
    }

    pub fn read_bankn(&self, addr: u16) -> (r: u8)
        requires
            self.wf(),
            0x4000 <= addr < 0x8000,
        ensures
            r == self.spec_rom_read(addr),
    {
        self.cartridge_rom[addr as usize]
    }

    pub fn ram_read(&self, addr: u16) -> (r: u8)
        requires
            self.wf(),
            0xa000 <= addr < 0xc000,
        ensures
            r == self.spec_ram_read(addr),
    {
        let offset = (addr - 0xa000) as usize;
        if offset < self.cartridge_ram.len() {
            self.cartridge_ram[offset]
        } else {
            0xff
        }
    }

    pub fn ram_write(&mut self, addr: u16, val: u8)
        requires
            old(self).wf(),
            0xa000 <= addr < 0xc000,
        ensures
            final(self).wf(),
            *final(self) == (Mbc0 { cartridge_ram: final(self).cartridge_ram, ..*old(self) }),
            final(self).cartridge_ram@ == (if addr - 0xa000 < old(self).cartridge_ram@.len() {
                old(self).cartridge_ram@.update(addr - 0xa000, val)
            } else {
                old(self).cartridge_ram@
            }),
    {
        let offset = (addr - 0xa000) as usize;
        if offset < self.cartridge_ram.len() {
            self.cartridge_ram[offset] = val;
        }
    }
}

impl Mbc1 {
    pub open spec fn wf(&self) -> bool {
        &&& self.cartridge_rom.len() == self.max_bank * 0x4000
        &&& self.max_bank >= 2
        &&& self.cartridge_rom.len() == self.rom_size
        &&& self.cartridge_ram.len() == self.ram_size
        &&& self.ram_bank < 4
        &&& 1 <= self.rom_bank < 32
    }

    pub fn new(rom: &[u8], rom_size: usize, ram_size: usize) -> (r: Mbc1)
        requires
            rom@.len() == rom_size,
            rom_size >= 0x8000,
            rom_size % 0x4000 == 0,
            rom_size / 0x4000 <= 0xffff,
        ensures
            r.wf(),
            r.cartridge_rom@ == rom@,
            r.cartridge_ram@.len() == ram_size,
            r.rom_bank == 1 && r.ram_bank == 0 && !r.banking_mode && !r.ram_enabled,
            forall|i: int| 0 <= i < ram_size ==> r.cartridge_ram@[i] == 0,
    {
        let max_bank = (rom_size / 0x4000) as u16;
        Self {
            rom_bank: 1,
            ram_bank: 0,
            max_bank,
            banking_mode: false,
            ram_enabled: false,
            rom_size,
            ram_size,
            cartridge_rom: slice_to_vec(rom),
            cartridge_ram: zero_vec(ram_size),
        }
    }

    /// The ROM bank that reads of the fixed region use: normally zero, but in
    /// advanced mode on a megabyte-class cartridge the upper selector shifts in.
    pub open spec fn spec_bank0(&self) -> int {
        if self.banking_mode && self.rom_size >= 0x100000 {
            (self.ram_bank as int) * 32 % (self.max_bank as int)
        } else {
            0
        }
    }

    /// The ROM bank that reads of the switchable region use: the 5-bit bank
    /// register under the 2-bit upper selector, reduced to the banks present.
    pub open spec fn spec_bankn(&self) -> int {
        ((self.ram_bank as int) * 32 + self.rom_bank) % (self.max_bank as int)
    }

    pub open spec fn spec_rom_read0(&self, addr: u16) -> u8 {
        self.cartridge_rom@[self.spec_bank0() * 0x4000 + addr]
    }

    pub open spec fn spec_rom_readn(&self, addr: u16) -> u8 {
        self.cartridge_rom@[self.spec_bankn() * 0x4000 + (addr - 0x4000)]
    }

    /// The index into cartridge RAM that an access at `addr` selects: banked
    /// by the upper selector in advanced mode once the RAM is 32 KiB or more.
    pub open spec fn spec_ram_index(&self, addr: u16) -> int {
        if self.banking_mode && self.ram_size >= 0x8000 {
            (self.ram_bank as int) * 0x2000 + (addr - 0xa000)
        } else {
            addr - 0xa000
        }
    }

    pub open spec fn spec_ram_read(&self, addr: u16) -> u8 {
        if !self.ram_enabled {
            0xff
        } else if self.spec_ram_index(addr) < self.cartridge_ram@.len() {
            self.cartridge_ram@[self.spec_ram_index(addr)]
        } else {
            0xff
        }
    }

    pub fn read_bank0(&self, addr: u16) -> (r: u8)
        requires
            self.wf(),
            addr < 0x4000,
        ensures
            r == self.spec_rom_read0(addr),
    {
        if self.banking_mode && self.rom_size >= 0x100000 {
            let bank = (self.ram_bank as u16 * 32) % self.max_bank;
            proof {
                lemma_bank_index_in_bounds(
                    self.spec_bank0(),
                    self.max_bank as int,
                    self.cartridge_rom.len() as int,
                    addr as int,
                );
            }
            self.cartridge_rom[bank as usize * 0x4000 + addr as usize]
        } else {
            self.cartridge_rom[addr as usize]
        }
    }

    pub fn read_bankn(&self, addr: u16) -> (r: u8)
        requires
            self.wf(),
            0x4000 <= addr < 0x8000,
        ensures
            r == self.spec_rom_readn(addr),
    {
        let bank = (self.ram_bank as u32 * 32 + self.rom_bank as u32) % self.max_bank as u32;
        proof {
            lemma_bank_index_in_bounds(
                self.spec_bankn(),
                self.max_bank as int,
                self.cartridge_rom.len() as int,
                addr - 0x4000,
            );
        }
        self.cartridge_rom[bank as usize * 0x4000 + (addr as usize - 0x4000)]
    }

    /// Control writes into the ROM address space: RAM enable, ROM bank
    /// (a zero bank selects one), upper selector, and mode.
    pub open spec fn spec_ctrl_write(self, addr: u16, val: u8) -> Mbc1 {
        if addr < 0x2000 {
            Mbc1 { ram_enabled: self.ram_size > 0 && val % 16 == 0xa, ..self }
        } else if addr < 0x4000 {
            Mbc1 {
                rom_bank: if val % 32 == 0 {
                    1u8
                } else {
                    (val % 32) as u8
                },
                ..self
            }
        } else if addr < 0x6000 {
            Mbc1 { ram_bank: (val % 4) as u8, ..self }
        } else {
            Mbc1 { banking_mode: val % 2 == 1, ..self }
        }
    }

    pub fn write_bank0(&mut self, addr: u16, val: u8)
        requires
            old(self).wf(),
            addr < 0x4000,
        ensures
            final(self).wf(),
            *final(self) == old(self).spec_ctrl_write(addr, val),
    {
        if addr < 0x2000 {
            self.ram_enabled = self.ram_size > 0 && val % 16 == 0xa;
        } else {
            self.rom_bank = if val % 32 == 0 {
                1
            } else {
                val % 32
            };
        }
    }

    pub fn write_bankn(&mut self, addr: u16, val: u8)
        requires
            old(self).wf(),
            0x4000 <= addr < 0x8000,
        ensures
            final(self).wf(),
            *final(self) == old(self).spec_ctrl_write(addr, val),
    {
        if addr < 0x6000 {
            self.ram_bank = val % 4;
        } else {
            self.banking_mode = val % 2 == 1;
        }
    }

    pub fn ram_read(&self, addr: u16) -> (r: u8)
        requires
            self.wf(),
            0xa000 <= addr < 0xc000,
        ensures
            r == self.spec_ram_read(addr),
    {
        if !self.ram_enabled {
            return 0xff;
        }
        let idx: usize = if self.banking_mode && self.ram_size >= 0x8000 {
            self.ram_bank as usize * 0x2000 + (addr as usize - 0xa000)
        } else {
            addr as usize - 0xa000
        };
        if idx < self.cartridge_ram.len() {
            self.cartridge_ram[idx]
        } else {
            0xff
        }
    }

    pub fn ram_write(&mut self, addr: u16, val: u8)
        requires
            old(self).wf(),
            0xa000 <= addr < 0xc000,
        ensures
            final(self).wf(),
            *final(self) == (Mbc1 { cartridge_ram: final(self).cartridge_ram, ..*old(self) }),
            final(self).cartridge_ram@ == (if old(self).ram_enabled && old(self).spec_ram_index(
                addr,
            ) < old(self).cartridge_ram@.len() {
                old(self).cartridge_ram@.update(old(self).spec_ram_index(addr), val)
            } else {
                old(self).cartridge_ram@
            }),
    {
        if !self.ram_enabled {
            return ;
        }
        let idx: usize = if self.banking_mode && self.ram_size >= 0x8000 {
            self.ram_bank as usize * 0x2000 + (addr as usize - 0xa000)
        } else {
            addr as usize - 0xa000
        };
        if idx < self.cartridge_ram.len() {
            self.cartridge_ram[idx] = val;
        }
    }
}

/// A bank selected modulo the bank count addresses a full 16 KiB window
/// inside the ROM image.
proof fn lemma_bank_index_in_bounds(bank: int, max_bank: int, rom_len: int, offset: int)
    by (nonlinear_arith)
    requires
        max_bank >= 1,
        rom_len == max_bank * 0x4000,
        0 <= bank < max_bank,
        0 <= offset < 0x4000,
    ensures
        0 <= bank * 0x4000 + offset < rom_len,
{
}

impl Mbc3 {
    pub open spec fn wf(&self) -> bool {
        &&& self.cartridge_rom.len() == self.max_bank * 0x4000
        &&& self.max_bank >= 2
        &&& self.cartridge_ram.len() == self.ram_size
        &&& self.bank_or_register <= 0x0c
        &&& 1 <= self.rom_bank < 128
    }

    pub fn new(rom: &[u8], ram_size: usize) -> (r: Mbc3)
        requires
            rom@.len() >= 0x8000,
            rom@.len() % 0x4000 == 0,
            rom@.len() / 0x4000 <= 0xffff,
        ensures
            r.wf(),
            r.cartridge_rom@ == rom@,
            r.cartridge_ram@.len() == ram_size,
            r.rom_bank == 1 && r.bank_or_register == 0 && !r.ram_enabled,
            forall|i: int| 0 <= i < ram_size ==> r.cartridge_ram@[i] == 0,
    {
        let max_bank = (rom.len() / 0x4000) as u16;
        Self {
            cartridge_rom: slice_to_vec(rom),
            cartridge_ram: zero_vec(ram_size),
            ram_size,
            max_bank,
            ram_enabled: false,
            rom_bank: 1,
            bank_or_register: 0,
            rtc_prior_val: false,
            rtc_s: 0,
            rtc_m: 0,
            rtc_h: 0,
            rtc_dl: 0,
            rtc_day_upper: false,
            rtc_halt: false,
            rtc_carry: false,
        }
    }

    pub open spec fn spec_rom_read0(&self, addr: u16) -> u8 {
        self.cartridge_rom@[addr as int]
    }

    pub open spec fn spec_bankn(&self) -> int {
        (self.rom_bank as int) % (self.max_bank as int)
    }

    pub open spec fn spec_rom_readn(&self, addr: u16) -> u8 {
        self.cartridge_rom@[self.spec_bankn() * 0x4000 + (addr - 0x4000)]
    }

    /// The day-high byte of the latched clock: carry at bit 7, halt at bit 6,
    /// the ninth day bit at bit 0.
    pub open spec fn spec_rtc_dh(&self) -> u8 {
        ((if self.rtc_carry {
            128int
        } else {
            0
        }) + (if self.rtc_halt {
            64int
        } else {
            0
        }) + (if self.rtc_day_upper {
            1int
        } else {
            0
        })) as u8
    }

    /// What the external-RAM region reads: a RAM bank when the secondary
    /// selector is 0 to 7, a latched clock byte when it is 8 to 12.
    pub open spec fn spec_ram_read(&self, addr: u16) -> u8 {
        if !self.ram_enabled {
            0xff
        } else if self.bank_or_register <= 7 {
            let idx = (self.bank_or_register as int) * 0x2000 + (addr - 0xa000);
            if idx < self.cartridge_ram@.len() {
                self.cartridge_ram@[idx]
            } else {
                0xff
            }
        } else if self.bank_or_register == 8 {
            self.rtc_s
        } else if self.bank_or_register == 9 {
            self.rtc_m
        } else if self.bank_or_register == 10 {
            self.rtc_h
        } else if self.bank_or_register == 11 {
            self.rtc_dl
        } else {
            self.spec_rtc_dh()
        }
    }

    pub fn read_bank0(&self, addr: u16) -> (r: u8)
        requires
            self.wf(),
            addr < 0x4000,
        ensures
            r == self.spec_rom_read0(addr),
    {
        self.cartridge_rom[addr as usize]
    }

    pub fn read_bankn(&self, addr: u16) -> (r: u8)
        requires
            self.wf(),
            0x4000 <= addr < 0x8000,
        ensures
            r == self.spec_rom_readn(addr),
    {
        let bank = (self.rom_bank as u16) % self.max_bank;
        proof {
            lemma_bank_index_in_bounds(
                self.spec_bankn(),
                self.max_bank as int,
                self.cartridge_rom.len() as int,
                addr - 0x4000,
            );
        }
        self.cartridge_rom[bank as usize * 0x4000 + (addr as usize - 0x4000)]
    }

    /// Control writes below 0x4000: RAM enable and the 7-bit ROM bank, with
    /// a zero bank redirected to one.
    pub open spec fn spec_ctrl_write0(self, addr: u16, val: u8) -> Mbc3 {
        if addr < 0x2000 {
            Mbc3 { ram_enabled: self.ram_size > 0 && val % 16 == 0xa, ..self }
        } else {
            Mbc3 {
                rom_bank: if val % 128 == 0 {
                    1u8
                } else {
                    (val % 128) as u8
                },
                ..self
            }
        }
    }

    pub fn write_bank0(&mut self, addr: u16, val: u8)
        requires
            old(self).wf(),
            addr < 0x4000,
        ensures
            final(self).wf(),
            *final(self) == old(self).spec_ctrl_write0(addr, val),
    {
        if addr < 0x2000 {
            self.ram_enabled = self.ram_size > 0 && val % 16 == 0xa;
        } else {
            self.rom_bank = if val % 128 == 0 {
                1
            } else {
                val % 128
            };
        }
    }

    /// How a control write at 0x4000 to 0x7fff changes the state: the
    /// secondary selector takes values up to 0x0c; a zero-then-one sequence
    /// into the latch region captures the wall clock, whose exact value is
    /// outside the state, so only its ranges are promised.
    pub open spec fn spec_ctrl_writen_rel(o: Mbc3, n: Mbc3, addr: u16, val: u8) -> bool {
        if addr < 0x6000 {
            if val <= 0x0c {
                n == Mbc3 { bank_or_register: val, ..o }
            } else {
                n == o
            }
        } else {
            if val == 0 {
                n == Mbc3 { rtc_prior_val: true, ..o }
            } else if o.rtc_prior_val && val == 1 {
                &&& n == Mbc3 {
                    rtc_prior_val: false,
                    rtc_s: n.rtc_s,
                    rtc_m: n.rtc_m,
                    rtc_h: n.rtc_h,
                    rtc_dl: n.rtc_dl,
                    rtc_day_upper: n.rtc_day_upper,
                    ..o
                }
                &&& n.rtc_s < 60
                &&& n.rtc_m < 60
                &&& n.rtc_h < 24
            } else {
                n == Mbc3 { rtc_prior_val: false, ..o }
            }
        }
    }

    pub fn write_bankn(&mut self, addr: u16, val: u8)
        requires
            old(self).wf(),
            0x4000 <= addr < 0x8000,
        ensures
            final(self).wf(),
            Mbc3::spec_ctrl_writen_rel(*old(self), *final(self), addr, val),
    {
        if addr < 0x6000 {
            if val <= 0x0c {
                self.bank_or_register = val;
            }
        } else {
            if val == 0 {
                self.rtc_prior_val = true;
            } else if self.rtc_prior_val && val == 1 {
                self.rtc_prior_val = false;
                let (s, m, h, day) = local_clock();
                self.latch_rtc(s, m, h, day);
            } else {
                self.rtc_prior_val = false;
            }
        }
    }

    /// Stores a captured wall-clock moment into the clock bytes: seconds,
    /// minutes, hours, and the day of year split into a low byte and the
    /// ninth bit.
    pub fn latch_rtc(&mut self, s: u8, m: u8, h: u8, day: u16)
        ensures
            *final(self) == (Mbc3 {
                rtc_s: s,
                rtc_m: m,
                rtc_h: h,
                rtc_dl: (day % 256) as u8,
                rtc_day_upper: day >= 256,
                ..*old(self)
            }),
    {
        self.rtc_s = s;
        self.rtc_m = m;
        self.rtc_h = h;
        self.rtc_dl = (day % 256) as u8;
        self.rtc_day_upper = day >= 256;
    }

    pub fn ram_read(&self, addr: u16) -> (r: u8)
        requires
            self.wf(),
            0xa000 <= addr < 0xc000,
        ensures
            r == self.spec_ram_read(addr),
    {
        if !self.ram_enabled {
            return 0xff;
        }
        if self.bank_or_register <= 7 {
            let idx = self.bank_or_register as usize * 0x2000 + (addr as usize - 0xa000);
            if idx < self.cartridge_ram.len() {
                self.cartridge_ram[idx]
            } else {
                0xff
            }
        } else if self.bank_or_register == 8 {
            self.rtc_s
        } else if self.bank_or_register == 9 {
            self.rtc_m
        } else if self.bank_or_register == 10 {
            self.rtc_h
        } else if self.bank_or_register == 11 {
            self.rtc_dl
        } else {
            let c: u8 = if self.rtc_carry {
                128
            } else {
                0
            };
            let ht: u8 = if self.rtc_halt {
                64
            } else {
                0
            };
            let du: u8 = if self.rtc_day_upper {
                1
            } else {
                0
            };
            c + ht + du
        }
    }

    /// How a write into the external-RAM region changes the state: a RAM
    /// byte, or one of the clock bytes when the selector addresses them.
    pub open spec fn spec_ram_write(self, addr: u16, val: u8) -> Mbc3 {
        if !self.ram_enabled {
            self
        } else if self.bank_or_register <= 7 {
            let idx = (self.bank_or_register as int) * 0x2000 + (addr - 0xa000);
            if idx < self.cartridge_ram@.len() {
                Mbc3 { cartridge_ram: self.cartridge_ram, ..self }
            } else {
                self
            }
        } else if self.bank_or_register == 8 {
            Mbc3 { rtc_s: val, ..self }
        } else if self.bank_or_register == 9 {
            Mbc3 { rtc_m: val, ..self }
        } else if self.bank_or_register == 10 {
            Mbc3 { rtc_h: val, ..self }
        } else if self.bank_or_register == 11 {
            Mbc3 { rtc_dl: val, ..self }
        } else {
            Mbc3 {
                rtc_carry: val >= 128,
                rtc_halt: val / 64 % 2 == 1,
                rtc_day_upper: val % 2 == 1,
                ..self
            }
        }
    }

    pub fn ram_write(&mut self, addr: u16, val: u8)
        requires
            old(self).wf(),
            0xa000 <= addr < 0xc000,
        ensures
            final(self).wf(),
            *final(self) == (Mbc3 {
                cartridge_ram: final(self).cartridge_ram,
                ..old(self).spec_ram_write(addr, val)
            }),
            final(self).cartridge_ram@ == (if old(self).ram_enabled && old(self).bank_or_register
                <= 7 && (old(self).bank_or_register as int) * 0x2000 + (addr - 0xa000) < old(
                self,
            ).cartridge_ram@.len() {
                old(self).cartridge_ram@.update(
                    (old(self).bank_or_register as int) * 0x2000 + (addr - 0xa000),
                    val,
                )
            } else {
                old(self).cartridge_ram@
            }),
    {
        if !self.ram_enabled {
            return ;
        }
        if self.bank_or_register <= 7 {
            let idx = self.bank_or_register as usize * 0x2000 + (addr as usize - 0xa000);
            if idx < self.cartridge_ram.len() {
                self.cartridge_ram[idx] = val;
            }
        } else if self.bank_or_register == 8 {
            self.rtc_s = val;
        } else if self.bank_or_register == 9 {
            self.rtc_m = val;
        } else if self.bank_or_register == 10 {
            self.rtc_h = val;
        } else if self.bank_or_register == 11 {
            self.rtc_dl = val;
        } else {
            self.rtc_carry = val >= 128;
            self.rtc_halt = val / 64 % 2 == 1;
            self.rtc_day_upper = val % 2 == 1;
        }
    }
}

/// Relies on chrono's `Local::now` with the `Timelike` and `Datelike`
/// accessors: the wall-clock second and minute are 0 to 59, the hour 0 to 23,
/// and the zero-based day of year 0 to 365.
#[verifier::external_body]
fn local_clock() -> (r: (u8, u8, u8, u16))
    ensures
        r.0 < 60,
        r.1 < 60,
        r.2 < 24,
        r.3 < 366,
{
    let now = chrono::Local::now();
    (
        chrono::Timelike::second(&now) as u8,
        chrono::Timelike::minute(&now) as u8,
        chrono::Timelike::hour(&now) as u8,
        chrono::Datelike::ordinal0(&now) as u16,
    )
}

/// Relies on `slice::to_vec`: the vector holds exactly the slice's bytes.
#[verifier::external_body]
fn slice_to_vec(s: &[u8]) -> (r: Vec<u8>)
    ensures
        r@ == s@,
{
    s.to_vec()
}

/// A zero-filled vector of the given length.
fn zero_vec(n: usize) -> (r: Vec<u8>)
    ensures
        r@.len() == n,
        forall|i: int| 0 <= i < n ==> r@[i] == 0,
{
    let mut v: Vec<u8> = Vec::new();
    let mut k: usize = 0;
    while k < n
        invariant
            k <= n,
            v@.len() == k,
            forall|i: int| 0 <= i < k ==> v@[i] == 0,
        decreases n - k,
    {
        v.push(0);
        k = k + 1;
    }
    v
}

impl Cartridge {
    pub open spec fn wf(&self) -> bool {
        match self {
            Cartridge::Flat(m) => m.wf(),
            Cartridge::Banked1(m) => m.wf(),
            Cartridge::Banked3(m) => m.wf(),
        }
    }

    /// What a read of the fixed ROM region returns.
    pub open spec fn spec_read_bank0(&self, addr: u16) -> u8 {
        match self {
            Cartridge::Flat(m) => m.spec_rom_read(addr),
            Cartridge::Banked1(m) => m.spec_rom_read0(addr),
            Cartridge::Banked3(m) => m.spec_rom_read0(addr),
        }
    }

    /// What a read of the switchable ROM region returns.
    pub open spec fn spec_read_bankn(&self, addr: u16) -> u8 {
        match self {
            Cartridge::Flat(m) => m.spec_rom_read(addr),
            Cartridge::Banked1(m) => m.spec_rom_readn(addr),
            Cartridge::Banked3(m) => m.spec_rom_readn(addr),
        }
    }

    /// What a read of the external-RAM region returns.
    pub open spec fn spec_ram_read(&self, addr: u16) -> u8 {
        match self {
            Cartridge::Flat(m) => m.spec_ram_read(addr),
            Cartridge::Banked1(m) => m.spec_ram_read(addr),
            Cartridge::Banked3(m) => m.spec_ram_read(addr),
        }
    }

    /// How a write into the external-RAM region changes the cartridge.
    pub open spec fn spec_ram_write_rel(o: Cartridge, n: Cartridge, addr: u16, val: u8) -> bool {
        match o {
            Cartridge::Flat(m) => match n {
                Cartridge::Flat(nm) => {
                    &&& nm == Mbc0 { cartridge_ram: nm.cartridge_ram, ..m }
                    &&& nm.cartridge_ram@ == (if addr - 0xa000 < m.cartridge_ram@.len() {
                        m.cartridge_ram@.update(addr - 0xa000, val)
                    } else {
                        m.cartridge_ram@
                    })
                },
                _ => false,
            },
            Cartridge::Banked1(m) => match n {
                Cartridge::Banked1(nm) => {
                    &&& nm == Mbc1 { cartridge_ram: nm.cartridge_ram, ..m }
                    &&& nm.cartridge_ram@ == (if m.ram_enabled && m.spec_ram_index(addr)
                        < m.cartridge_ram@.len() {
                        m.cartridge_ram@.update(m.spec_ram_index(addr), val)
                    } else {
                        m.cartridge_ram@
                    })
                },
                _ => false,
            },
            Cartridge::Banked3(m) => match n {
                Cartridge::Banked3(nm) => {
                    &&& nm == Mbc3 {
                        cartridge_ram: nm.cartridge_ram,
                        ..m.spec_ram_write(addr, val)
                    }
                    &&& nm.cartridge_ram@ == (if m.ram_enabled && m.bank_or_register <= 7 && (
                    m.bank_or_register as int) * 0x2000 + (addr - 0xa000)
                        < m.cartridge_ram@.len() {
                        m.cartridge_ram@.update(
                            (m.bank_or_register as int) * 0x2000 + (addr - 0xa000),
                            val,
                        )
                    } else {
                        m.cartridge_ram@
                    })
                },
                _ => false,
            },
        }
    }

    /// How a write into the ROM address space (a mapper control write)
    /// changes the cartridge.
    pub open spec fn spec_ctrl_write_rel(o: Cartridge, n: Cartridge, addr: u16, val: u8) -> bool {
        match o {
            Cartridge::Flat(_) => n == o,
            Cartridge::Banked1(m) => n == Cartridge::Banked1(m.spec_ctrl_write(addr, val)),
            Cartridge::Banked3(m) => {
                if addr < 0x4000 {
                    n == Cartridge::Banked3(m.spec_ctrl_write0(addr, val))
                } else {
                    match n {
                        Cartridge::Banked3(nm) => Mbc3::spec_ctrl_writen_rel(m, nm, addr, val),
                        _ => false,
                    }
                }
            },
        }
    }
}

impl Mapper for Cartridge {
    open spec fn inv(&self) -> bool {
        self.wf()
    }

    fn read_bank0(&self, addr: u16) -> (r: u8)
        ensures
            r == self.spec_read_bank0(addr),
    {
        match self {
            Cartridge::Flat(m) => m.read_bank0(addr),
            Cartridge::Banked1(m) => m.read_bank0(addr),
            Cartridge::Banked3(m) => m.read_bank0(addr),
        }
    }

    fn read_bankn(&self, addr: u16) -> (r: u8)
        ensures
            r == self.spec_read_bankn(addr),
    {
        match self {
            Cartridge::Flat(m) => m.read_bankn(addr),
            Cartridge::Banked1(m) => m.read_bankn(addr),
            Cartridge::Banked3(m) => m.read_bankn(addr),
        }
    }

    fn write_bank0(&mut self, addr: u16, val: u8)
        ensures
            Cartridge::spec_ctrl_write_rel(*old(self), *final(self), addr, val),
    {
        match self {
            Cartridge::Flat(_) => {},
            Cartridge::Banked1(m) => m.write_bank0(addr, val),
            Cartridge::Banked3(m) => m.write_bank0(addr, val),
        }
    }

    fn write_bankn(&mut self, addr: u16, val: u8)
        ensures
            Cartridge::spec_ctrl_write_rel(*old(self), *final(self), addr, val),
    {
        match self {
            Cartridge::Flat(_) => {},
            Cartridge::Banked1(m) => m.write_bankn(addr, val),
            Cartridge::Banked3(m) => m.write_bankn(addr, val),
        }
    }

    fn ram_read(&self, addr: u16) -> (r: u8)
        ensures
            r == self.spec_ram_read(addr),
    {
        match self {
            Cartridge::Flat(m) => m.ram_read(addr),
            Cartridge::Banked1(m) => m.ram_read(addr),
            Cartridge::Banked3(m) => m.ram_read(addr),
        }
    }

    fn ram_write(&mut self, addr: u16, val: u8)
        ensures
            Cartridge::spec_ram_write_rel(*old(self), *final(self), addr, val),
    {
        match self {
            Cartridge::Flat(m) => m.ram_write(addr, val),
            Cartridge::Banked1(m) => m.ram_write(addr, val),
            Cartridge::Banked3(m) => m.ram_write(addr, val),
        }
    }
}

/// The RAM size, in bytes, that a header RAM-size code names, if defined.
pub open spec fn spec_ram_size(code: u8) -> Option<usize> {
    if code == 0 {
        Option::Some(0usize)
    } else if code == 2 {
        Option::Some(0x2000usize)
    } else if code == 3 {
        Option::Some(0x8000usize)
    } else if code == 4 {
        Option::Some(0x20000usize)
    } else if code == 5 {
        Option::Some(0x10000usize)
    } else {
        Option::None
    }
}

/// The ROM size, in bytes, that a header ROM-size code names: 32 KiB doubled
/// `code` times, up to 8 MiB.
pub open spec fn spec_rom_size(code: u8) -> Option<usize> {
    if code == 0 {
        Option::Some(0x8000usize)
    } else if code == 1 {
        Option::Some(0x10000usize)
    } else if code == 2 {
        Option::Some(0x20000usize)
    } else if code == 3 {
        Option::Some(0x40000usize)
    } else if code == 4 {
        Option::Some(0x80000usize)
    } else if code == 5 {
        Option::Some(0x100000usize)
    } else if code == 6 {
        Option::Some(0x200000usize)
    } else if code == 7 {
        Option::Some(0x400000usize)
    } else if code == 8 {
        Option::Some(0x800000usize)
    } else {
        Option::None
    }
}

/// Builds the mapper a ROM image's header names. The image is rejected, and
/// no cartridge built, exactly when it is shorter than the header, names an
/// unknown ROM size, RAM size or mapper, or is not as long as its header says.
pub fn get_mapper(raw: &[u8]) -> (r: Result<Cartridge, CartridgeError>)
    ensures
        match r {
            Ok(c) => {
                &&& c.wf()
                &&& raw@.len() >= 0x150
                &&& spec_rom_size(raw@[0x148]) == Option::Some(raw@.len() as usize)
                &&& spec_ram_size(raw@[0x149]) is Some
                &&& {
                    let mapper = raw@[0x147];
                    &&& (mapper == 0 <==> c is Flat)
                    &&& (1 <= mapper <= 3 <==> c is Banked1)
                    &&& (16 <= mapper <= 19 <==> c is Banked3)
                }
            },
            Err(e) => {
                &&& (e == CartridgeError::RomTooShort <==> raw@.len() < 0x150)
                &&& raw@.len() >= 0x150 ==> {
                    let rom_code = raw@[0x148];
                    let ram_code = raw@[0x149];
                    let mapper = raw@[0x147];
                    &&& (e == CartridgeError::UnknownRomSize <==> spec_rom_size(rom_code)
                        is None)
                    &&& (e == CartridgeError::UnknownRamSize <==> spec_rom_size(rom_code) is Some
                        && spec_ram_size(ram_code) is None)
                    &&& (e == CartridgeError::RomSizeMismatch <==> spec_rom_size(rom_code)
                        is Some && spec_ram_size(ram_code) is Some && spec_rom_size(rom_code)
                        != Option::Some(raw@.len() as usize))
                    &&& (e == CartridgeError::UnknownMapper <==> spec_rom_size(rom_code) is Some
                        && spec_ram_size(ram_code) is Some && spec_rom_size(rom_code)
                        == Option::Some(raw@.len() as usize) && !(mapper == 0 || (1 <= mapper <= 3)
                        || (16 <= mapper <= 19)))
                }
            },
        },
{
    if raw.len() < 0x150 {
        return Err(CartridgeError::RomTooShort);
    }
    let rom_code = raw[0x148];
    let rom_size: usize = match rom_code {
        0 => 0x8000,
        1 => 0x10000,
        2 => 0x20000,
        3 => 0x40000,
        4 => 0x80000,
        5 => 0x100000,
        6 => 0x200000,
        7 => 0x400000,
        8 => 0x800000,
        _ => {
            return Err(CartridgeError::UnknownRomSize);
        },
    };
    let ram_code = raw[0x149];
    let ram_size: usize = match ram_code {
        0 => 0,
        2 => 0x2000,
        3 => 0x8000,
        4 => 0x20000,
        5 => 0x10000,
        _ => {
            return Err(CartridgeError::UnknownRamSize);
        },
    };
    if raw.len() != rom_size {
        return Err(CartridgeError::RomSizeMismatch);
    }
    let mapper = raw[0x147];
    if mapper == 0 {
        Ok(Cartridge::Flat(Mbc0::new(raw, ram_size)))
    } else if 1 <= mapper && mapper <= 3 {
        Ok(Cartridge::Banked1(Mbc1::new(raw, rom_size, ram_size)))
    } else if 16 <= mapper && mapper <= 19 {
        Ok(Cartridge::Banked3(Mbc3::new(raw, ram_size)))
    } else {
        Err(CartridgeError::UnknownMapper)
    }
}

} // verus!
