// Whole-system scenarios: instruction boundary cases, the timer, the pixel
// processor, the audio unit, the DMA copy, the cartridge loader's errors,
// and concrete instances of the arithmetic laws.

use gbemu::alu;
use gbemu::bus::Bus;
use gbemu::cartridge::{get_mapper, CartridgeError, Mapper};
use gbemu::cpu::Cpu;
use rand::Rng;

const BASE: u16 = 0xc000;

fn setup(program: Vec<u8>) -> Cpu {
    let rom = vec![0u8; 0x8000];
    let cartridge = get_mapper(&rom).unwrap();
    let bus = Bus::new(cartridge);
    let mut cpu = Cpu::new(bus);
    for (i, byte) in program.iter().enumerate() {
        cpu.bus.mem_write(BASE + i as u16, *byte);
    }
    cpu.program_counter = BASE;
    cpu
}

#[test]
fn test_ld_bc_then_halt() {
    // LD BC, 0x1234 then HALT: one step moves 0x1234 into BC and the
    // program counter three bytes on; the next step halts the processor.
    let mut cpu = setup(vec![0x01, 0x34, 0x12, 0x76]);
    let cycles = cpu.step().unwrap();
    assert_eq!(cpu.get_bc(), 0x1234);
    assert_eq!(cpu.program_counter, BASE + 3);
    assert_eq!(cycles, 3);
    cpu.step().unwrap();
    assert!(cpu.halted);
}

#[test]
fn test_add_a_imm8_overflow() {
    // ADD A, 0xFF with A = 0x01 and clear flags: A wraps to zero with
    // Z = 1, N = 0, H = 1, C = 1.
    let mut cpu = setup(vec![0xc6, 0xff, 0x76]);
    cpu.a = 0x01;
    cpu.step().unwrap();
    assert_eq!(cpu.a, 0x00);
    assert!(cpu.flags.zero);
    assert!(!cpu.flags.subtraction);
    assert!(cpu.flags.half_carry);
    assert!(cpu.flags.carry);
}

#[test]
fn test_ld_hl_sp_offset_flags() {
    // LD HL, SP+e8 with SP = 0xFFF8 and e8 = 0x02: HL = 0xFFFA, all flags
    // clear.
    let mut cpu = setup(vec![0xf8, 0x02, 0x76]);
    cpu.stack_pointer = 0xfff8;
    cpu.step().unwrap();
    assert_eq!(cpu.get_hl(), 0xfffa);
    assert_eq!(cpu.flags.bits(), 0);

    // A negative offset that carries out of the low byte: SP = 0xFF01 and
    // e8 = 0xFF gives HL = 0xFF00 with both H and C set, since the flags
    // mirror the unsigned addition of SP's low byte with the immediate.
    let mut cpu = setup(vec![0xf8, 0xff, 0x76]);
    cpu.stack_pointer = 0xff01;
    cpu.step().unwrap();
    assert_eq!(cpu.get_hl(), 0xff00);
    assert!(!cpu.flags.zero);
    assert!(!cpu.flags.subtraction);
    assert!(cpu.flags.half_carry);
    assert!(cpu.flags.carry);
}

#[test]
fn test_pop_af_masks_flags() {
    // POP AF with 0x1234 on top of the stack: A = 0x12 and the flag byte
    // keeps only its high nibble, 0x30.
    let mut cpu = setup(vec![0xf1, 0x76]);
    cpu.bus.mem_write(0xc100, 0x34);
    cpu.bus.mem_write(0xc101, 0x12);
    cpu.stack_pointer = 0xc100;
    cpu.step().unwrap();
    assert_eq!(cpu.a, 0x12);
    assert_eq!(cpu.flags.bits(), 0x30);
    assert_eq!(cpu.stack_pointer, 0xc102);
}

#[test]
fn test_push_pop_restores_register() {
    // PUSH BC then POP BC leaves BC and SP unchanged.
    let mut cpu = setup(vec![0xc5, 0xc1, 0x76]);
    cpu.stack_pointer = 0xcf00;
    cpu.set_bc(0xbeef);
    cpu.run().unwrap();
    assert_eq!(cpu.get_bc(), 0xbeef);
    assert_eq!(cpu.stack_pointer, 0xcf00);
}

#[test]
fn test_timer_overflow_reloads_and_interrupts() {
    // TAC = 0x05 (enabled, clock select 1, a 16 M-cycle period), TIMA =
    // 0xFF, TMA = 0x42: after 16 M-cycles TIMA reads 0x42 and the timer
    // interrupt bit is set.
    let rom = vec![0u8; 0x8000];
    let mut bus = Bus::new(get_mapper(&rom).unwrap());
    bus.mem_write(0xff07, 0x05);
    bus.mem_write(0xff05, 0xff);
    bus.mem_write(0xff06, 0x42);
    bus.tick(16);
    assert_eq!(bus.mem_read(0xff05), 0x42);
    assert_eq!(bus.mem_read(0xff0f) & 0x04, 0x04);
}

#[test]
fn test_divider_increments_every_256_cycles() {
    let rom = vec![0u8; 0x8000];
    let mut bus = Bus::new(get_mapper(&rom).unwrap());
    for _ in 0..16 {
        bus.tick(16);
    }
    assert_eq!(bus.mem_read(0xff04), 1);
}

#[test]
fn test_scanline_renders_palette_shades() {
    // LCDC = 0x91 (lcd on, bg on, unsigned tile data, map at 0x9800) with
    // tile 0's first row holding color indices 0, 1, 2, 3 and BGP =
    // 0b1110_0100: the first scanline starts with the four palette shades,
    // and an all-zero row would give shade 0 everywhere.
    let rom = vec![0u8; 0x8000];
    let mut bus = Bus::new(get_mapper(&rom).unwrap());
    // row 0 of tile 0: low plane 0x50, high plane 0x30
    bus.mem_write(0x8000, 0x50);
    bus.mem_write(0x8001, 0x30);
    bus.mem_write(0xff47, 0b1110_0100);
    bus.mem_write(0xff40, 0x91);
    // run into the drawing phase of scanline 0
    bus.tick(85);
    let px = |frame: &gbemu::render::Frame, x: usize| {
        (frame.data[x * 3], frame.data[x * 3 + 1], frame.data[x * 3 + 2])
    };
    assert_eq!(px(&bus.frame, 0), (155, 188, 15));
    assert_eq!(px(&bus.frame, 1), (139, 172, 15));
    assert_eq!(px(&bus.frame, 2), (48, 98, 48));
    assert_eq!(px(&bus.frame, 3), (15, 56, 15));
    // columns past the tile row read zero planes: shade 0
    assert_eq!(px(&bus.frame, 8), (155, 188, 15));
}

#[test]
fn test_vblank_after_full_frame() {
    // 154 scanlines of 456 T-cycles each complete one frame; the vertical
    // blank begins at scanline 144 and raises its interrupt.
    let rom = vec![0u8; 0x8000];
    let mut bus = Bus::new(get_mapper(&rom).unwrap());
    bus.mem_write(0xff40, 0x91);
    let mut frames = 0;
    for _ in 0..(154 * 5) {
        if bus.tick(100) {
            frames += 1;
        }
    }
    assert_eq!(frames, 1);
    assert_eq!(bus.mem_read(0xff0f) & 0x01, 0x01);
    assert!(bus.mem_read(0xff44) < 154);
}

#[test]
fn test_square_channel_tone() {
    // Power the audio on, set a 50 percent duty, full volume, and trigger
    // with the period 0x7C1: the channel reports enabled in NR52 and its
    // converter input alternates between 15 and 0, advancing one duty step
    // every 0x800 - 0x7C1 = 0x3F M-cycles after the first reload.
    let rom = vec![0u8; 0x8000];
    let mut bus = Bus::new(get_mapper(&rom).unwrap());
    bus.mem_write(0xff26, 0x80);
    bus.mem_write(0xff11, 0x80);
    bus.mem_write(0xff12, 0xf0);
    bus.mem_write(0xff13, 0xc1);
    bus.mem_write(0xff14, 0x87);
    // NR52's low nibble mirrors the channel-enabled booleans
    assert_eq!(bus.mem_read(0xff26) & 0x0f, 0x01);
    // duty step 0 of the 50 percent row is high
    assert_eq!(bus.apu.square1.output(), 15);
    // first underflow of the freshly loaded divider
    for _ in 0..0x7c1 {
        bus.apu.tick();
    }
    assert_eq!(bus.apu.square1.output(), 0);
    // four more duty steps land on the high half of the waveform
    for _ in 0..(0x3f * 4) {
        bus.apu.tick();
    }
    assert_eq!(bus.apu.square1.output(), 15);
    // samples appear every 23 M-cycles on the bus path
    let before = bus.audio_buffer.len();
    bus.tick(46);
    assert_eq!(bus.audio_buffer.len(), before + 2);
}

#[test]
fn test_apu_power_off_clears_registers() {
    let rom = vec![0u8; 0x8000];
    let mut bus = Bus::new(get_mapper(&rom).unwrap());
    bus.mem_write(0xff26, 0x80);
    bus.mem_write(0xff12, 0xf0);
    bus.mem_write(0xff25, 0xff);
    bus.mem_write(0xff26, 0x00);
    assert_eq!(bus.mem_read(0xff25), 0x00);
    assert_eq!(bus.mem_read(0xff12), 0x00);
    // powered off: most register writes are ignored
    bus.mem_write(0xff12, 0xa5);
    assert_eq!(bus.mem_read(0xff12), 0x00);
}

#[test]
fn test_dma_copies_page_into_oam() {
    // A DMA write copies the 160 bytes at the named page into the
    // object-attribute memory.
    let rom = vec![0u8; 0x8000];
    let mut bus = Bus::new(get_mapper(&rom).unwrap());
    for i in 0..160u16 {
        bus.mem_write(0xc200 + i, (i % 251) as u8);
    }
    bus.mem_write(0xff46, 0xc2);
    for i in 0..160u16 {
        assert_eq!(bus.mem_read(0xfe00 + i), (i % 251) as u8);
    }
}

#[test]
fn test_interrupt_dispatch_to_vector() {
    // With IME on, an enabled and requested timer interrupt pushes the
    // return address and jumps to 0x0050, clearing the request bit.
    let mut cpu = setup(vec![0x00, 0x76]);
    cpu.ime = true;
    cpu.stack_pointer = 0xcf00;
    cpu.bus.mem_write(0xffff, 0x04);
    cpu.bus.interrupt_flag.timer = true;
    cpu.step().unwrap();
    assert!(!cpu.ime);
    assert!(!cpu.bus.interrupt_flag.timer);
    assert_eq!(cpu.stack_pointer, 0xcefe);
    assert_eq!(cpu.bus.mem_read_u16(0xcefe), BASE);
}

#[test]
fn test_invalid_opcode_reported() {
    let mut cpu = setup(vec![0xd3]);
    let err = cpu.step().unwrap_err();
    assert_eq!(err.addr, BASE);
    assert_eq!(err.opcode, 0xd3);
}

#[test]
fn test_rom_loader_rejects_bad_images() {
    assert!(matches!(get_mapper(&[0u8; 0x100]), Err(CartridgeError::RomTooShort)));

    let mut rom = vec![0u8; 0x8000];
    rom[0x148] = 9;
    assert!(matches!(get_mapper(&rom), Err(CartridgeError::UnknownRomSize)));

    let mut rom = vec![0u8; 0x8000];
    rom[0x149] = 1;
    assert!(matches!(get_mapper(&rom), Err(CartridgeError::UnknownRamSize)));

    let mut rom = vec![0u8; 0x8000];
    rom[0x148] = 1;
    assert!(matches!(get_mapper(&rom), Err(CartridgeError::RomSizeMismatch)));

    let mut rom = vec![0u8; 0x8000];
    rom[0x147] = 5;
    assert!(matches!(get_mapper(&rom), Err(CartridgeError::UnknownMapper)));
}

#[test]
fn test_rom_reads_reach_the_image() {
    // The loaded image is served back through the fixed bank, so the loader
    // really carried the bytes over.
    let mut rng = rand::thread_rng();
    let mut rom = vec![0u8; 0x8000];
    for i in 0x200..0x240 {
        rom[i] = rng.gen::<u8>();
    }
    let cartridge = get_mapper(&rom).unwrap();
    let bus = Bus::new(cartridge);
    for i in 0x200..0x240 {
        assert_eq!(bus.mem_read(i as u16), rom[i]);
    }
}

#[test]
fn test_mbc1_bank_switch() {
    // A 64 KiB MBC1 image: selecting bank 2 routes the switchable region
    // to the third 16 KiB quarter of the image.
    let mut rom = vec![0u8; 0x10000];
    rom[0x147] = 1;
    rom[0x148] = 1;
    rom[0x4000] = 0x11;
    rom[0x8000] = 0x22;
    let cartridge = get_mapper(&rom).unwrap();
    let mut bus = Bus::new(cartridge);
    assert_eq!(bus.mem_read(0x4000), 0x11);
    bus.mem_write(0x2000, 0x02);
    assert_eq!(bus.mem_read(0x4000), 0x22);
    // bank zero is redirected to one
    bus.mem_write(0x2000, 0x00);
    assert_eq!(bus.mem_read(0x4000), 0x11);
}

#[test]
fn test_mbc3_ram_enable_gate() {
    let mut rom = vec![0u8; 0x8000];
    rom[0x147] = 0x13;
    rom[0x149] = 0x03;
    let cartridge = get_mapper(&rom).unwrap();
    let mut bus = Bus::new(cartridge);
    // disabled RAM reads as ones and ignores writes
    bus.mem_write(0xa000, 0x5a);
    assert_eq!(bus.mem_read(0xa000), 0xff);
    bus.mem_write(0x0000, 0x0a);
    bus.mem_write(0xa000, 0x5a);
    assert_eq!(bus.mem_read(0xa000), 0x5a);
}

#[test]
fn test_joypad_press_and_read() {
    let rom = vec![0u8; 0x8000];
    let mut bus = Bus::new(get_mapper(&rom).unwrap());
    // select the directional group (its mode bit low) and press right
    bus.mem_write(0xff00, 0x20);
    bus.joypad.button_pressed_status(false, 0x01, true);
    assert_eq!(bus.mem_read(0xff00), 0xc0 | 0x20 | 0x0e);
    bus.tick(1);
    assert_eq!(bus.mem_read(0xff0f) & 0x10, 0x10);
    bus.joypad.button_pressed_status(false, 0x01, false);
    assert_eq!(bus.mem_read(0xff00), 0xc0 | 0x20 | 0x0f);
}

#[test]
fn test_add_then_sub_restores_accumulator() {
    let (sum, f1) = alu::add8(0x30, 0x25, false);
    let (back, f2) = alu::sub8(sum, 0x25, false);
    assert_eq!(back, 0x30);
    assert!(!f1.carry);
    assert!(!f2.carry);
}

#[test]
fn test_swap_twice_restores_byte() {
    let (once, _) = alu::swap(0xab);
    assert_eq!(once, 0xba);
    let (twice, f) = alu::swap(once);
    assert_eq!(twice, 0xab);
    assert!(!f.zero);
}

#[test]
fn test_rlc_eight_times_restores_byte() {
    let mut v: u8 = 0x5a;
    let mut carry = true;
    for _ in 0..8 {
        let (nv, f) = alu::rlc(v);
        v = nv;
        carry = f.carry;
    }
    assert_eq!(v, 0x5a);
    // the final carry is bit 0 of the original byte
    assert!(!carry);
}

#[test]
fn test_daa_adjusts_decimal_sums() {
    // 19 + 28 = 47 in decimal
    let (s, f) = alu::add8(0x19, 0x28, false);
    let (d, df) = alu::daa(s, f);
    assert_eq!(d, 0x47);
    assert!(!df.carry);
    // 91 + 19 = 110, kept modulo 100 with the carry set
    let (s, f) = alu::add8(0x91, 0x19, false);
    let (d, df) = alu::daa(s, f);
    assert_eq!(d, 0x10);
    assert!(df.carry);
    // 20 - 05 = 15 in decimal
    let (s, f) = alu::sub8(0x20, 0x05, false);
    let (d, df) = alu::daa(s, f);
    assert_eq!(d, 0x15);
    assert!(!df.carry);
}

#[test]
fn test_xor_a_with_itself_clears() {
    // XOR A, A through the processor: A becomes zero with only Z set.
    let mut cpu = setup(vec![0xaf, 0x76]);
    cpu.a = 0x77;
    cpu.step().unwrap();
    assert_eq!(cpu.a, 0);
    assert_eq!(cpu.flags.bits(), 0x80);
}

#[test]
fn test_prefixed_swap_and_bit() {
    // CB 37 swaps A's nibbles; CB 7F tests bit 7 of A.
    let mut cpu = setup(vec![0xcb, 0x37, 0xcb, 0x7f, 0x76]);
    cpu.a = 0x1f;
    cpu.step().unwrap(); // prefix
    cpu.step().unwrap(); // swap
    assert_eq!(cpu.a, 0xf1);
    cpu.step().unwrap(); // prefix
    cpu.step().unwrap(); // bit 7, which is set: Z stays clear
    assert!(!cpu.flags.zero);
    assert!(cpu.flags.half_carry);
}

#[test]
fn test_conditional_jump_costs_extra_cycle() {
    // JR NZ taken costs 3 M-cycles, not taken 2.
    let mut cpu = setup(vec![0x20, 0x02, 0x76, 0x00, 0x76]);
    cpu.flags.zero = false;
    let taken = cpu.step().unwrap();
    assert_eq!(taken, 3);
    assert_eq!(cpu.program_counter, BASE + 4);

    let mut cpu = setup(vec![0x20, 0x02, 0x76, 0x00, 0x76]);
    cpu.flags.zero = true;
    let skipped = cpu.step().unwrap();
    assert_eq!(skipped, 2);
    assert_eq!(cpu.program_counter, BASE + 2);
}

#[test]
fn test_wave_ram_readback() {
    let rom = vec![0u8; 0x8000];
    let mut bus = Bus::new(get_mapper(&rom).unwrap());
    bus.mem_write(0xff30, 0x12);
    assert_eq!(bus.mem_read(0xff30), 0x12);
}

#[test]
fn test_mapper_trait_reads_match_bus() {
    let mut rom = vec![0u8; 0x8000];
    rom[0x123] = 0x77;
    let cartridge = get_mapper(&rom).unwrap();
    assert_eq!(cartridge.read_bank0(0x123), 0x77);
}
