// The load-instruction tests. Each test assembles a small program, places it
// in work RAM at 0xC000 (cartridge ROM is read-only, so programs that store
// through absolute addresses use relocated operands), points the program
// counter at it and runs to the halt instruction.

use gbemu::bus::Bus;
use gbemu::cartridge::get_mapper;
use gbemu::cpu::Cpu;
use rand::Rng;

const BASE: u16 = 0xc000;

fn setup(program: Vec<u8>) -> Cpu {
    let rom = vec![0u8; 0x8000];
    let cartridge = get_mapper(&rom).unwrap();
    let bus = Bus::new(cartridge);
    let mut cpu = Cpu::new(bus);
    for (i, byte) in program.iter().enumerate() {
        cpu.bus.mem_write(BASE + i as u16, *byte);
    }
    cpu.program_counter = BASE;
    cpu
}

#[test]
fn test_ld_r8_r8() {
    let mut rng = rand::thread_rng();
    for i in 0..8 {
        for j in 0..8 {
            // skip opcode 0x76 and the [hl] slot
            if (i != 6) && (j != 6) {
                let prg = vec![64 + 8 * i + j, 0x00, 0x76];
                let mut cpu = setup(prg);
                let mut value = rng.gen::<u8>();
                let status = cpu.flags.clone();
                // keep HL pointing at the halt byte so slot 6 stays harmless;
                // the H and L sources then carry the address bytes.
                cpu.set_hl(BASE + 2);
                if j == 4 {
                    value = 0xc0;
                } else if j == 5 {
                    value = 0x02;
                } else {
                    cpu.r8_write(j, value);
                }
                cpu.run().unwrap();

                assert_eq!(cpu.r8_read(i), value);
                assert_eq!(cpu.flags, status);
            }
        }
    }
}

#[test]
fn test_ld_r8_imm8() {
    let mut rng = rand::thread_rng();
    for i in 0..8 {
        let value = rng.gen::<u8>();
        let prg = vec![8 * i + 6, value, 0x76];
        let mut cpu = setup(prg);
        cpu.set_hl(BASE + 3); // point HL past the program for the [hl] slot
        let status = cpu.flags.bits();
        cpu.run().unwrap();

        assert_eq!(cpu.r8_read(i), value);
        assert_eq!(cpu.flags.bits(), status);
    }
}

#[test]
fn test_ld_r16_imm16() {
    let mut rng = rand::thread_rng();
    for i in 0..4 {
        let lo = rng.gen::<u8>();
        let hi = rng.gen::<u8>();
        let prg = vec![16 * i + 1, lo, hi, 0x76];
        println!("program: {:?}", prg);
        let mut cpu = setup(prg);
        let status = cpu.flags.bits();
        cpu.run().unwrap();

        assert_eq!(cpu.r16_read(i), u16::from_le_bytes([lo, hi]));
        assert_eq!(cpu.flags.bits(), status);
    }
}

#[test]
fn test_ld_r16_a() {
    let mut rng = rand::thread_rng();
    for i in 0..4 {
        let value = rng.gen::<u8>();
        // 0x3e loads A with an imm8
        let prg = vec![0x3e, value, 16 * i + 2, 0x76, 0x76, 0x76, 0x76];
        println!("program: {:?}", prg);
        let mut cpu = setup(prg);
        // scratch RAM past the program for every indirect slot
        cpu.set_bc(BASE + 0x100);
        cpu.set_de(BASE + 0x100);
        cpu.set_hl(BASE + 0x100);
        let status = cpu.flags.bits();
        cpu.run().unwrap();

        // Since HL+ and HL- change HL, go back to the written address.
        let target = if i == 2 {
            cpu.bus.mem_read(cpu.get_hl() - 1)
        } else if i == 3 {
            cpu.bus.mem_read(cpu.get_hl() + 1)
        } else {
            cpu.r16mem_read(i)
        };

        assert_eq!(target, value);
        assert_eq!(cpu.flags.bits(), status);
    }
}

#[test]
fn test_ld_a_r16() {
    let mut rng = rand::thread_rng();
    for i in 0..4 {
        let value = rng.gen::<u8>();
        let prg = vec![16 * i + 10, 0x76, 0x76, value, 0x76];
        println!("program: {:?}", prg);
        let mut cpu = setup(prg);
        cpu.set_bc(BASE + 3);
        cpu.set_de(BASE + 3);
        cpu.set_hl(BASE + 3);
        let status = cpu.flags.bits();
        cpu.run().unwrap();

        assert_eq!(cpu.a, value);
        assert_eq!(cpu.flags.bits(), status);
    }
}

#[test]
fn test_ld_a_imm16() {
    let mut rng = rand::thread_rng();
    let value = rng.gen::<u8>();
    let prg = vec![0xfa, 0x05, 0xc0, 0x00, 0x76, value];
    let mut cpu = setup(prg);
    let status = cpu.flags.bits();
    cpu.run().unwrap();

    assert_eq!(cpu.a, value);
    assert_eq!(cpu.flags.bits(), status);
}

#[test]
fn test_ld_imm16_a() {
    let mut rng = rand::thread_rng();
    let value = rng.gen::<u8>();
    // 0x3e loads a with imm8
    let prg = vec![0x3e, value, 0xea, 0x06, 0xc0, 0x76, 0x76];
    let mut cpu = setup(prg);
    let status = cpu.flags.bits();
    cpu.run().unwrap();

    assert_eq!(cpu.bus.mem_read(0xc006), value);
    assert_eq!(cpu.flags.bits(), status);
}

#[test]
fn test_ld_imm16_sp() {
    let mut rng = rand::thread_rng();
    let value1 = rng.gen::<u8>();
    let value2 = rng.gen::<u8>();
    let prg = vec![0x08, 0x04, 0xc0, 0x76, value1, value2];
    let mut cpu = setup(prg);
    let status = cpu.flags.bits();
    cpu.run().unwrap();

    assert_eq!(cpu.bus.mem_read_u16(0xc004), 0xfffe);
    assert_eq!(cpu.flags.bits(), status);
}

#[test]
fn test_ld_hl_spimm8() {
    let prg = vec![0xf8, 0x01, 0x76];
    let mut cpu = setup(prg);
    let status = cpu.flags.bits();
    println!("SP: {}", cpu.stack_pointer);
    cpu.run().unwrap();

    assert_eq!(cpu.get_hl(), 0xffff);
    assert_eq!(cpu.flags.bits(), status);

    // test negative behavior
    let prg = vec![0xf8, 0xf1, 0x76]; // offset = -0x0f
    let mut cpu = setup(prg);
    let status = cpu.flags.bits();
    cpu.run().unwrap();

    assert_eq!(cpu.get_hl(), 0xffef);
    assert_eq!(cpu.flags.bits(), status | 0b0001_0000); // There is a carry in the sum
}

#[test]
fn test_ld_sp_hl() {
    let mut rng = rand::thread_rng();
    let value1 = rng.gen::<u8>();
    let value2 = rng.gen::<u8>();
    // 0x21 loads imm16 into Reg HL.
    let prg = vec![0x21, value1, value2, 0xf9, 0x76];
    let mut cpu = setup(prg);
    let status = cpu.flags.bits();
    cpu.run().unwrap();

    assert_eq!(cpu.stack_pointer, u16::from_le_bytes([value1, value2]));
    assert_eq!(cpu.flags.bits(), status);
}
