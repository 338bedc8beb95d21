use nestle::cpu::{LoadError, CPU};
use nestle::ines::{Ines, InesError, InesHeader};
use nestle::mapper::{Mapper, MapperError, NROM};
use nestle::register::{
    Registers, Status, BREAK, CARRY, DECIMAL, INTERRUPT_DISABLED, NEGATIVE, OVERFLOW, ZERO,
};

fn image_with_prg(prg: Vec<u8>) -> Ines {
    Ines {
        prg,
        ..Default::default()
    }
}

fn counting_bytes(count: usize) -> Vec<u8> {
    let mut bytes = Vec::new();
    for index in 0..count {
        bytes.push((index % 251) as u8);
    }
    bytes
}

#[test]
fn one_bank_is_seen_in_both_halves_of_the_window() {
    let prg = counting_bytes(16384);
    let memory = NROM::map_image(image_with_prg(prg.clone())).ok().unwrap();
    for addr in 0x8000..=0xBFFFu16 {
        assert_eq!(memory.read_u8(addr), memory.read_u8(addr + 0x4000));
        assert_eq!(memory.read_u8(addr), prg[addr as usize - 0x8000]);
    }
    for addr in 0x0000..=0x7FFFu16 {
        assert_eq!(memory.read_u8(addr), 0);
    }
}

#[test]
fn two_banks_fill_the_window() {
    let prg = counting_bytes(32768);
    let memory = NROM::map_image(image_with_prg(prg.clone())).ok().unwrap();
    for addr in 0x8000..=0xFFFFu16 {
        assert_eq!(memory.read_u8(addr), prg[addr as usize - 0x8000]);
    }
    assert_ne!(memory.read_u8(0x8000), memory.read_u8(0xC000));
    assert_eq!(memory.read_u8(0x7FFF), 0);
}

#[test]
fn the_program_window_rejects_writes() {
    for size in [16384usize, 32768] {
        let mut memory = NROM::map_image(image_with_prg(vec![3; size])).ok().unwrap();
        for addr in [0x8000u16, 0x8001, 0xBFFF, 0xC000, 0xFFFE, 0xFFFF] {
            assert!(memory.write_u8(addr, 1).is_err());
            assert_eq!(memory.read_u8(addr), 3);
        }
        assert!(memory.write_u16(0x8000, 0x0101).is_err());
        assert!(memory.write_u16(0xFFFE, 0x0101).is_err());
        assert!(memory.write_u16(0x7FFF, 0x0101).is_err());
        assert_eq!(memory.read_u8(0x7FFF), 0);
        assert_eq!(memory.read_u8(0x8000), 3);
        assert!(memory.write_u8(0x7FFF, 1).is_ok());
        assert!(memory.write_u16(0x0000, 0x0101).is_ok());
        assert_eq!(memory.read_u8(0x7FFF), 1);
    }
}

#[test]
fn other_program_sizes_are_not_supported() {
    for size in [0usize, 1, 16383, 16385, 32767, 32769, 49152, 65536] {
        let result = NROM::map_image(image_with_prg(vec![0; size]));
        assert!(matches!(result, Err(MapperError::UnsupportedPrgSize)));
    }
}

#[test]
fn the_program_counter_starts_at_the_reset_vector() {
    let mut prg = vec![0u8; 16384];
    prg[0x3FFC] = 0x34;
    prg[0x3FFD] = 0x80;
    let mut rom = InesHeader::default().dump();
    rom.extend_from_slice(&prg);
    let cpu = CPU::from_bytes(&rom).ok().unwrap();
    assert_eq!(cpu.registers, Registers::with_pc(0x8034));
    assert_eq!(cpu.memory.read_u16(0xFFFC), 0x8034);
    assert_eq!(cpu.memory.read_u16(0xBFFC), 0x8034);

    let mut prg = vec![0u8; 32768];
    prg[0x7FFC] = 0xCD;
    prg[0x7FFD] = 0xAB;
    let cpu = CPU::from_image(image_with_prg(prg)).ok().unwrap();
    assert_eq!(cpu.registers.pc, 0xABCD);
    assert_eq!(cpu.memory.read_u16(0xBFFC), 0);
}

#[test]
fn a_cartridge_that_cannot_be_loaded_says_why() {
    assert!(matches!(
        CPU::from_bytes(b"not a cartridge"),
        Err(LoadError::Format(InesError::BadMagic))
    ));
    assert!(matches!(
        CPU::from_bytes(b"NES\x1a"),
        Err(LoadError::Format(InesError::UnexpectedEof))
    ));
    let header = InesHeader {
        prg_size: 3,
        ..Default::default()
    };
    let mut rom = header.dump();
    rom.extend_from_slice(&vec![0u8; 3 * 16384]);
    assert!(matches!(
        CPU::from_bytes(&rom),
        Err(LoadError::Mapper(MapperError::UnsupportedPrgSize))
    ));
    assert!(matches!(
        CPU::from_image(image_with_prg(Vec::new())),
        Err(MapperError::UnsupportedPrgSize)
    ));
}

#[test]
fn registers_start_at_their_power_on_values() {
    let registers = Registers::with_pc(0x1234);
    assert_eq!(registers.pc, 0x1234);
    assert_eq!(registers.stack, 0xFD);
    assert_eq!(registers.acc, 0);
    assert_eq!(registers.idx_x, 0);
    assert_eq!(registers.idx_y, 0);
    assert_eq!(registers.status, Status::empty());
    assert!(registers.status.is_empty());

    let default = Registers::default();
    assert_eq!(default.pc, 0x34);
    assert_eq!(default, Registers::with_pc(0x34));
}

#[test]
fn each_status_flag_has_its_bit() {
    assert_eq!(Status::empty().bits(), 0);
    for mask in [
        CARRY,
        ZERO,
        INTERRUPT_DISABLED,
        DECIMAL,
        BREAK,
        OVERFLOW,
        NEGATIVE,
    ] {
        assert!(!Status::empty().contains(mask));
        assert!(Status { bits: mask }.contains(mask));
        assert!(Status { bits: 0x7F }.contains(mask));
        assert_eq!(mask.count_ones(), 1);
    }
    let status = Status {
        bits: CARRY | NEGATIVE,
    };
    assert!(status.carry());
    assert!(status.negative());
    assert!(!status.zero());
    assert!(!status.interrupt_disabled());
    assert!(!status.decimal());
    assert!(!status.brk());
    assert!(!status.overflow());
    assert!(status.contains(CARRY | NEGATIVE));
    assert!(!status.contains(CARRY | ZERO));
    assert_eq!(status.bits(), 0b0100_0001);
    let all = Status { bits: 0x7F };
    assert!(all.zero() && all.interrupt_disabled() && all.decimal() && all.brk() && all.overflow());
}
