use nestle::address_mode::{AddressKind, AddressMode};
use nestle::cursor::ByteCursor;
use nestle::instructions::{Instruction, InstructionConstruct, ADC, AND, BCC, BRK, JMP, LDX, NOP};
use nestle::iter::{dump, listing, opcodes};
use nestle::mnemonic::Mnemonic;
use nestle::opcode::Opcode;
use nestle::table::lookup;

#[test]
fn test_adc() {
    println!("{}", ADC::from_bytes(b"\x69\xc4").unwrap().format());
    assert_eq!(
        ADC::from_bytes(b"\x69\x01").unwrap(),
        ADC(AddressMode::Immediate(0x01))
    );
    assert_eq!(
        ADC::from_bytes(b"\x65\x01").unwrap(),
        ADC(AddressMode::Zero(0x01))
    );
    assert_eq!(
        ADC::from_bytes(b"\x75\x01").unwrap(),
        ADC(AddressMode::ZeroX(0x01))
    );
    assert_eq!(
        ADC::from_bytes(b"\x6D\x01\x02").unwrap(),
        ADC(AddressMode::Absolute(0x0201))
    );
    assert_eq!(
        ADC::from_bytes(b"\x7D\x01\x02").unwrap(),
        ADC(AddressMode::AbsoluteX(0x0201))
    );
    assert_eq!(
        ADC::from_bytes(b"\x79\x01\x02").unwrap(),
        ADC(AddressMode::AbsoluteY(0x0201))
    );
}

#[test]
fn test_simple() {
    let input = b"\xa2\x08\xca\x8e\x00\x02\xe0\x03\xd0\xf8\x8e\x01\x02\x00";
    let lines = listing(&dump(input.to_vec()));
    for line in &lines {
        println!("{}", line);
    }
    assert_eq!(
        lines,
        vec![
            "$0000 LDX #$08",
            "$0002 DEX",
            "$0003 STX $0200",
            "$0006 CPX #$03",
            "$0008 BNE -$08",
            "$000a STX $0201",
            "$000d BRK",
        ]
    );
}

#[test]
fn adc_indirect_modes() {
    assert_eq!(
        ADC::from_bytes(b"\x61\x10").unwrap(),
        ADC(AddressMode::IndirectX(0x10))
    );
    assert_eq!(
        ADC::from_bytes(b"\x71\x10").unwrap(),
        ADC(AddressMode::IndirectY(0x10))
    );
}

#[test]
fn the_table_has_151_entries() {
    let mut count = 0;
    for byte in 0..=255u8 {
        if lookup(byte).is_some() {
            count += 1;
        }
    }
    assert_eq!(count, 151);
}

#[test]
fn table_entries_are_pairwise_distinct() {
    let mut seen: Vec<(Mnemonic, AddressKind)> = Vec::new();
    for byte in 0..=255u8 {
        if let Some(entry) = lookup(byte) {
            assert!(!seen.contains(&entry), "entry of {:#04x} occurs twice", byte);
            seen.push(entry);
        }
    }
}

#[test]
fn a_byte_with_its_operand_decodes_exactly_when_it_has_an_entry() {
    for byte in 0..=255u8 {
        let buffer = [byte, 0x12, 0x34];
        let mut cursor = ByteCursor::new(&buffer);
        let decoded = Opcode::from_peekable(&mut cursor);
        assert_eq!(decoded.is_some(), lookup(byte).is_some());
        match (decoded, lookup(byte)) {
            (Some(op), Some((mnemonic, kind))) => {
                assert_eq!(op.tag(), mnemonic);
                assert_eq!(op.address_mode().kind(), kind);
                assert_eq!(cursor.remaining(), 3 - op.size() as usize);
            }
            _ => assert_eq!(cursor.remaining(), 3),
        }
    }
}

#[test]
fn a_byte_alone_decodes_exactly_when_its_entry_takes_no_operand() {
    for byte in 0..=255u8 {
        let buffer = [byte];
        let decoded = dump(buffer.to_vec());
        let expected = match lookup(byte) {
            Some((_, kind)) => kind.size() == 1,
            None => false,
        };
        assert_eq!(decoded.len() == 1, expected);
    }
}

#[test]
fn an_illegal_opcode_ends_the_decoding() {
    assert_eq!(lookup(0x02), None);
    let decoded = dump(vec![0xEA, 0x02, 0xEA]);
    assert_eq!(decoded, vec![Opcode::NOP(NOP(AddressMode::Implicit))]);
    let mut cursor = ByteCursor::new(&[0x02, 0xEA]);
    assert_eq!(Opcode::from_peekable(&mut cursor), None);
    assert_eq!(cursor.remaining(), 2);
    assert_eq!(cursor.peek(), Some(0x02));
}

#[test]
fn a_cut_off_operand_ends_the_decoding() {
    assert_eq!(ADC::from_bytes(b"\x69"), None);
    assert_eq!(ADC::from_bytes(b"\x6D\x01"), None);
    assert_eq!(JMP::from_bytes(b"\x6C"), None);
    let decoded = dump(vec![0xEA, 0x6D, 0x01]);
    assert_eq!(decoded, vec![Opcode::NOP(NOP(AddressMode::Implicit))]);
    let mut cursor = ByteCursor::new(&[0x6D, 0x01]);
    assert_eq!(Opcode::from_peekable(&mut cursor), None);
    assert_eq!(cursor.remaining(), 2);
}

#[test]
fn an_empty_buffer_holds_no_instruction() {
    assert_eq!(dump(Vec::new()), Vec::<Opcode>::new());
    assert_eq!(ADC::from_bytes(b""), None);
    let mut cursor = ByteCursor::new(&[]);
    assert_eq!(Opcode::from_peekable(&mut cursor), None);
}

#[test]
fn a_type_decodes_only_its_own_mnemonic() {
    assert_eq!(AND::from_bytes(b"\x69\x01"), None);
    assert_eq!(
        AND::from_bytes(b"\x29\x01"),
        Some(AND(AddressMode::Immediate(0x01)))
    );
    let buffer = [0x69, 0x01];
    let mut cursor = ByteCursor::new(&buffer);
    assert_eq!(AND::from_peekable(&mut cursor), None);
    assert_eq!(cursor.remaining(), 2);
    assert_eq!(
        ADC::from_peekable(&mut cursor),
        Some(ADC(AddressMode::Immediate(0x01)))
    );
    assert_eq!(cursor.remaining(), 0);
}

#[test]
fn words_are_little_endian() {
    assert_eq!(
        JMP::from_bytes(b"\x4C\x34\x12"),
        Some(JMP(AddressMode::Absolute(0x1234)))
    );
    assert_eq!(
        JMP::from_bytes(b"\x6C\xFF\x00"),
        Some(JMP(AddressMode::Indirect(0x00FF)))
    );
    assert_eq!(
        LDX::from_bytes(b"\xBE\xFF\xFF"),
        Some(LDX(AddressMode::AbsoluteY(0xFFFF)))
    );
}

#[test]
fn branch_offsets_are_signed() {
    assert_eq!(
        BCC::from_bytes(b"\x90\x7F"),
        Some(BCC(AddressMode::Relative(127)))
    );
    assert_eq!(
        BCC::from_bytes(b"\x90\x80"),
        Some(BCC(AddressMode::Relative(-128)))
    );
    assert_eq!(
        BCC::from_bytes(b"\x90\xFF"),
        Some(BCC(AddressMode::Relative(-1)))
    );
    assert_eq!(
        BCC::from_bytes(b"\x90\x00"),
        Some(BCC(AddressMode::Relative(0)))
    );
}

#[test]
fn sizes_follow_the_addressing_mode() {
    assert_eq!(AddressMode::Implicit.size(), 1);
    assert_eq!(AddressMode::Accumulator.size(), 1);
    assert_eq!(AddressMode::Immediate(0xFF).size(), 2);
    assert_eq!(AddressMode::Zero(0).size(), 2);
    assert_eq!(AddressMode::ZeroX(1).size(), 2);
    assert_eq!(AddressMode::ZeroY(2).size(), 2);
    assert_eq!(AddressMode::Relative(-3).size(), 2);
    assert_eq!(AddressMode::Absolute(0).size(), 3);
    assert_eq!(AddressMode::AbsoluteX(0xFFFF).size(), 3);
    assert_eq!(AddressMode::AbsoluteY(7).size(), 3);
    assert_eq!(AddressMode::Indirect(8).size(), 3);
    assert_eq!(AddressMode::IndirectX(9).size(), 2);
    assert_eq!(AddressMode::IndirectY(10).size(), 2);
    assert_eq!(Opcode::BRK(BRK(AddressMode::Implicit)).size(), 1);
    assert_eq!(ADC(AddressMode::Absolute(1)).size(), 3);
    for byte in 0..=255u8 {
        assert_eq!(AddressMode::Immediate(byte).size(), 2);
    }
}

#[test]
fn names_are_the_mnemonics() {
    assert_eq!(ADC(AddressMode::Implicit).name(), "ADC");
    assert_eq!(NOP(AddressMode::Implicit).name(), "NOP");
    assert_eq!(Mnemonic::TYA.name(), "TYA");
    assert_eq!(Mnemonic::BRK.name(), "BRK");
}

#[test]
fn the_lazy_sequence_yields_one_instruction_at_a_time() {
    let buffer = [0xA2, 0x08, 0xCA, 0x02, 0xEA];
    let mut iter = opcodes(ByteCursor::new(&buffer));
    assert_eq!(
        iter.next(),
        Some(Opcode::LDX(LDX(AddressMode::Immediate(0x08))))
    );
    assert_eq!(iter.next().map(|op| op.tag()), Some(Mnemonic::DEX));
    assert_eq!(iter.next(), None);
    assert_eq!(iter.next(), None);
}

#[test]
fn the_lazy_sequence_starts_at_the_cursor() {
    let buffer = [0x02, 0xEA, 0xEA];
    let mut cursor = ByteCursor::new(&buffer);
    assert_eq!(cursor.next(), Some(0x02));
    let mut iter = opcodes(cursor);
    assert_eq!(iter.next(), Some(Opcode::NOP(NOP(AddressMode::Implicit))));
    assert_eq!(iter.next(), Some(Opcode::NOP(NOP(AddressMode::Implicit))));
    assert_eq!(iter.next(), None);
}

#[test]
fn decoding_twice_gives_the_same_instructions() {
    let input = b"\xa2\x08\xca\x8e\x00\x02\xe0\x03\xd0\xf8\x8e\x01\x02\x00".to_vec();
    let first = dump(input.clone());
    let second = dump(input.clone());
    assert_eq!(first, second);
    assert_eq!(first.len(), 7);
    let mut iter = opcodes(ByteCursor::new(&input));
    let mut lazy = Vec::new();
    while let Some(op) = iter.next() {
        lazy.push(op);
    }
    assert_eq!(lazy, first);
    assert_eq!(listing(&first), listing(&second));
}

#[test]
fn from_parts_builds_the_variant_of_the_mnemonic() {
    let op = Opcode::from_parts(Mnemonic::ADC, AddressMode::Zero(3));
    assert_eq!(op, Opcode::ADC(ADC(AddressMode::Zero(3))));
    assert_eq!(op.tag(), Mnemonic::ADC);
    assert_eq!(op.address_mode(), AddressMode::Zero(3));
}

#[test]
fn the_cursor_moves_forward_only() {
    let buffer = [1u8, 2, 3];
    let mut cursor = ByteCursor::new(&buffer);
    assert_eq!(cursor.remaining(), 3);
    assert_eq!(cursor.peek(), Some(1));
    assert_eq!(cursor.peek_at(2), Some(3));
    assert_eq!(cursor.peek_at(3), None);
    assert_eq!(cursor.next(), Some(1));
    cursor.advance(1);
    assert_eq!(cursor.next(), Some(3));
    assert_eq!(cursor.next(), None);
    assert_eq!(cursor.peek(), None);
    assert_eq!(cursor.remaining(), 0);
}
