use nestle::address_mode::AddressMode;
use nestle::format::{format_instruction, format_operand};
use nestle::hex::{to_hex, to_hex_upper};
use nestle::hexdump::{format_bytes, hex_dump};
use nestle::instructions::{Instruction, ADC, ASL, BNE, JMP, LDA, LDX, NOP, STA};
use nestle::iter::listing;
use nestle::mnemonic::Mnemonic;
use nestle::opcode::Opcode;

#[test]
fn each_addressing_mode_has_its_syntax() {
    assert_eq!(NOP(AddressMode::Implicit).format(), "NOP");
    assert_eq!(ASL(AddressMode::Accumulator).format(), "ASL");
    assert_eq!(ADC(AddressMode::Immediate(0xC4)).format(), "ADC #$c4");
    assert_eq!(ADC(AddressMode::Zero(0x01)).format(), "ADC $01");
    assert_eq!(ADC(AddressMode::ZeroX(0xAB)).format(), "ADC $ab, X");
    assert_eq!(LDX(AddressMode::ZeroY(0x0F)).format(), "LDX $0f, Y");
    assert_eq!(ADC(AddressMode::Absolute(0x0201)).format(), "ADC $0201");
    assert_eq!(ADC(AddressMode::AbsoluteX(0xBEEF)).format(), "ADC $beef, X");
    assert_eq!(ADC(AddressMode::AbsoluteY(0x000A)).format(), "ADC $000a, Y");
    assert_eq!(JMP(AddressMode::Indirect(0xFFFC)).format(), "JMP $fffc");
    assert_eq!(LDA(AddressMode::IndirectX(0x20)).format(), "LDA $20, X");
    assert_eq!(STA(AddressMode::IndirectY(0x00)).format(), "STA $00, Y");
}

#[test]
fn branch_offsets_show_their_sign() {
    assert_eq!(BNE(AddressMode::Relative(0)).format(), "BNE $00");
    assert_eq!(BNE(AddressMode::Relative(5)).format(), "BNE $05");
    assert_eq!(BNE(AddressMode::Relative(127)).format(), "BNE $7f");
    assert_eq!(BNE(AddressMode::Relative(-1)).format(), "BNE -$01");
    assert_eq!(BNE(AddressMode::Relative(-8)).format(), "BNE -$08");
    assert_eq!(BNE(AddressMode::Relative(-128)).format(), "BNE -$80");
}

#[test]
fn an_opcode_formats_like_its_instruction() {
    let op = Opcode::ADC(ADC(AddressMode::Immediate(0x01)));
    assert_eq!(op.format(), "ADC #$01");
    assert_eq!(op.format(), ADC(AddressMode::Immediate(0x01)).format());
    assert_eq!(op.format(), op.format());
    assert_eq!(
        format_instruction(Mnemonic::ADC, AddressMode::Immediate(0x01)),
        "ADC #$01"
    );
    assert_eq!(format_operand(AddressMode::Immediate(0x01)), " #$01");
    assert_eq!(format_operand(AddressMode::Implicit), "");
}

#[test]
fn hexadecimal_is_lowercase_and_padded() {
    assert_eq!(to_hex(0, 0), "0");
    assert_eq!(to_hex(0, 1), "0");
    assert_eq!(to_hex(0, 2), "00");
    assert_eq!(to_hex(0, 4), "0000");
    assert_eq!(to_hex(0xF, 2), "0f");
    assert_eq!(to_hex(0xFF, 2), "ff");
    assert_eq!(to_hex(0xABC, 2), "abc");
    assert_eq!(to_hex(0xABC, 4), "0abc");
    assert_eq!(to_hex(0x1234_5678_9ABC_DEF0, 4), "123456789abcdef0");
    assert_eq!(to_hex(u128::MAX, 0), "f".repeat(32));
    assert_eq!(to_hex(5, 7), "0000005");
    for value in 0..=0xFFFFu128 {
        assert_eq!(to_hex(value, 4), format!("{:04x}", value));
    }
    for value in 0..=0xFFu128 {
        assert_eq!(to_hex(value, 2), format!("{:02x}", value));
    }
}

#[test]
fn listing_addresses_add_up_the_sizes() {
    let ops = vec![
        Opcode::NOP(NOP(AddressMode::Implicit)),
        Opcode::ADC(ADC(AddressMode::Absolute(0x1234))),
        Opcode::ADC(ADC(AddressMode::Immediate(0x01))),
        Opcode::NOP(NOP(AddressMode::Implicit)),
    ];
    assert_eq!(
        listing(&ops),
        vec!["$0000 NOP", "$0001 ADC $1234", "$0004 ADC #$01", "$0006 NOP"]
    );
    assert_eq!(listing(&[]), Vec::<String>::new());
}

#[test]
fn listing_addresses_grow_past_four_digits() {
    let ops = vec![Opcode::NOP(NOP(AddressMode::Implicit)); 0x10001];
    let lines = listing(&ops);
    assert_eq!(lines.len(), 0x10001);
    assert_eq!(lines[0xFFFF], "$ffff NOP");
    assert_eq!(lines[0x10000], "$10000 NOP");
}

#[test]
fn uppercase_hexadecimal_has_uppercase_letters() {
    assert_eq!(to_hex_upper(0, 4), "0000");
    assert_eq!(to_hex_upper(0xABCDEF, 4), "ABCDEF");
    assert_eq!(to_hex_upper(0x9A, 4), "009A");
    for value in 0..=0xFFFu128 {
        assert_eq!(to_hex_upper(value, 4), format!("{:04X}", value));
    }
}

#[test]
fn bytes_are_separated_by_spaces() {
    assert_eq!(format_bytes(&[]), "");
    assert_eq!(format_bytes(&[0xAB]), "ab");
    assert_eq!(format_bytes(&[0x00, 0x0F, 0xFF]), "00 0f ff");
}

#[test]
fn a_dump_has_sixteen_bytes_to_a_row() {
    assert_eq!(hex_dump(&[], 0x8000), Vec::<String>::new());
    assert_eq!(hex_dump(&[1, 2, 3], 0x8000), vec!["8000: 01 02 03"]);
    let bytes: Vec<u8> = (0..33).collect();
    assert_eq!(
        hex_dump(&bytes, 0xFFE0),
        vec![
            "FFE0: 00 01 02 03 04 05 06 07 08 09 0a 0b 0c 0d 0e 0f",
            "FFF0: 10 11 12 13 14 15 16 17 18 19 1a 1b 1c 1d 1e 1f",
            "10000: 20",
        ]
    );
    assert_eq!(hex_dump(&[0u8; 32], 0).len(), 2);
    assert_eq!(hex_dump(&[0u8; 16], 0).len(), 1);
    assert_eq!(hex_dump(&[0u8; 17], usize::MAX)[1], format!("{:X}: 00", usize::MAX as u128 + 16));
}
