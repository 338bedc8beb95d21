//! The opcode table: which instruction each opcode byte stands for.

use crate::address_mode::AddressKind;
use crate::mnemonic::Mnemonic;
use vstd::prelude::*;

verus! {

/// The table entry of an opcode byte: the mnemonic and the addressing mode that
/// the byte selects. A byte without an entry is not a legal opcode.
pub open spec fn opcode_entry(opcode: u8) -> Option<(Mnemonic, AddressKind)> {
    match opcode {
        0x00 => Some((Mnemonic::BRK, AddressKind::Implicit)),
        0x01 => Some((Mnemonic::ORA, AddressKind::IndirectX)),
        0x05 => Some((Mnemonic::ORA, AddressKind::Zero)),
        0x06 => Some((Mnemonic::ASL, AddressKind::Zero)),
        0x08 => Some((Mnemonic::PHP, AddressKind::Implicit)),
        0x09 => Some((Mnemonic::ORA, AddressKind::Immediate)),
        0x0a => Some((Mnemonic::ASL, AddressKind::Accumulator)),
        0x0d => Some((Mnemonic::ORA, AddressKind::Absolute)),
        0x0e => Some((Mnemonic::ASL, AddressKind::Absolute)),
        0x10 => Some((Mnemonic::BPL, AddressKind::Relative)),
        0x11 => Some((Mnemonic::ORA, AddressKind::IndirectY)),
        0x15 => Some((Mnemonic::ORA, AddressKind::ZeroX)),
        0x16 => Some((Mnemonic::ASL, AddressKind::ZeroX)),
        0x18 => Some((Mnemonic::CLC, AddressKind::Implicit)),
        0x19 => Some((Mnemonic::ORA, AddressKind::AbsoluteY)),
        0x1d => Some((Mnemonic::ORA, AddressKind::AbsoluteX)),
        0x1e => Some((Mnemonic::ASL, AddressKind::AbsoluteX)),
        0x20 => Some((Mnemonic::JSR, AddressKind::Absolute)),
        0x21 => Some((Mnemonic::AND, AddressKind::IndirectX)),
        0x24 => Some((Mnemonic::BIT, AddressKind::Zero)),
        0x25 => Some((Mnemonic::AND, AddressKind::Zero)),
        0x26 => Some((Mnemonic::ROL, AddressKind::Zero)),
        0x28 => Some((Mnemonic::PLP, AddressKind::Implicit)),
        0x29 => Some((Mnemonic::AND, AddressKind::Immediate)),
        0x2a => Some((Mnemonic::ROL, AddressKind::Accumulator)),
        0x2c => Some((Mnemonic::BIT, AddressKind::Absolute)),
        0x2d => Some((Mnemonic::AND, AddressKind::Absolute)),
        0x2e => Some((Mnemonic::ROL, AddressKind::Absolute)),
        0x30 => Some((Mnemonic::BMI, AddressKind::Relative)),
        0x31 => Some((Mnemonic::AND, AddressKind::IndirectY)),
        0x35 => Some((Mnemonic::AND, AddressKind::ZeroX)),
        0x36 => Some((Mnemonic::ROL, AddressKind::ZeroX)),
        0x38 => Some((Mnemonic::SEC, AddressKind::Implicit)),
        0x39 => Some((Mnemonic::AND, AddressKind::AbsoluteY)),
        0x3d => Some((Mnemonic::AND, AddressKind::AbsoluteX)),
        0x3e => Some((Mnemonic::ROL, AddressKind::AbsoluteX)),
        0x40 => Some((Mnemonic::RTI, AddressKind::Implicit)),
        0x41 => Some((Mnemonic::EOR, AddressKind::IndirectX)),
        0x45 => Some((Mnemonic::EOR, AddressKind::Zero)),
        0x46 => Some((Mnemonic::LSR, AddressKind::Zero)),
        0x48 => Some((Mnemonic::PHA, AddressKind::Implicit)),
        0x49 => Some((Mnemonic::EOR, AddressKind::Immediate)),
        0x4a => Some((Mnemonic::LSR, AddressKind::Accumulator)),
        0x4c => Some((Mnemonic::JMP, AddressKind::Absolute)),
        0x4d => Some((Mnemonic::EOR, AddressKind::Absolute)),
        0x4e => Some((Mnemonic::LSR, AddressKind::Absolute)),
        0x50 => Some((Mnemonic::BVC, AddressKind::Relative)),
        0x51 => Some((Mnemonic::EOR, AddressKind::IndirectY)),
        0x55 => Some((Mnemonic::EOR, AddressKind::ZeroX)),
        0x56 => Some((Mnemonic::LSR, AddressKind::ZeroX)),
        0x58 => Some((Mnemonic::CLI, AddressKind::Implicit)),
        0x59 => Some((Mnemonic::EOR, AddressKind::AbsoluteY)),
        0x5d => Some((Mnemonic::EOR, AddressKind::AbsoluteX)),
        0x5e => Some((Mnemonic::LSR, AddressKind::AbsoluteX)),
        0x60 => Some((Mnemonic::RTS, AddressKind::Implicit)),
        0x61 => Some((Mnemonic::ADC, AddressKind::IndirectX)),
        0x65 => Some((Mnemonic::ADC, AddressKind::Zero)),
        0x66 => Some((Mnemonic::ROR, AddressKind::Zero)),
        0x68 => Some((Mnemonic::PLA, AddressKind::Implicit)),
        0x69 => Some((Mnemonic::ADC, AddressKind::Immediate)),
        0x6a => Some((Mnemonic::ROR, AddressKind::Accumulator)),
        0x6c => Some((Mnemonic::JMP, AddressKind::Indirect)),
        0x6d => Some((Mnemonic::ADC, AddressKind::Absolute)),
        0x6e => Some((Mnemonic::ROR, AddressKind::Absolute)),
        0x70 => Some((Mnemonic::BVS, AddressKind::Relative)),
        0x71 => Some((Mnemonic::ADC, AddressKind::IndirectY)),
        0x75 => Some((Mnemonic::ADC, AddressKind::ZeroX)),
        0x76 => Some((Mnemonic::ROR, AddressKind::ZeroX)),
        0x78 => Some((Mnemonic::SEI, AddressKind::Implicit)),
        0x79 => Some((Mnemonic::ADC, AddressKind::AbsoluteY)),
        0x7d => Some((Mnemonic::ADC, AddressKind::AbsoluteX)),
        0x7e => Some((Mnemonic::ROR, AddressKind::AbsoluteX)),
        0x81 => Some((Mnemonic::STA, AddressKind::IndirectX)),
        0x84 => Some((Mnemonic::STY, AddressKind::Zero)),
        0x85 => Some((Mnemonic::STA, AddressKind::Zero)),
        0x86 => Some((Mnemonic::STX, AddressKind::Zero)),
        0x88 => Some((Mnemonic::DEY, AddressKind::Implicit)),
        0x8a => Some((Mnemonic::TXA, AddressKind::Implicit)),
        0x8c => Some((Mnemonic::STY, AddressKind::Absolute)),
        0x8d => Some((Mnemonic::STA, AddressKind::Absolute)),
        0x8e => Some((Mnemonic::STX, AddressKind::Absolute)),
        0x90 => Some((Mnemonic::BCC, AddressKind::Relative)),
        0x91 => Some((Mnemonic::STA, AddressKind::IndirectY)),
        0x94 => Some((Mnemonic::STY, AddressKind::ZeroX)),
        0x95 => Some((Mnemonic::STA, AddressKind::ZeroX)),
        0x96 => Some((Mnemonic::STX, AddressKind::ZeroY)),
        0x98 => Some((Mnemonic::TYA, AddressKind::Implicit)),
        0x99 => Some((Mnemonic::STA, AddressKind::AbsoluteY)),
        0x9a => Some((Mnemonic::TXS, AddressKind::Implicit)),
        0x9d => Some((Mnemonic::STA, AddressKind::AbsoluteX)),
        0xa0 => Some((Mnemonic::LDY, AddressKind::Immediate)),
        0xa1 => Some((Mnemonic::LDA, AddressKind::IndirectX)),
        0xa2 => Some((Mnemonic::LDX, AddressKind::Immediate)),
        0xa4 => Some((Mnemonic::LDY, AddressKind::Zero)),
        0xa5 => Some((Mnemonic::LDA, AddressKind::Zero)),
        0xa6 => Some((Mnemonic::LDX, AddressKind::Zero)),
        0xa8 => Some((Mnemonic::TAY, AddressKind::Implicit)),
        0xa9 => Some((Mnemonic::LDA, AddressKind::Immediate)),
        0xaa => Some((Mnemonic::TAX, AddressKind::Implicit)),
        0xac => Some((Mnemonic::LDY, AddressKind::Absolute)),
        0xad => Some((Mnemonic::LDA, AddressKind::Absolute)),
        0xae => Some((Mnemonic::LDX, AddressKind::Absolute)),
        0xb0 => Some((Mnemonic::BCS, AddressKind::Relative)),
        0xb1 => Some((Mnemonic::LDA, AddressKind::IndirectY)),
        0xb4 => Some((Mnemonic::LDY, AddressKind::ZeroX)),
        0xb5 => Some((Mnemonic::LDA, AddressKind::ZeroX)),
        0xb6 => Some((Mnemonic::LDX, AddressKind::ZeroY)),
        0xb8 => Some((Mnemonic::CLV, AddressKind::Implicit)),
        0xb9 => Some((Mnemonic::LDA, AddressKind::AbsoluteY)),
        0xba => Some((Mnemonic::TSX, AddressKind::Implicit)),
        0xbc => Some((Mnemonic::LDY, AddressKind::AbsoluteX)),
        0xbd => Some((Mnemonic::LDA, AddressKind::AbsoluteX)),
        0xbe => Some((Mnemonic::LDX, AddressKind::AbsoluteY)),
        0xc0 => Some((Mnemonic::CPY, AddressKind::Immediate)),
        0xc1 => Some((Mnemonic::CMP, AddressKind::IndirectX)),
        0xc4 => Some((Mnemonic::CPY, AddressKind::Zero)),
        0xc5 => Some((Mnemonic::CMP, AddressKind::Zero)),
        0xc6 => Some((Mnemonic::DEC, AddressKind::Zero)),
        0xc8 => Some((Mnemonic::INY, AddressKind::Implicit)),
        0xc9 => Some((Mnemonic::CMP, AddressKind::Immediate)),
        0xca => Some((Mnemonic::DEX, AddressKind::Implicit)),
        0xcc => Some((Mnemonic::CPY, AddressKind::Absolute)),
        0xcd => Some((Mnemonic::CMP, AddressKind::Absolute)),
        0xce => Some((Mnemonic::DEC, AddressKind::Absolute)),
        0xd0 => Some((Mnemonic::BNE, AddressKind::Relative)),
        0xd1 => Some((Mnemonic::CMP, AddressKind::IndirectY)),
        0xd5 => Some((Mnemonic::CMP, AddressKind::ZeroX)),
        0xd6 => Some((Mnemonic::DEC, AddressKind::ZeroX)),
        0xd8 => Some((Mnemonic::CLD, AddressKind::Implicit)),
        0xd9 => Some((Mnemonic::CMP, AddressKind::AbsoluteY)),
        0xdd => Some((Mnemonic::CMP, AddressKind::AbsoluteX)),
        0xde => Some((Mnemonic::DEC, AddressKind::AbsoluteX)),
        0xe0 => Some((Mnemonic::CPX, AddressKind::Immediate)),
        0xe1 => Some((Mnemonic::SBC, AddressKind::IndirectX)),
        0xe4 => Some((Mnemonic::CPX, AddressKind::Zero)),
        0xe5 => Some((Mnemonic::SBC, AddressKind::Zero)),
        0xe6 => Some((Mnemonic::INC, AddressKind::Zero)),
        0xe8 => Some((Mnemonic::INX, AddressKind::Implicit)),
        0xe9 => Some((Mnemonic::SBC, AddressKind::Immediate)),
        0xea => Some((Mnemonic::NOP, AddressKind::Implicit)),
        0xec => Some((Mnemonic::CPX, AddressKind::Absolute)),
        0xed => Some((Mnemonic::SBC, AddressKind::Absolute)),
        0xee => Some((Mnemonic::INC, AddressKind::Absolute)),
        0xf0 => Some((Mnemonic::BEQ, AddressKind::Relative)),
        0xf1 => Some((Mnemonic::SBC, AddressKind::IndirectY)),
        0xf5 => Some((Mnemonic::SBC, AddressKind::ZeroX)),
        0xf6 => Some((Mnemonic::INC, AddressKind::ZeroX)),
        0xf8 => Some((Mnemonic::SED, AddressKind::Implicit)),
        0xf9 => Some((Mnemonic::SBC, AddressKind::AbsoluteY)),
        0xfd => Some((Mnemonic::SBC, AddressKind::AbsoluteX)),
        0xfe => Some((Mnemonic::INC, AddressKind::AbsoluteX)),
        _ => None,
    }
}

/// The opcode byte that encodes a mnemonic in an addressing mode, where the
/// instruction set has that combination.
pub open spec fn encoding(mnemonic: Mnemonic, kind: AddressKind) -> Option<u8> {
    match mnemonic {
        Mnemonic::ADC => match kind {
            AddressKind::Immediate => Some(0x69),
            AddressKind::Zero => Some(0x65),
            AddressKind::ZeroX => Some(0x75),
            AddressKind::Absolute => Some(0x6d),
            AddressKind::AbsoluteX => Some(0x7d),
            AddressKind::AbsoluteY => Some(0x79),
            AddressKind::IndirectX => Some(0x61),
            AddressKind::IndirectY => Some(0x71),
            _ => None,
        },
        Mnemonic::AND => match kind {
            AddressKind::Immediate => Some(0x29),
            AddressKind::Zero => Some(0x25),
            AddressKind::ZeroX => Some(0x35),
            AddressKind::Absolute => Some(0x2d),
            AddressKind::AbsoluteX => Some(0x3d),
            AddressKind::AbsoluteY => Some(0x39),
            AddressKind::IndirectX => Some(0x21),
            AddressKind::IndirectY => Some(0x31),
            _ => None,
        },
        Mnemonic::ASL => match kind {
            AddressKind::Accumulator => Some(0x0a),
            AddressKind::Zero => Some(0x06),
            AddressKind::ZeroX => Some(0x16),
            AddressKind::Absolute => Some(0x0e),
            AddressKind::AbsoluteX => Some(0x1e),
            _ => None,
        },
        Mnemonic::BCC => match kind {
            AddressKind::Relative => Some(0x90),
            _ => None,
        },
        Mnemonic::BCS => match kind {
            AddressKind::Relative => Some(0xb0),
            _ => None,
        },
        Mnemonic::BEQ => match kind {
            AddressKind::Relative => Some(0xf0),
            _ => None,
        },
        Mnemonic::BIT => match kind {
            AddressKind::Zero => Some(0x24),
            AddressKind::Absolute => Some(0x2c),
            _ => None,
        },
        Mnemonic::BMI => match kind {
            AddressKind::Relative => Some(0x30),
            _ => None,
        },
        Mnemonic::BNE => match kind {
            AddressKind::Relative => Some(0xd0),
            _ => None,
        },
        Mnemonic::BPL => match kind {
            AddressKind::Relative => Some(0x10),
            _ => None,
        },
        Mnemonic::BRK => match kind {
            AddressKind::Implicit => Some(0x00),
            _ => None,
        },
        Mnemonic::BVC => match kind {
            AddressKind::Relative => Some(0x50),
            _ => None,
        },
        Mnemonic::BVS => match kind {
            AddressKind::Relative => Some(0x70),
            _ => None,
        },
        Mnemonic::CLC => match kind {
            AddressKind::Implicit => Some(0x18),
            _ => None,
        },
        Mnemonic::CLD => match kind {
            AddressKind::Implicit => Some(0xd8),
            _ => None,
        },
        Mnemonic::CLI => match kind {
            AddressKind::Implicit => Some(0x58),
            _ => None,
        },
        Mnemonic::CLV => match kind {
            AddressKind::Implicit => Some(0xb8),
            _ => None,
        },
        Mnemonic::CMP => match kind {
            AddressKind::Immediate => Some(0xc9),
            AddressKind::Zero => Some(0xc5),
            AddressKind::ZeroX => Some(0xd5),
            AddressKind::Absolute => Some(0xcd),
            AddressKind::AbsoluteX => Some(0xdd),
            AddressKind::AbsoluteY => Some(0xd9),
            AddressKind::IndirectX => Some(0xc1),
            AddressKind::IndirectY => Some(0xd1),
            _ => None,
        },
        Mnemonic::CPX => match kind {
            AddressKind::Immediate => Some(0xe0),
            AddressKind::Zero => Some(0xe4),
            AddressKind::Absolute => Some(0xec),
            _ => None,
        },
        Mnemonic::CPY => match kind {
            AddressKind::Immediate => Some(0xc0),
            AddressKind::Zero => Some(0xc4),
            AddressKind::Absolute => Some(0xcc),
            _ => None,
        },
        Mnemonic::DEC => match kind {
            AddressKind::Zero => Some(0xc6),
            AddressKind::ZeroX => Some(0xd6),
            AddressKind::Absolute => Some(0xce),
            AddressKind::AbsoluteX => Some(0xde),
            _ => None,
        },
        Mnemonic::DEX => match kind {
            AddressKind::Implicit => Some(0xca),
            _ => None,
        },
        Mnemonic::DEY => match kind {
            AddressKind::Implicit => Some(0x88),
            _ => None,
        },
        Mnemonic::EOR => match kind {
            AddressKind::Immediate => Some(0x49),
            AddressKind::Zero => Some(0x45),
            AddressKind::ZeroX => Some(0x55),
            AddressKind::Absolute => Some(0x4d),
            AddressKind::AbsoluteX => Some(0x5d),
            AddressKind::AbsoluteY => Some(0x59),
            AddressKind::IndirectX => Some(0x41),
            AddressKind::IndirectY => Some(0x51),
            _ => None,
        },
        Mnemonic::INC => match kind {
            AddressKind::Zero => Some(0xe6),
            AddressKind::ZeroX => Some(0xf6),
            AddressKind::Absolute => Some(0xee),
            AddressKind::AbsoluteX => Some(0xfe),
            _ => None,
        },
        Mnemonic::INX => match kind {
            AddressKind::Implicit => Some(0xe8),
            _ => None,
        },
        Mnemonic::INY => match kind {
            AddressKind::Implicit => Some(0xc8),
            _ => None,
        },
        Mnemonic::JMP => match kind {
            AddressKind::Absolute => Some(0x4c),
            AddressKind::Indirect => Some(0x6c),
            _ => None,
        },
        Mnemonic::JSR => match kind {
            AddressKind::Absolute => Some(0x20),
            _ => None,
        },
        Mnemonic::LDA => match kind {
            AddressKind::Immediate => Some(0xa9),
            AddressKind::Zero => Some(0xa5),
            AddressKind::ZeroX => Some(0xb5),
            AddressKind::Absolute => Some(0xad),
            AddressKind::AbsoluteX => Some(0xbd),
            AddressKind::AbsoluteY => Some(0xb9),
            AddressKind::IndirectX => Some(0xa1),
            AddressKind::IndirectY => Some(0xb1),
            _ => None,
        },
        Mnemonic::LDX => match kind {
            AddressKind::Immediate => Some(0xa2),
            AddressKind::Zero => Some(0xa6),
            AddressKind::ZeroY => Some(0xb6),
            AddressKind::Absolute => Some(0xae),
            AddressKind::AbsoluteY => Some(0xbe),
            _ => None,
        },
        Mnemonic::LDY => match kind {
            AddressKind::Immediate => Some(0xa0),
            AddressKind::Zero => Some(0xa4),
            AddressKind::ZeroX => Some(0xb4),
            AddressKind::Absolute => Some(0xac),
            AddressKind::AbsoluteX => Some(0xbc),
            _ => None,
        },
        Mnemonic::LSR => match kind {
            AddressKind::Accumulator => Some(0x4a),
            AddressKind::Zero => Some(0x46),
            AddressKind::ZeroX => Some(0x56),
            AddressKind::Absolute => Some(0x4e),
            AddressKind::AbsoluteX => Some(0x5e),
            _ => None,
        },
        Mnemonic::NOP => match kind {
            AddressKind::Implicit => Some(0xea),
            _ => None,
        },
        Mnemonic::ORA => match kind {
            AddressKind::Immediate => Some(0x09),
            AddressKind::Zero => Some(0x05),
            AddressKind::ZeroX => Some(0x15),
            AddressKind::Absolute => Some(0x0d),
            AddressKind::AbsoluteX => Some(0x1d),
            AddressKind::AbsoluteY => Some(0x19),
            AddressKind::IndirectX => Some(0x01),
            AddressKind::IndirectY => Some(0x11),
            _ => None,
        },
        Mnemonic::PHA => match kind {
            AddressKind::Implicit => Some(0x48),
            _ => None,
        },
        Mnemonic::PHP => match kind {
            AddressKind::Implicit => Some(0x08),
            _ => None,
        },
        Mnemonic::PLA => match kind {
            AddressKind::Implicit => Some(0x68),
            _ => None,
        },
        Mnemonic::PLP => match kind {
            AddressKind::Implicit => Some(0x28),
            _ => None,
        },
        Mnemonic::ROL => match kind {
            AddressKind::Accumulator => Some(0x2a),
            AddressKind::Zero => Some(0x26),
            AddressKind::ZeroX => Some(0x36),
            AddressKind::Absolute => Some(0x2e),
            AddressKind::AbsoluteX => Some(0x3e),
            _ => None,
        },
        Mnemonic::ROR => match kind {
            AddressKind::Accumulator => Some(0x6a),
            AddressKind::Zero => Some(0x66),
            AddressKind::ZeroX => Some(0x76),
            AddressKind::Absolute => Some(0x6e),
            AddressKind::AbsoluteX => Some(0x7e),
            _ => None,
        },
        Mnemonic::RTI => match kind {
            AddressKind::Implicit => Some(0x40),
            _ => None,
        },
        Mnemonic::RTS => match kind {
            AddressKind::Implicit => Some(0x60),
            _ => None,
        },
        Mnemonic::SBC => match kind {
            AddressKind::Immediate => Some(0xe9),
            AddressKind::Zero => Some(0xe5),
            AddressKind::ZeroX => Some(0xf5),
            AddressKind::Absolute => Some(0xed),
            AddressKind::AbsoluteX => Some(0xfd),
            AddressKind::AbsoluteY => Some(0xf9),
            AddressKind::IndirectX => Some(0xe1),
            AddressKind::IndirectY => Some(0xf1),
            _ => None,
        },
        Mnemonic::SEC => match kind {
            AddressKind::Implicit => Some(0x38),
            _ => None,
        },
        Mnemonic::SED => match kind {
            AddressKind::Implicit => Some(0xf8),
            _ => None,
        },
        Mnemonic::SEI => match kind {
            AddressKind::Implicit => Some(0x78),
            _ => None,
        },
        Mnemonic::STA => match kind {
            AddressKind::Zero => Some(0x85),
            AddressKind::ZeroX => Some(0x95),
            AddressKind::Absolute => Some(0x8d),
            AddressKind::AbsoluteX => Some(0x9d),
            AddressKind::AbsoluteY => Some(0x99),
            AddressKind::IndirectX => Some(0x81),
            AddressKind::IndirectY => Some(0x91),
            _ => None,
        },
        Mnemonic::STX => match kind {
            AddressKind::Zero => Some(0x86),
            AddressKind::ZeroY => Some(0x96),
            AddressKind::Absolute => Some(0x8e),
            _ => None,
        },
        Mnemonic::STY => match kind {
            AddressKind::Zero => Some(0x84),
            AddressKind::ZeroX => Some(0x94),
            AddressKind::Absolute => Some(0x8c),
            _ => None,
        },
        Mnemonic::TAX => match kind {
            AddressKind::Implicit => Some(0xaa),
            _ => None,
        },
        Mnemonic::TAY => match kind {
            AddressKind::Implicit => Some(0xa8),
            _ => None,
        },
        Mnemonic::TSX => match kind {
            AddressKind::Implicit => Some(0xba),
            _ => None,
        },
        Mnemonic::TXA => match kind {
            AddressKind::Implicit => Some(0x8a),
            _ => None,
        },
        Mnemonic::TXS => match kind {
            AddressKind::Implicit => Some(0x9a),
            _ => None,
        },
        Mnemonic::TYA => match kind {
            AddressKind::Implicit => Some(0x98),
            _ => None,
        },
    }
}

/// Looks an opcode byte up in the table.
pub fn lookup(opcode: u8) -> (entry: Option<(Mnemonic, AddressKind)>)
    ensures
        entry == opcode_entry(opcode),
{
    match opcode {
        0x00 => Some((Mnemonic::BRK, AddressKind::Implicit)),
        0x01 => Some((Mnemonic::ORA, AddressKind::IndirectX)),
        0x05 => Some((Mnemonic::ORA, AddressKind::Zero)),
        0x06 => Some((Mnemonic::ASL, AddressKind::Zero)),
        0x08 => Some((Mnemonic::PHP, AddressKind::Implicit)),
        0x09 => Some((Mnemonic::ORA, AddressKind::Immediate)),
        0x0a => Some((Mnemonic::ASL, AddressKind::Accumulator)),
        0x0d => Some((Mnemonic::ORA, AddressKind::Absolute)),
        0x0e => Some((Mnemonic::ASL, AddressKind::Absolute)),
        0x10 => Some((Mnemonic::BPL, AddressKind::Relative)),
        0x11 => Some((Mnemonic::ORA, AddressKind::IndirectY)),
        0x15 => Some((Mnemonic::ORA, AddressKind::ZeroX)),
        0x16 => Some((Mnemonic::ASL, AddressKind::ZeroX)),
        0x18 => Some((Mnemonic::CLC, AddressKind::Implicit)),
        0x19 => Some((Mnemonic::ORA, AddressKind::AbsoluteY)),
        0x1d => Some((Mnemonic::ORA, AddressKind::AbsoluteX)),
        0x1e => Some((Mnemonic::ASL, AddressKind::AbsoluteX)),
        0x20 => Some((Mnemonic::JSR, AddressKind::Absolute)),
        0x21 => Some((Mnemonic::AND, AddressKind::IndirectX)),
        0x24 => Some((Mnemonic::BIT, AddressKind::Zero)),
        0x25 => Some((Mnemonic::AND, AddressKind::Zero)),
        0x26 => Some((Mnemonic::ROL, AddressKind::Zero)),
        0x28 => Some((Mnemonic::PLP, AddressKind::Implicit)),
        0x29 => Some((Mnemonic::AND, AddressKind::Immediate)),
        0x2a => Some((Mnemonic::ROL, AddressKind::Accumulator)),
        0x2c => Some((Mnemonic::BIT, AddressKind::Absolute)),
        0x2d => Some((Mnemonic::AND, AddressKind::Absolute)),
        0x2e => Some((Mnemonic::ROL, AddressKind::Absolute)),
        0x30 => Some((Mnemonic::BMI, AddressKind::Relative)),
        0x31 => Some((Mnemonic::AND, AddressKind::IndirectY)),
        0x35 => Some((Mnemonic::AND, AddressKind::ZeroX)),
        0x36 => Some((Mnemonic::ROL, AddressKind::ZeroX)),
        0x38 => Some((Mnemonic::SEC, AddressKind::Implicit)),
        0x39 => Some((Mnemonic::AND, AddressKind::AbsoluteY)),
        0x3d => Some((Mnemonic::AND, AddressKind::AbsoluteX)),
        0x3e => Some((Mnemonic::ROL, AddressKind::AbsoluteX)),
        0x40 => Some((Mnemonic::RTI, AddressKind::Implicit)),
        0x41 => Some((Mnemonic::EOR, AddressKind::IndirectX)),
        0x45 => Some((Mnemonic::EOR, AddressKind::Zero)),
        0x46 => Some((Mnemonic::LSR, AddressKind::Zero)),
        0x48 => Some((Mnemonic::PHA, AddressKind::Implicit)),
        0x49 => Some((Mnemonic::EOR, AddressKind::Immediate)),
        0x4a => Some((Mnemonic::LSR, AddressKind::Accumulator)),
        0x4c => Some((Mnemonic::JMP, AddressKind::Absolute)),
        0x4d => Some((Mnemonic::EOR, AddressKind::Absolute)),
        0x4e => Some((Mnemonic::LSR, AddressKind::Absolute)),
        0x50 => Some((Mnemonic::BVC, AddressKind::Relative)),
        0x51 => Some((Mnemonic::EOR, AddressKind::IndirectY)),
        0x55 => Some((Mnemonic::EOR, AddressKind::ZeroX)),
        0x56 => Some((Mnemonic::LSR, AddressKind::ZeroX)),
        0x58 => Some((Mnemonic::CLI, AddressKind::Implicit)),
        0x59 => Some((Mnemonic::EOR, AddressKind::AbsoluteY)),
        0x5d => Some((Mnemonic::EOR, AddressKind::AbsoluteX)),
        0x5e => Some((Mnemonic::LSR, AddressKind::AbsoluteX)),
        0x60 => Some((Mnemonic::RTS, AddressKind::Implicit)),
        0x61 => Some((Mnemonic::ADC, AddressKind::IndirectX)),
        0x65 => Some((Mnemonic::ADC, AddressKind::Zero)),
        0x66 => Some((Mnemonic::ROR, AddressKind::Zero)),
        0x68 => Some((Mnemonic::PLA, AddressKind::Implicit)),
        0x69 => Some((Mnemonic::ADC, AddressKind::Immediate)),
        0x6a => Some((Mnemonic::ROR, AddressKind::Accumulator)),
        0x6c => Some((Mnemonic::JMP, AddressKind::Indirect)),
        0x6d => Some((Mnemonic::ADC, AddressKind::Absolute)),
        0x6e => Some((Mnemonic::ROR, AddressKind::Absolute)),
        0x70 => Some((Mnemonic::BVS, AddressKind::Relative)),
        0x71 => Some((Mnemonic::ADC, AddressKind::IndirectY)),
        0x75 => Some((Mnemonic::ADC, AddressKind::ZeroX)),
        0x76 => Some((Mnemonic::ROR, AddressKind::ZeroX)),
        0x78 => Some((Mnemonic::SEI, AddressKind::Implicit)),
        0x79 => Some((Mnemonic::ADC, AddressKind::AbsoluteY)),
        0x7d => Some((Mnemonic::ADC, AddressKind::AbsoluteX)),
        0x7e => Some((Mnemonic::ROR, AddressKind::AbsoluteX)),
        0x81 => Some((Mnemonic::STA, AddressKind::IndirectX)),
        0x84 => Some((Mnemonic::STY, AddressKind::Zero)),
        0x85 => Some((Mnemonic::STA, AddressKind::Zero)),
        0x86 => Some((Mnemonic::STX, AddressKind::Zero)),
        0x88 => Some((Mnemonic::DEY, AddressKind::Implicit)),
        0x8a => Some((Mnemonic::TXA, AddressKind::Implicit)),
        0x8c => Some((Mnemonic::STY, AddressKind::Absolute)),
        0x8d => Some((Mnemonic::STA, AddressKind::Absolute)),
        0x8e => Some((Mnemonic::STX, AddressKind::Absolute)),
        0x90 => Some((Mnemonic::BCC, AddressKind::Relative)),
        0x91 => Some((Mnemonic::STA, AddressKind::IndirectY)),
        0x94 => Some((Mnemonic::STY, AddressKind::ZeroX)),
        0x95 => Some((Mnemonic::STA, AddressKind::ZeroX)),
        0x96 => Some((Mnemonic::STX, AddressKind::ZeroY)),
        0x98 => Some((Mnemonic::TYA, AddressKind::Implicit)),
        0x99 => Some((Mnemonic::STA, AddressKind::AbsoluteY)),
        0x9a => Some((Mnemonic::TXS, AddressKind::Implicit)),
        0x9d => Some((Mnemonic::STA, AddressKind::AbsoluteX)),
        0xa0 => Some((Mnemonic::LDY, AddressKind::Immediate)),
        0xa1 => Some((Mnemonic::LDA, AddressKind::IndirectX)),
        0xa2 => Some((Mnemonic::LDX, AddressKind::Immediate)),
        0xa4 => Some((Mnemonic::LDY, AddressKind::Zero)),
        0xa5 => Some((Mnemonic::LDA, AddressKind::Zero)),
        0xa6 => Some((Mnemonic::LDX, AddressKind::Zero)),
        0xa8 => Some((Mnemonic::TAY, AddressKind::Implicit)),
        0xa9 => Some((Mnemonic::LDA, AddressKind::Immediate)),
        0xaa => Some((Mnemonic::TAX, AddressKind::Implicit)),
        0xac => Some((Mnemonic::LDY, AddressKind::Absolute)),
        0xad => Some((Mnemonic::LDA, AddressKind::Absolute)),
        0xae => Some((Mnemonic::LDX, AddressKind::Absolute)),
        0xb0 => Some((Mnemonic::BCS, AddressKind::Relative)),
        0xb1 => Some((Mnemonic::LDA, AddressKind::IndirectY)),
        0xb4 => Some((Mnemonic::LDY, AddressKind::ZeroX)),
        0xb5 => Some((Mnemonic::LDA, AddressKind::ZeroX)),
        0xb6 => Some((Mnemonic::LDX, AddressKind::ZeroY)),
        0xb8 => Some((Mnemonic::CLV, AddressKind::Implicit)),
        0xb9 => Some((Mnemonic::LDA, AddressKind::AbsoluteY)),
        0xba => Some((Mnemonic::TSX, AddressKind::Implicit)),
        0xbc => Some((Mnemonic::LDY, AddressKind::AbsoluteX)),
        0xbd => Some((Mnemonic::LDA, AddressKind::AbsoluteX)),
        0xbe => Some((Mnemonic::LDX, AddressKind::AbsoluteY)),
        0xc0 => Some((Mnemonic::CPY, AddressKind::Immediate)),
        0xc1 => Some((Mnemonic::CMP, AddressKind::IndirectX)),
        0xc4 => Some((Mnemonic::CPY, AddressKind::Zero)),
        0xc5 => Some((Mnemonic::CMP, AddressKind::Zero)),
        0xc6 => Some((Mnemonic::DEC, AddressKind::Zero)),
        0xc8 => Some((Mnemonic::INY, AddressKind::Implicit)),
        0xc9 => Some((Mnemonic::CMP, AddressKind::Immediate)),
        0xca => Some((Mnemonic::DEX, AddressKind::Implicit)),
        0xcc => Some((Mnemonic::CPY, AddressKind::Absolute)),
        0xcd => Some((Mnemonic::CMP, AddressKind::Absolute)),
        0xce => Some((Mnemonic::DEC, AddressKind::Absolute)),
        0xd0 => Some((Mnemonic::BNE, AddressKind::Relative)),
        0xd1 => Some((Mnemonic::CMP, AddressKind::IndirectY)),
        0xd5 => Some((Mnemonic::CMP, AddressKind::ZeroX)),
        0xd6 => Some((Mnemonic::DEC, AddressKind::ZeroX)),
        0xd8 => Some((Mnemonic::CLD, AddressKind::Implicit)),
        0xd9 => Some((Mnemonic::CMP, AddressKind::AbsoluteY)),
        0xdd => Some((Mnemonic::CMP, AddressKind::AbsoluteX)),
        0xde => Some((Mnemonic::DEC, AddressKind::AbsoluteX)),
        0xe0 => Some((Mnemonic::CPX, AddressKind::Immediate)),
        0xe1 => Some((Mnemonic::SBC, AddressKind::IndirectX)),
        0xe4 => Some((Mnemonic::CPX, AddressKind::Zero)),
        0xe5 => Some((Mnemonic::SBC, AddressKind::Zero)),
        0xe6 => Some((Mnemonic::INC, AddressKind::Zero)),
        0xe8 => Some((Mnemonic::INX, AddressKind::Implicit)),
        0xe9 => Some((Mnemonic::SBC, AddressKind::Immediate)),
        0xea => Some((Mnemonic::NOP, AddressKind::Implicit)),
        0xec => Some((Mnemonic::CPX, AddressKind::Absolute)),
        0xed => Some((Mnemonic::SBC, AddressKind::Absolute)),
        0xee => Some((Mnemonic::INC, AddressKind::Absolute)),
        0xf0 => Some((Mnemonic::BEQ, AddressKind::Relative)),
        0xf1 => Some((Mnemonic::SBC, AddressKind::IndirectY)),
        0xf5 => Some((Mnemonic::SBC, AddressKind::ZeroX)),
        0xf6 => Some((Mnemonic::INC, AddressKind::ZeroX)),
        0xf8 => Some((Mnemonic::SED, AddressKind::Implicit)),
        0xf9 => Some((Mnemonic::SBC, AddressKind::AbsoluteY)),
        0xfd => Some((Mnemonic::SBC, AddressKind::AbsoluteX)),
        0xfe => Some((Mnemonic::INC, AddressKind::AbsoluteX)),
        _ => None,
    }
}

/// The table and the encoding are inverse to each other: a byte's entry is a
/// given instruction exactly when that instruction is encoded by the byte.
pub proof fn lemma_table_inverts_encoding(opcode: u8, mnemonic: Mnemonic, kind: AddressKind)
    ensures
        opcode_entry(opcode) == Some((mnemonic, kind)) <==> encoding(mnemonic, kind) == Some(
            opcode,
        ),
{
}

/// No two opcode bytes share an entry: the entries of the table are pairwise
/// distinct.
pub proof fn lemma_entries_distinct(first: u8, second: u8)
    requires
        opcode_entry(first) is Some,
        opcode_entry(first) == opcode_entry(second),
    ensures
        first == second,
{
    let (mnemonic, kind) = opcode_entry(first)->Some_0;
    lemma_table_inverts_encoding(first, mnemonic, kind);
    lemma_table_inverts_encoding(second, mnemonic, kind);
}

} // verus!
