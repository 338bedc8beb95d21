//! A decoded instruction of any mnemonic.

use crate::address_mode::AddressMode;
use crate::cursor::ByteCursor;
use crate::decode::{consumed, decode_entry, lemma_decode_consumes, read_entry};
use crate::instructions::{
    ADC, AND, ASL, BCC, BCS, BEQ, BIT, BMI, BNE, BPL, BRK, BVC, BVS, CLC, CLD, CLI, CLV, CMP, CPX,
    CPY, DEC, DEX, DEY, EOR, INC, INX, INY, Instruction, JMP, JSR, LDA, LDX, LDY, LSR, NOP, ORA,
    PHA, PHP, PLA, PLP, ROL, ROR, RTI, RTS, SBC, SEC, SED, SEI, STA, STX, STY, TAX, TAY, TSX, TXA,
    TXS, TYA,
};
use crate::mnemonic::Mnemonic;
use vstd::prelude::*;

verus! {

/// A decoded instruction: one variant for each mnemonic, holding the
/// instruction with its addressing mode and operand.
#[derive(Debug, Clone, Copy, PartialEq, Eq)]
pub enum Opcode {
    ADC(ADC),
    AND(AND),
    ASL(ASL),
    BCC(BCC),
    BCS(BCS),
    BEQ(BEQ),
    BIT(BIT),
    BMI(BMI),
    BNE(BNE),
    BPL(BPL),
    BRK(BRK),
    BVC(BVC),
    BVS(BVS),
    CLC(CLC),
    CLD(CLD),
    CLI(CLI),
    CLV(CLV),
    CMP(CMP),
    CPX(CPX),
    CPY(CPY),
    DEC(DEC),
    DEX(DEX),
    DEY(DEY),
    EOR(EOR),
    INC(INC),
    INX(INX),
    INY(INY),
    JMP(JMP),
    JSR(JSR),
    LDA(LDA),
    LDX(LDX),
    LDY(LDY),
    LSR(LSR),
    NOP(NOP),
    ORA(ORA),
    PHA(PHA),
    PHP(PHP),
    PLA(PLA),
    PLP(PLP),
    ROL(ROL),
    ROR(ROR),
    RTI(RTI),
    RTS(RTS),
    SBC(SBC),
    SEC(SEC),
    SED(SED),
    SEI(SEI),
    STA(STA),
    STX(STX),
    STY(STY),
    TAX(TAX),
    TAY(TAY),
    TSX(TSX),
    TXA(TXA),
    TXS(TXS),
    TYA(TYA),
}

impl Opcode {
    /// The instruction with the given mnemonic and addressing mode.
    pub open spec fn from_parts_spec(mnemonic: Mnemonic, mode: AddressMode) -> Opcode {
        match mnemonic {
            Mnemonic::ADC => Opcode::ADC(ADC(mode)),
            Mnemonic::AND => Opcode::AND(AND(mode)),
            Mnemonic::ASL => Opcode::ASL(ASL(mode)),
            Mnemonic::BCC => Opcode::BCC(BCC(mode)),
            Mnemonic::BCS => Opcode::BCS(BCS(mode)),
            Mnemonic::BEQ => Opcode::BEQ(BEQ(mode)),
            Mnemonic::BIT => Opcode::BIT(BIT(mode)),
            Mnemonic::BMI => Opcode::BMI(BMI(mode)),
            Mnemonic::BNE => Opcode::BNE(BNE(mode)),
            Mnemonic::BPL => Opcode::BPL(BPL(mode)),
            Mnemonic::BRK => Opcode::BRK(BRK(mode)),
            Mnemonic::BVC => Opcode::BVC(BVC(mode)),
            Mnemonic::BVS => Opcode::BVS(BVS(mode)),
            Mnemonic::CLC => Opcode::CLC(CLC(mode)),
            Mnemonic::CLD => Opcode::CLD(CLD(mode)),
            Mnemonic::CLI => Opcode::CLI(CLI(mode)),
            Mnemonic::CLV => Opcode::CLV(CLV(mode)),
            Mnemonic::CMP => Opcode::CMP(CMP(mode)),
            Mnemonic::CPX => Opcode::CPX(CPX(mode)),
            Mnemonic::CPY => Opcode::CPY(CPY(mode)),
            Mnemonic::DEC => Opcode::DEC(DEC(mode)),
            Mnemonic::DEX => Opcode::DEX(DEX(mode)),
            Mnemonic::DEY => Opcode::DEY(DEY(mode)),
            Mnemonic::EOR => Opcode::EOR(EOR(mode)),
            Mnemonic::INC => Opcode::INC(INC(mode)),
            Mnemonic::INX => Opcode::INX(INX(mode)),
            Mnemonic::INY => Opcode::INY(INY(mode)),
            Mnemonic::JMP => Opcode::JMP(JMP(mode)),
            Mnemonic::JSR => Opcode::JSR(JSR(mode)),
            Mnemonic::LDA => Opcode::LDA(LDA(mode)),
            Mnemonic::LDX => Opcode::LDX(LDX(mode)),
            Mnemonic::LDY => Opcode::LDY(LDY(mode)),
            Mnemonic::LSR => Opcode::LSR(LSR(mode)),
            Mnemonic::NOP => Opcode::NOP(NOP(mode)),
            Mnemonic::ORA => Opcode::ORA(ORA(mode)),
            Mnemonic::PHA => Opcode::PHA(PHA(mode)),
            Mnemonic::PHP => Opcode::PHP(PHP(mode)),
            Mnemonic::PLA => Opcode::PLA(PLA(mode)),
            Mnemonic::PLP => Opcode::PLP(PLP(mode)),
            Mnemonic::ROL => Opcode::ROL(ROL(mode)),
            Mnemonic::ROR => Opcode::ROR(ROR(mode)),
            Mnemonic::RTI => Opcode::RTI(RTI(mode)),
            Mnemonic::RTS => Opcode::RTS(RTS(mode)),
            Mnemonic::SBC => Opcode::SBC(SBC(mode)),
            Mnemonic::SEC => Opcode::SEC(SEC(mode)),
            Mnemonic::SED => Opcode::SED(SED(mode)),
            Mnemonic::SEI => Opcode::SEI(SEI(mode)),
            Mnemonic::STA => Opcode::STA(STA(mode)),
            Mnemonic::STX => Opcode::STX(STX(mode)),
            Mnemonic::STY => Opcode::STY(STY(mode)),
            Mnemonic::TAX => Opcode::TAX(TAX(mode)),
            Mnemonic::TAY => Opcode::TAY(TAY(mode)),
            Mnemonic::TSX => Opcode::TSX(TSX(mode)),
            Mnemonic::TXA => Opcode::TXA(TXA(mode)),
            Mnemonic::TXS => Opcode::TXS(TXS(mode)),
            Mnemonic::TYA => Opcode::TYA(TYA(mode)),
        }
    }

    /// The instruction with the given mnemonic and addressing mode.
    pub fn from_parts(mnemonic: Mnemonic, mode: AddressMode) -> (op: Opcode)
        ensures
            op == Opcode::from_parts_spec(mnemonic, mode),
            op.mnemonic() == mnemonic,
            op.mode() == mode,
    {
        match mnemonic {
            Mnemonic::ADC => Opcode::ADC(ADC(mode)),
            Mnemonic::AND => Opcode::AND(AND(mode)),
            Mnemonic::ASL => Opcode::ASL(ASL(mode)),
            Mnemonic::BCC => Opcode::BCC(BCC(mode)),
            Mnemonic::BCS => Opcode::BCS(BCS(mode)),
            Mnemonic::BEQ => Opcode::BEQ(BEQ(mode)),
            Mnemonic::BIT => Opcode::BIT(BIT(mode)),
            Mnemonic::BMI => Opcode::BMI(BMI(mode)),
            Mnemonic::BNE => Opcode::BNE(BNE(mode)),
            Mnemonic::BPL => Opcode::BPL(BPL(mode)),
            Mnemonic::BRK => Opcode::BRK(BRK(mode)),
            Mnemonic::BVC => Opcode::BVC(BVC(mode)),
            Mnemonic::BVS => Opcode::BVS(BVS(mode)),
            Mnemonic::CLC => Opcode::CLC(CLC(mode)),
            Mnemonic::CLD => Opcode::CLD(CLD(mode)),
            Mnemonic::CLI => Opcode::CLI(CLI(mode)),
            Mnemonic::CLV => Opcode::CLV(CLV(mode)),
            Mnemonic::CMP => Opcode::CMP(CMP(mode)),
            Mnemonic::CPX => Opcode::CPX(CPX(mode)),
            Mnemonic::CPY => Opcode::CPY(CPY(mode)),
            Mnemonic::DEC => Opcode::DEC(DEC(mode)),
            Mnemonic::DEX => Opcode::DEX(DEX(mode)),
            Mnemonic::DEY => Opcode::DEY(DEY(mode)),
            Mnemonic::EOR => Opcode::EOR(EOR(mode)),
            Mnemonic::INC => Opcode::INC(INC(mode)),
            Mnemonic::INX => Opcode::INX(INX(mode)),
            Mnemonic::INY => Opcode::INY(INY(mode)),
            Mnemonic::JMP => Opcode::JMP(JMP(mode)),
            Mnemonic::JSR => Opcode::JSR(JSR(mode)),
            Mnemonic::LDA => Opcode::LDA(LDA(mode)),
            Mnemonic::LDX => Opcode::LDX(LDX(mode)),
            Mnemonic::LDY => Opcode::LDY(LDY(mode)),
            Mnemonic::LSR => Opcode::LSR(LSR(mode)),
            Mnemonic::NOP => Opcode::NOP(NOP(mode)),
            Mnemonic::ORA => Opcode::ORA(ORA(mode)),
            Mnemonic::PHA => Opcode::PHA(PHA(mode)),
            Mnemonic::PHP => Opcode::PHP(PHP(mode)),
            Mnemonic::PLA => Opcode::PLA(PLA(mode)),
            Mnemonic::PLP => Opcode::PLP(PLP(mode)),
            Mnemonic::ROL => Opcode::ROL(ROL(mode)),
            Mnemonic::ROR => Opcode::ROR(ROR(mode)),
            Mnemonic::RTI => Opcode::RTI(RTI(mode)),
            Mnemonic::RTS => Opcode::RTS(RTS(mode)),
            Mnemonic::SBC => Opcode::SBC(SBC(mode)),
            Mnemonic::SEC => Opcode::SEC(SEC(mode)),
            Mnemonic::SED => Opcode::SED(SED(mode)),
            Mnemonic::SEI => Opcode::SEI(SEI(mode)),
            Mnemonic::STA => Opcode::STA(STA(mode)),
            Mnemonic::STX => Opcode::STX(STX(mode)),
            Mnemonic::STY => Opcode::STY(STY(mode)),
            Mnemonic::TAX => Opcode::TAX(TAX(mode)),
            Mnemonic::TAY => Opcode::TAY(TAY(mode)),
            Mnemonic::TSX => Opcode::TSX(TSX(mode)),
            Mnemonic::TXA => Opcode::TXA(TXA(mode)),
            Mnemonic::TXS => Opcode::TXS(TXS(mode)),
            Mnemonic::TYA => Opcode::TYA(TYA(mode)),
        }
    }

    /// The instruction's mnemonic.
    pub fn tag(&self) -> (m: Mnemonic)
        ensures
            m == self.mnemonic(),
    {
        match self {
            Opcode::ADC(_) => Mnemonic::ADC,
            Opcode::AND(_) => Mnemonic::AND,
            Opcode::ASL(_) => Mnemonic::ASL,
            Opcode::BCC(_) => Mnemonic::BCC,
            Opcode::BCS(_) => Mnemonic::BCS,
            Opcode::BEQ(_) => Mnemonic::BEQ,
            Opcode::BIT(_) => Mnemonic::BIT,
            Opcode::BMI(_) => Mnemonic::BMI,
            Opcode::BNE(_) => Mnemonic::BNE,
            Opcode::BPL(_) => Mnemonic::BPL,
            Opcode::BRK(_) => Mnemonic::BRK,
            Opcode::BVC(_) => Mnemonic::BVC,
            Opcode::BVS(_) => Mnemonic::BVS,
            Opcode::CLC(_) => Mnemonic::CLC,
            Opcode::CLD(_) => Mnemonic::CLD,
            Opcode::CLI(_) => Mnemonic::CLI,
            Opcode::CLV(_) => Mnemonic::CLV,
            Opcode::CMP(_) => Mnemonic::CMP,
            Opcode::CPX(_) => Mnemonic::CPX,
            Opcode::CPY(_) => Mnemonic::CPY,
            Opcode::DEC(_) => Mnemonic::DEC,
            Opcode::DEX(_) => Mnemonic::DEX,
            Opcode::DEY(_) => Mnemonic::DEY,
            Opcode::EOR(_) => Mnemonic::EOR,
            Opcode::INC(_) => Mnemonic::INC,
            Opcode::INX(_) => Mnemonic::INX,
            Opcode::INY(_) => Mnemonic::INY,
            Opcode::JMP(_) => Mnemonic::JMP,
            Opcode::JSR(_) => Mnemonic::JSR,
            Opcode::LDA(_) => Mnemonic::LDA,
            Opcode::LDX(_) => Mnemonic::LDX,
            Opcode::LDY(_) => Mnemonic::LDY,
            Opcode::LSR(_) => Mnemonic::LSR,
            Opcode::NOP(_) => Mnemonic::NOP,
            Opcode::ORA(_) => Mnemonic::ORA,
            Opcode::PHA(_) => Mnemonic::PHA,
            Opcode::PHP(_) => Mnemonic::PHP,
            Opcode::PLA(_) => Mnemonic::PLA,
            Opcode::PLP(_) => Mnemonic::PLP,
            Opcode::ROL(_) => Mnemonic::ROL,
            Opcode::ROR(_) => Mnemonic::ROR,
            Opcode::RTI(_) => Mnemonic::RTI,
            Opcode::RTS(_) => Mnemonic::RTS,
            Opcode::SBC(_) => Mnemonic::SBC,
            Opcode::SEC(_) => Mnemonic::SEC,
            Opcode::SED(_) => Mnemonic::SED,
            Opcode::SEI(_) => Mnemonic::SEI,
            Opcode::STA(_) => Mnemonic::STA,
            Opcode::STX(_) => Mnemonic::STX,
            Opcode::STY(_) => Mnemonic::STY,
            Opcode::TAX(_) => Mnemonic::TAX,
            Opcode::TAY(_) => Mnemonic::TAY,
            Opcode::TSX(_) => Mnemonic::TSX,
            Opcode::TXA(_) => Mnemonic::TXA,
            Opcode::TXS(_) => Mnemonic::TXS,
            Opcode::TYA(_) => Mnemonic::TYA,
        }
    }

    /// The instruction's addressing mode with its operand.
    pub fn address_mode(&self) -> (mode: AddressMode)
        ensures
            mode == self.mode(),
    {
        match self {
            Opcode::ADC(inner) => inner.0,
            Opcode::AND(inner) => inner.0,
            Opcode::ASL(inner) => inner.0,
            Opcode::BCC(inner) => inner.0,
            Opcode::BCS(inner) => inner.0,
            Opcode::BEQ(inner) => inner.0,
            Opcode::BIT(inner) => inner.0,
            Opcode::BMI(inner) => inner.0,
            Opcode::BNE(inner) => inner.0,
            Opcode::BPL(inner) => inner.0,
            Opcode::BRK(inner) => inner.0,
            Opcode::BVC(inner) => inner.0,
            Opcode::BVS(inner) => inner.0,
            Opcode::CLC(inner) => inner.0,
            Opcode::CLD(inner) => inner.0,
            Opcode::CLI(inner) => inner.0,
            Opcode::CLV(inner) => inner.0,
            Opcode::CMP(inner) => inner.0,
            Opcode::CPX(inner) => inner.0,
            Opcode::CPY(inner) => inner.0,
            Opcode::DEC(inner) => inner.0,
            Opcode::DEX(inner) => inner.0,
            Opcode::DEY(inner) => inner.0,
            Opcode::EOR(inner) => inner.0,
            Opcode::INC(inner) => inner.0,
            Opcode::INX(inner) => inner.0,
            Opcode::INY(inner) => inner.0,
            Opcode::JMP(inner) => inner.0,
            Opcode::JSR(inner) => inner.0,
            Opcode::LDA(inner) => inner.0,
            Opcode::LDX(inner) => inner.0,
            Opcode::LDY(inner) => inner.0,
            Opcode::LSR(inner) => inner.0,
            Opcode::NOP(inner) => inner.0,
            Opcode::ORA(inner) => inner.0,
            Opcode::PHA(inner) => inner.0,
            Opcode::PHP(inner) => inner.0,
            Opcode::PLA(inner) => inner.0,
            Opcode::PLP(inner) => inner.0,
            Opcode::ROL(inner) => inner.0,
            Opcode::ROR(inner) => inner.0,
            Opcode::RTI(inner) => inner.0,
            Opcode::RTS(inner) => inner.0,
            Opcode::SBC(inner) => inner.0,
            Opcode::SEC(inner) => inner.0,
            Opcode::SED(inner) => inner.0,
            Opcode::SEI(inner) => inner.0,
            Opcode::STA(inner) => inner.0,
            Opcode::STX(inner) => inner.0,
            Opcode::STY(inner) => inner.0,
            Opcode::TAX(inner) => inner.0,
            Opcode::TAY(inner) => inner.0,
            Opcode::TSX(inner) => inner.0,
            Opcode::TXA(inner) => inner.0,
            Opcode::TXS(inner) => inner.0,
            Opcode::TYA(inner) => inner.0,
        }
    }

    /// Decodes the instruction at the cursor and moves the cursor past it.
    ///
    /// The result is `None`, and the cursor stays where it was, when no byte
    /// is left, when the next byte is not a legal opcode, or when fewer bytes
    /// remain than the opcode's addressing mode takes.
    pub fn from_peekable(bytes: &mut ByteCursor) -> (r: Option<Opcode>)
        ensures
            r == decode_one(old(bytes)@),
            final(bytes)@ == old(bytes)@.skip(consumed(decode_entry(old(bytes)@)) as int),
    {
        match read_entry(bytes) {
            Some((mnemonic, mode)) => Some(Opcode::from_parts(mnemonic, mode)),
            None => None,
        }
    }
}

impl Instruction for Opcode {
    open spec fn mnemonic(&self) -> Mnemonic {
        match self {
            Opcode::ADC(_) => Mnemonic::ADC,
            Opcode::AND(_) => Mnemonic::AND,
            Opcode::ASL(_) => Mnemonic::ASL,
            Opcode::BCC(_) => Mnemonic::BCC,
            Opcode::BCS(_) => Mnemonic::BCS,
            Opcode::BEQ(_) => Mnemonic::BEQ,
            Opcode::BIT(_) => Mnemonic::BIT,
            Opcode::BMI(_) => Mnemonic::BMI,
            Opcode::BNE(_) => Mnemonic::BNE,
            Opcode::BPL(_) => Mnemonic::BPL,
            Opcode::BRK(_) => Mnemonic::BRK,
            Opcode::BVC(_) => Mnemonic::BVC,
            Opcode::BVS(_) => Mnemonic::BVS,
            Opcode::CLC(_) => Mnemonic::CLC,
            Opcode::CLD(_) => Mnemonic::CLD,
            Opcode::CLI(_) => Mnemonic::CLI,
            Opcode::CLV(_) => Mnemonic::CLV,
            Opcode::CMP(_) => Mnemonic::CMP,
            Opcode::CPX(_) => Mnemonic::CPX,
            Opcode::CPY(_) => Mnemonic::CPY,
            Opcode::DEC(_) => Mnemonic::DEC,
            Opcode::DEX(_) => Mnemonic::DEX,
            Opcode::DEY(_) => Mnemonic::DEY,
            Opcode::EOR(_) => Mnemonic::EOR,
            Opcode::INC(_) => Mnemonic::INC,
            Opcode::INX(_) => Mnemonic::INX,
            Opcode::INY(_) => Mnemonic::INY,
            Opcode::JMP(_) => Mnemonic::JMP,
            Opcode::JSR(_) => Mnemonic::JSR,
            Opcode::LDA(_) => Mnemonic::LDA,
            Opcode::LDX(_) => Mnemonic::LDX,
            Opcode::LDY(_) => Mnemonic::LDY,
            Opcode::LSR(_) => Mnemonic::LSR,
            Opcode::NOP(_) => Mnemonic::NOP,
            Opcode::ORA(_) => Mnemonic::ORA,
            Opcode::PHA(_) => Mnemonic::PHA,
            Opcode::PHP(_) => Mnemonic::PHP,
            Opcode::PLA(_) => Mnemonic::PLA,
            Opcode::PLP(_) => Mnemonic::PLP,
            Opcode::ROL(_) => Mnemonic::ROL,
            Opcode::ROR(_) => Mnemonic::ROR,
            Opcode::RTI(_) => Mnemonic::RTI,
            Opcode::RTS(_) => Mnemonic::RTS,
            Opcode::SBC(_) => Mnemonic::SBC,
            Opcode::SEC(_) => Mnemonic::SEC,
            Opcode::SED(_) => Mnemonic::SED,
            Opcode::SEI(_) => Mnemonic::SEI,
            Opcode::STA(_) => Mnemonic::STA,
            Opcode::STX(_) => Mnemonic::STX,
            Opcode::STY(_) => Mnemonic::STY,
            Opcode::TAX(_) => Mnemonic::TAX,
            Opcode::TAY(_) => Mnemonic::TAY,
            Opcode::TSX(_) => Mnemonic::TSX,
            Opcode::TXA(_) => Mnemonic::TXA,
            Opcode::TXS(_) => Mnemonic::TXS,
            Opcode::TYA(_) => Mnemonic::TYA,
        }
    }

    open spec fn mode(&self) -> AddressMode {
        match self {
            Opcode::ADC(inner) => inner.0,
            Opcode::AND(inner) => inner.0,
            Opcode::ASL(inner) => inner.0,
            Opcode::BCC(inner) => inner.0,
            Opcode::BCS(inner) => inner.0,
            Opcode::BEQ(inner) => inner.0,
            Opcode::BIT(inner) => inner.0,
            Opcode::BMI(inner) => inner.0,
            Opcode::BNE(inner) => inner.0,
            Opcode::BPL(inner) => inner.0,
            Opcode::BRK(inner) => inner.0,
            Opcode::BVC(inner) => inner.0,
            Opcode::BVS(inner) => inner.0,
            Opcode::CLC(inner) => inner.0,
            Opcode::CLD(inner) => inner.0,
            Opcode::CLI(inner) => inner.0,
            Opcode::CLV(inner) => inner.0,
            Opcode::CMP(inner) => inner.0,
            Opcode::CPX(inner) => inner.0,
            Opcode::CPY(inner) => inner.0,
            Opcode::DEC(inner) => inner.0,
            Opcode::DEX(inner) => inner.0,
            Opcode::DEY(inner) => inner.0,
            Opcode::EOR(inner) => inner.0,
            Opcode::INC(inner) => inner.0,
            Opcode::INX(inner) => inner.0,
            Opcode::INY(inner) => inner.0,
            Opcode::JMP(inner) => inner.0,
            Opcode::JSR(inner) => inner.0,
            Opcode::LDA(inner) => inner.0,
            Opcode::LDX(inner) => inner.0,
            Opcode::LDY(inner) => inner.0,
            Opcode::LSR(inner) => inner.0,
            Opcode::NOP(inner) => inner.0,
            Opcode::ORA(inner) => inner.0,
            Opcode::PHA(inner) => inner.0,
            Opcode::PHP(inner) => inner.0,
            Opcode::PLA(inner) => inner.0,
            Opcode::PLP(inner) => inner.0,
            Opcode::ROL(inner) => inner.0,
            Opcode::ROR(inner) => inner.0,
            Opcode::RTI(inner) => inner.0,
            Opcode::RTS(inner) => inner.0,
            Opcode::SBC(inner) => inner.0,
            Opcode::SEC(inner) => inner.0,
            Opcode::SED(inner) => inner.0,
            Opcode::SEI(inner) => inner.0,
            Opcode::STA(inner) => inner.0,
            Opcode::STX(inner) => inner.0,
            Opcode::STY(inner) => inner.0,
            Opcode::TAX(inner) => inner.0,
            Opcode::TAY(inner) => inner.0,
            Opcode::TSX(inner) => inner.0,
            Opcode::TXA(inner) => inner.0,
            Opcode::TXS(inner) => inner.0,
            Opcode::TYA(inner) => inner.0,
        }
    }

    fn format(&self) -> (r: String) {
        match self {
            Opcode::ADC(inner) => inner.format(),
            Opcode::AND(inner) => inner.format(),
            Opcode::ASL(inner) => inner.format(),
            Opcode::BCC(inner) => inner.format(),
            Opcode::BCS(inner) => inner.format(),
            Opcode::BEQ(inner) => inner.format(),
            Opcode::BIT(inner) => inner.format(),
            Opcode::BMI(inner) => inner.format(),
            Opcode::BNE(inner) => inner.format(),
            Opcode::BPL(inner) => inner.format(),
            Opcode::BRK(inner) => inner.format(),
            Opcode::BVC(inner) => inner.format(),
            Opcode::BVS(inner) => inner.format(),
            Opcode::CLC(inner) => inner.format(),
            Opcode::CLD(inner) => inner.format(),
            Opcode::CLI(inner) => inner.format(),
            Opcode::CLV(inner) => inner.format(),
            Opcode::CMP(inner) => inner.format(),
            Opcode::CPX(inner) => inner.format(),
            Opcode::CPY(inner) => inner.format(),
            Opcode::DEC(inner) => inner.format(),
            Opcode::DEX(inner) => inner.format(),
            Opcode::DEY(inner) => inner.format(),
            Opcode::EOR(inner) => inner.format(),
            Opcode::INC(inner) => inner.format(),
            Opcode::INX(inner) => inner.format(),
            Opcode::INY(inner) => inner.format(),
            Opcode::JMP(inner) => inner.format(),
            Opcode::JSR(inner) => inner.format(),
            Opcode::LDA(inner) => inner.format(),
            Opcode::LDX(inner) => inner.format(),
            Opcode::LDY(inner) => inner.format(),
            Opcode::LSR(inner) => inner.format(),
            Opcode::NOP(inner) => inner.format(),
            Opcode::ORA(inner) => inner.format(),
            Opcode::PHA(inner) => inner.format(),
            Opcode::PHP(inner) => inner.format(),
            Opcode::PLA(inner) => inner.format(),
            Opcode::PLP(inner) => inner.format(),
            Opcode::ROL(inner) => inner.format(),
            Opcode::ROR(inner) => inner.format(),
            Opcode::RTI(inner) => inner.format(),
            Opcode::RTS(inner) => inner.format(),
            Opcode::SBC(inner) => inner.format(),
            Opcode::SEC(inner) => inner.format(),
            Opcode::SED(inner) => inner.format(),
            Opcode::SEI(inner) => inner.format(),
            Opcode::STA(inner) => inner.format(),
            Opcode::STX(inner) => inner.format(),
            Opcode::STY(inner) => inner.format(),
            Opcode::TAX(inner) => inner.format(),
            Opcode::TAY(inner) => inner.format(),
            Opcode::TSX(inner) => inner.format(),
            Opcode::TXA(inner) => inner.format(),
            Opcode::TXS(inner) => inner.format(),
            Opcode::TYA(inner) => inner.format(),
        }
    }

    fn size(&self) -> (r: u8) {
        match self {
            Opcode::ADC(inner) => inner.size(),
            Opcode::AND(inner) => inner.size(),
            Opcode::ASL(inner) => inner.size(),
            Opcode::BCC(inner) => inner.size(),
            Opcode::BCS(inner) => inner.size(),
            Opcode::BEQ(inner) => inner.size(),
            Opcode::BIT(inner) => inner.size(),
            Opcode::BMI(inner) => inner.size(),
            Opcode::BNE(inner) => inner.size(),
            Opcode::BPL(inner) => inner.size(),
            Opcode::BRK(inner) => inner.size(),
            Opcode::BVC(inner) => inner.size(),
            Opcode::BVS(inner) => inner.size(),
            Opcode::CLC(inner) => inner.size(),
            Opcode::CLD(inner) => inner.size(),
            Opcode::CLI(inner) => inner.size(),
            Opcode::CLV(inner) => inner.size(),
            Opcode::CMP(inner) => inner.size(),
            Opcode::CPX(inner) => inner.size(),
            Opcode::CPY(inner) => inner.size(),
            Opcode::DEC(inner) => inner.size(),
            Opcode::DEX(inner) => inner.size(),
            Opcode::DEY(inner) => inner.size(),
            Opcode::EOR(inner) => inner.size(),
            Opcode::INC(inner) => inner.size(),
            Opcode::INX(inner) => inner.size(),
            Opcode::INY(inner) => inner.size(),
            Opcode::JMP(inner) => inner.size(),
            Opcode::JSR(inner) => inner.size(),
            Opcode::LDA(inner) => inner.size(),
            Opcode::LDX(inner) => inner.size(),
            Opcode::LDY(inner) => inner.size(),
            Opcode::LSR(inner) => inner.size(),
            Opcode::NOP(inner) => inner.size(),
            Opcode::ORA(inner) => inner.size(),
            Opcode::PHA(inner) => inner.size(),
            Opcode::PHP(inner) => inner.size(),
            Opcode::PLA(inner) => inner.size(),
            Opcode::PLP(inner) => inner.size(),
            Opcode::ROL(inner) => inner.size(),
            Opcode::ROR(inner) => inner.size(),
            Opcode::RTI(inner) => inner.size(),
            Opcode::RTS(inner) => inner.size(),
            Opcode::SBC(inner) => inner.size(),
            Opcode::SEC(inner) => inner.size(),
            Opcode::SED(inner) => inner.size(),
            Opcode::SEI(inner) => inner.size(),
            Opcode::STA(inner) => inner.size(),
            Opcode::STX(inner) => inner.size(),
            Opcode::STY(inner) => inner.size(),
            Opcode::TAX(inner) => inner.size(),
            Opcode::TAY(inner) => inner.size(),
            Opcode::TSX(inner) => inner.size(),
            Opcode::TXA(inner) => inner.size(),
            Opcode::TXS(inner) => inner.size(),
            Opcode::TYA(inner) => inner.size(),
        }
    }
}

/// The instruction at the head of `bytes`, if there is one.
pub open spec fn decode_one(bytes: Seq<u8>) -> Option<Opcode> {
    match decode_entry(bytes) {
        Some((mnemonic, mode)) => Some(Opcode::from_parts_spec(mnemonic, mode)),
        None => None,
    }
}

/// The instructions of `bytes` from its start, each decoded where the one
/// before it ended, up to the first place that holds no instruction.
pub open spec fn decode_all(bytes: Seq<u8>) -> Seq<Opcode>
    decreases bytes.len(),
{
    match decode_entry(bytes) {
        Some((mnemonic, mode)) => {
            proof {
                lemma_decode_consumes(bytes);
            }
            seq![Opcode::from_parts_spec(mnemonic, mode)] + decode_all(
                bytes.skip(mode.size_spec() as int),
            )
        },
        None => Seq::empty(),
    }
}

/// An instruction is made of its mnemonic and its addressing mode, and of
/// nothing else.
pub proof fn lemma_parts(op: Opcode, mnemonic: Mnemonic, mode: AddressMode)
    ensures
        Opcode::from_parts_spec(op.mnemonic(), op.mode()) == op,
        Opcode::from_parts_spec(mnemonic, mode).mnemonic() == mnemonic,
        Opcode::from_parts_spec(mnemonic, mode).mode() == mode,
{
}

} // verus!
