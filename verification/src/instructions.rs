//! One type for each mnemonic of the instruction set.

use crate::address_mode::AddressMode;
use crate::cursor::ByteCursor;
use crate::decode::{consumed_as, decode_as, read_as};
use crate::format::{format_instruction, instruction_text};
use crate::mnemonic::Mnemonic;
use vstd::prelude::*;

verus! {

/// Decoding of one kind of instruction from bytes.
pub trait InstructionConstruct: Sized {
    /// The mnemonic that this type stands for.
    spec fn mnemonic_tag() -> Mnemonic;

    /// The instruction of this type with the given addressing mode.
    spec fn with_mode(mode: AddressMode) -> Self;

    /// Decodes an instruction of this type at the cursor and moves the cursor
    /// past it. Where the bytes at the cursor do not hold one, the result is
    /// `None` and the cursor stays where it was.
    fn from_peekable(bytes: &mut ByteCursor) -> (r: Option<Self>)
        ensures
            decode_as(Self::mnemonic_tag(), old(bytes)@) is None ==> r is None,
            decode_as(Self::mnemonic_tag(), old(bytes)@) is Some ==> r == Some(
                Self::with_mode(decode_as(Self::mnemonic_tag(), old(bytes)@)->Some_0),
            ),
            final(bytes)@ == old(bytes)@.skip(
                consumed_as(decode_as(Self::mnemonic_tag(), old(bytes)@)) as int,
            ),
    ;

    /// Decodes an instruction of this type from the start of `bytes`.
    fn from_bytes(bytes: &[u8]) -> (r: Option<Self>)
        ensures
            decode_as(Self::mnemonic_tag(), bytes@) is None ==> r is None,
            decode_as(Self::mnemonic_tag(), bytes@) is Some ==> r == Some(
                Self::with_mode(decode_as(Self::mnemonic_tag(), bytes@)->Some_0),
            ),
    {
        let mut cursor = ByteCursor::new(bytes);
        Self::from_peekable(&mut cursor)
    }

    /// The mnemonic's three upper-case letters.
    fn name(&self) -> (r: &'static str)
        ensures
            r@ == Self::mnemonic_tag().name_spec(),
    ;
}

/// What every decoded instruction offers: its encoded size and its text.
pub trait Instruction {
    /// The instruction's mnemonic.
    spec fn mnemonic(&self) -> Mnemonic;

    /// The instruction's addressing mode with its operand.
    spec fn mode(&self) -> AddressMode;

    /// The canonical disassembly text: the mnemonic followed by the operand.
    fn format(&self) -> (r: String)
        ensures
            r@ == instruction_text(self.mnemonic(), self.mode()),
    ;

    /// Encoded size in bytes, opcode included.
    fn size(&self) -> (r: u8)
        ensures
            r == self.mode().size_spec(),
    ;
}

/// Add with carry.
#[derive(Debug, Clone, Copy, PartialEq, Eq)]
pub struct ADC(pub AddressMode);

impl InstructionConstruct for ADC {
    open spec fn mnemonic_tag() -> Mnemonic {
        Mnemonic::ADC
    }

    open spec fn with_mode(mode: AddressMode) -> Self {
        ADC(mode)
    }

    fn from_peekable(bytes: &mut ByteCursor) -> (r: Option<Self>) {
        match read_as(bytes, Mnemonic::ADC) {
            Some(mode) => Some(ADC(mode)),
            None => None,
        }
    }

    fn name(&self) -> (r: &'static str) {
        Mnemonic::ADC.name()
    }
}

impl Instruction for ADC {
    open spec fn mnemonic(&self) -> Mnemonic {
        Mnemonic::ADC
    }

    open spec fn mode(&self) -> AddressMode {
        self.0
    }

    fn format(&self) -> (r: String) {
        format_instruction(Mnemonic::ADC, self.0)
    }

    fn size(&self) -> (r: u8) {
        self.0.size()
    }
}

/// Logical AND.
#[derive(Debug, Clone, Copy, PartialEq, Eq)]
pub struct AND(pub AddressMode);

impl InstructionConstruct for AND {
    open spec fn mnemonic_tag() -> Mnemonic {
        Mnemonic::AND
    }

    open spec fn with_mode(mode: AddressMode) -> Self {
        AND(mode)
    }

    fn from_peekable(bytes: &mut ByteCursor) -> (r: Option<Self>) {
        match read_as(bytes, Mnemonic::AND) {
            Some(mode) => Some(AND(mode)),
            None => None,
        }
    }

    fn name(&self) -> (r: &'static str) {
        Mnemonic::AND.name()
    }
}

impl Instruction for AND {
    open spec fn mnemonic(&self) -> Mnemonic {
        Mnemonic::AND
    }

    open spec fn mode(&self) -> AddressMode {
        self.0
    }

    fn format(&self) -> (r: String) {
        format_instruction(Mnemonic::AND, self.0)
    }

    fn size(&self) -> (r: u8) {
        self.0.size()
    }
}

/// Arithmetic shift left.
#[derive(Debug, Clone, Copy, PartialEq, Eq)]
pub struct ASL(pub AddressMode);

impl InstructionConstruct for ASL {
    open spec fn mnemonic_tag() -> Mnemonic {
        Mnemonic::ASL
    }

    open spec fn with_mode(mode: AddressMode) -> Self {
        ASL(mode)
    }

    fn from_peekable(bytes: &mut ByteCursor) -> (r: Option<Self>) {
        match read_as(bytes, Mnemonic::ASL) {
            Some(mode) => Some(ASL(mode)),
            None => None,
        }
    }

    fn name(&self) -> (r: &'static str) {
        Mnemonic::ASL.name()
    }
}

impl Instruction for ASL {
    open spec fn mnemonic(&self) -> Mnemonic {
        Mnemonic::ASL
    }

    open spec fn mode(&self) -> AddressMode {
        self.0
    }

    fn format(&self) -> (r: String) {
        format_instruction(Mnemonic::ASL, self.0)
    }

    fn size(&self) -> (r: u8) {
        self.0.size()
    }
}

/// Branch if carry clear.
#[derive(Debug, Clone, Copy, PartialEq, Eq)]
pub struct BCC(pub AddressMode);

impl InstructionConstruct for BCC {
    open spec fn mnemonic_tag() -> Mnemonic {
        Mnemonic::BCC
    }

    open spec fn with_mode(mode: AddressMode) -> Self {
        BCC(mode)
    }

    fn from_peekable(bytes: &mut ByteCursor) -> (r: Option<Self>) {
        match read_as(bytes, Mnemonic::BCC) {
            Some(mode) => Some(BCC(mode)),
            None => None,
        }
    }

    fn name(&self) -> (r: &'static str) {
        Mnemonic::BCC.name()
    }
}

impl Instruction for BCC {
    open spec fn mnemonic(&self) -> Mnemonic {
        Mnemonic::BCC
    }

    open spec fn mode(&self) -> AddressMode {
        self.0
    }

    fn format(&self) -> (r: String) {
        format_instruction(Mnemonic::BCC, self.0)
    }

    fn size(&self) -> (r: u8) {
        self.0.size()
    }
}

/// Branch if carry set.
#[derive(Debug, Clone, Copy, PartialEq, Eq)]
pub struct BCS(pub AddressMode);

impl InstructionConstruct for BCS {
    open spec fn mnemonic_tag() -> Mnemonic {
        Mnemonic::BCS
    }

    open spec fn with_mode(mode: AddressMode) -> Self {
        BCS(mode)
    }

    fn from_peekable(bytes: &mut ByteCursor) -> (r: Option<Self>) {
        match read_as(bytes, Mnemonic::BCS) {
            Some(mode) => Some(BCS(mode)),
            None => None,
        }
    }

    fn name(&self) -> (r: &'static str) {
        Mnemonic::BCS.name()
    }
}

impl Instruction for BCS {
    open spec fn mnemonic(&self) -> Mnemonic {
        Mnemonic::BCS
    }

    open spec fn mode(&self) -> AddressMode {
        self.0
    }

    fn format(&self) -> (r: String) {
        format_instruction(Mnemonic::BCS, self.0)
    }

    fn size(&self) -> (r: u8) {
        self.0.size()
    }
}

/// Branch if equal.
#[derive(Debug, Clone, Copy, PartialEq, Eq)]
pub struct BEQ(pub AddressMode);

impl InstructionConstruct for BEQ {
    open spec fn mnemonic_tag() -> Mnemonic {
        Mnemonic::BEQ
    }

    open spec fn with_mode(mode: AddressMode) -> Self {
        BEQ(mode)
    }

    fn from_peekable(bytes: &mut ByteCursor) -> (r: Option<Self>) {
        match read_as(bytes, Mnemonic::BEQ) {
            Some(mode) => Some(BEQ(mode)),
            None => None,
        }
    }

    fn name(&self) -> (r: &'static str) {
        Mnemonic::BEQ.name()
    }
}

impl Instruction for BEQ {
    open spec fn mnemonic(&self) -> Mnemonic {
        Mnemonic::BEQ
    }

    open spec fn mode(&self) -> AddressMode {
        self.0
    }

    fn format(&self) -> (r: String) {
        format_instruction(Mnemonic::BEQ, self.0)
    }

    fn size(&self) -> (r: u8) {
        self.0.size()
    }
}

/// Bit test.
#[derive(Debug, Clone, Copy, PartialEq, Eq)]
pub struct BIT(pub AddressMode);

impl InstructionConstruct for BIT {
    open spec fn mnemonic_tag() -> Mnemonic {
        Mnemonic::BIT
    }

    open spec fn with_mode(mode: AddressMode) -> Self {
        BIT(mode)
    }

    fn from_peekable(bytes: &mut ByteCursor) -> (r: Option<Self>) {
        match read_as(bytes, Mnemonic::BIT) {
            Some(mode) => Some(BIT(mode)),
            None => None,
        }
    }

    fn name(&self) -> (r: &'static str) {
        Mnemonic::BIT.name()
    }
}

impl Instruction for BIT {
    open spec fn mnemonic(&self) -> Mnemonic {
        Mnemonic::BIT
    }

    open spec fn mode(&self) -> AddressMode {
        self.0
    }

    fn format(&self) -> (r: String) {
        format_instruction(Mnemonic::BIT, self.0)
    }

    fn size(&self) -> (r: u8) {
        self.0.size()
    }
}

/// Branch if minus.
#[derive(Debug, Clone, Copy, PartialEq, Eq)]
pub struct BMI(pub AddressMode);

impl InstructionConstruct for BMI {
    open spec fn mnemonic_tag() -> Mnemonic {
        Mnemonic::BMI
    }

    open spec fn with_mode(mode: AddressMode) -> Self {
        BMI(mode)
    }

    fn from_peekable(bytes: &mut ByteCursor) -> (r: Option<Self>) {
        match read_as(bytes, Mnemonic::BMI) {
            Some(mode) => Some(BMI(mode)),
            None => None,
        }
    }

    fn name(&self) -> (r: &'static str) {
        Mnemonic::BMI.name()
    }
}

impl Instruction for BMI {
    open spec fn mnemonic(&self) -> Mnemonic {
        Mnemonic::BMI
    }

    open spec fn mode(&self) -> AddressMode {
        self.0
    }

    fn format(&self) -> (r: String) {
        format_instruction(Mnemonic::BMI, self.0)
    }

    fn size(&self) -> (r: u8) {
        self.0.size()
    }
}

/// Branch if not equal.
#[derive(Debug, Clone, Copy, PartialEq, Eq)]
pub struct BNE(pub AddressMode);

impl InstructionConstruct for BNE {
    open spec fn mnemonic_tag() -> Mnemonic {
        Mnemonic::BNE
    }

    open spec fn with_mode(mode: AddressMode) -> Self {
        BNE(mode)
    }

    fn from_peekable(bytes: &mut ByteCursor) -> (r: Option<Self>) {
        match read_as(bytes, Mnemonic::BNE) {
            Some(mode) => Some(BNE(mode)),
            None => None,
        }
    }

    fn name(&self) -> (r: &'static str) {
        Mnemonic::BNE.name()
    }
}

impl Instruction for BNE {
    open spec fn mnemonic(&self) -> Mnemonic {
        Mnemonic::BNE
    }

    open spec fn mode(&self) -> AddressMode {
        self.0
    }

    fn format(&self) -> (r: String) {
        format_instruction(Mnemonic::BNE, self.0)
    }

    fn size(&self) -> (r: u8) {
        self.0.size()
    }
}

/// Branch if positive.
#[derive(Debug, Clone, Copy, PartialEq, Eq)]
pub struct BPL(pub AddressMode);

impl InstructionConstruct for BPL {
    open spec fn mnemonic_tag() -> Mnemonic {
        Mnemonic::BPL
    }

    open spec fn with_mode(mode: AddressMode) -> Self {
        BPL(mode)
    }

    fn from_peekable(bytes: &mut ByteCursor) -> (r: Option<Self>) {
        match read_as(bytes, Mnemonic::BPL) {
            Some(mode) => Some(BPL(mode)),
            None => None,
        }
    }

    fn name(&self) -> (r: &'static str) {
        Mnemonic::BPL.name()
    }
}

impl Instruction for BPL {
    open spec fn mnemonic(&self) -> Mnemonic {
        Mnemonic::BPL
    }

    open spec fn mode(&self) -> AddressMode {
        self.0
    }

    fn format(&self) -> (r: String) {
        format_instruction(Mnemonic::BPL, self.0)
    }

    fn size(&self) -> (r: u8) {
        self.0.size()
    }
}

/// Force interrupt.
#[derive(Debug, Clone, Copy, PartialEq, Eq)]
pub struct BRK(pub AddressMode);

impl InstructionConstruct for BRK {
    open spec fn mnemonic_tag() -> Mnemonic {
        Mnemonic::BRK
    }

    open spec fn with_mode(mode: AddressMode) -> Self {
        BRK(mode)
    }

    fn from_peekable(bytes: &mut ByteCursor) -> (r: Option<Self>) {
        match read_as(bytes, Mnemonic::BRK) {
            Some(mode) => Some(BRK(mode)),
            None => None,
        }
    }

    fn name(&self) -> (r: &'static str) {
        Mnemonic::BRK.name()
    }
}

impl Instruction for BRK {
    open spec fn mnemonic(&self) -> Mnemonic {
        Mnemonic::BRK
    }

    open spec fn mode(&self) -> AddressMode {
        self.0
    }

    fn format(&self) -> (r: String) {
        format_instruction(Mnemonic::BRK, self.0)
    }

    fn size(&self) -> (r: u8) {
        self.0.size()
    }
}

/// Branch if overflow clear.
#[derive(Debug, Clone, Copy, PartialEq, Eq)]
pub struct BVC(pub AddressMode);

impl InstructionConstruct for BVC {
    open spec fn mnemonic_tag() -> Mnemonic {
        Mnemonic::BVC
    }

    open spec fn with_mode(mode: AddressMode) -> Self {
        BVC(mode)
    }

    fn from_peekable(bytes: &mut ByteCursor) -> (r: Option<Self>) {
        match read_as(bytes, Mnemonic::BVC) {
            Some(mode) => Some(BVC(mode)),
            None => None,
        }
    }

    fn name(&self) -> (r: &'static str) {
        Mnemonic::BVC.name()
    }
}

impl Instruction for BVC {
    open spec fn mnemonic(&self) -> Mnemonic {
        Mnemonic::BVC
    }

    open spec fn mode(&self) -> AddressMode {
        self.0
    }

    fn format(&self) -> (r: String) {
        format_instruction(Mnemonic::BVC, self.0)
    }

    fn size(&self) -> (r: u8) {
        self.0.size()
    }
}

/// Branch if overflow set.
#[derive(Debug, Clone, Copy, PartialEq, Eq)]
pub struct BVS(pub AddressMode);

impl InstructionConstruct for BVS {
    open spec fn mnemonic_tag() -> Mnemonic {
        Mnemonic::BVS
    }

    open spec fn with_mode(mode: AddressMode) -> Self {
        BVS(mode)
    }

    fn from_peekable(bytes: &mut ByteCursor) -> (r: Option<Self>) {
        match read_as(bytes, Mnemonic::BVS) {
            Some(mode) => Some(BVS(mode)),
            None => None,
        }
    }

    fn name(&self) -> (r: &'static str) {
        Mnemonic::BVS.name()
    }
}

impl Instruction for BVS {
    open spec fn mnemonic(&self) -> Mnemonic {
        Mnemonic::BVS
    }

    open spec fn mode(&self) -> AddressMode {
        self.0
    }

    fn format(&self) -> (r: String) {
        format_instruction(Mnemonic::BVS, self.0)
    }

    fn size(&self) -> (r: u8) {
        self.0.size()
    }
}

/// Clear carry flag.
#[derive(Debug, Clone, Copy, PartialEq, Eq)]
pub struct CLC(pub AddressMode);

impl InstructionConstruct for CLC {
    open spec fn mnemonic_tag() -> Mnemonic {
        Mnemonic::CLC
    }

    open spec fn with_mode(mode: AddressMode) -> Self {
        CLC(mode)
    }

    fn from_peekable(bytes: &mut ByteCursor) -> (r: Option<Self>) {
        match read_as(bytes, Mnemonic::CLC) {
            Some(mode) => Some(CLC(mode)),
            None => None,
        }
    }

    fn name(&self) -> (r: &'static str) {
        Mnemonic::CLC.name()
    }
}

impl Instruction for CLC {
    open spec fn mnemonic(&self) -> Mnemonic {
        Mnemonic::CLC
    }

    open spec fn mode(&self) -> AddressMode {
        self.0
    }

    fn format(&self) -> (r: String) {
        format_instruction(Mnemonic::CLC, self.0)
    }

    fn size(&self) -> (r: u8) {
        self.0.size()
    }
}

/// Clear decimal mode.
#[derive(Debug, Clone, Copy, PartialEq, Eq)]
pub struct CLD(pub AddressMode);

impl InstructionConstruct for CLD {
    open spec fn mnemonic_tag() -> Mnemonic {
        Mnemonic::CLD
    }

    open spec fn with_mode(mode: AddressMode) -> Self {
        CLD(mode)
    }

    fn from_peekable(bytes: &mut ByteCursor) -> (r: Option<Self>) {
        match read_as(bytes, Mnemonic::CLD) {
            Some(mode) => Some(CLD(mode)),
            None => None,
        }
    }

    fn name(&self) -> (r: &'static str) {
        Mnemonic::CLD.name()
    }
}

impl Instruction for CLD {
    open spec fn mnemonic(&self) -> Mnemonic {
        Mnemonic::CLD
    }

    open spec fn mode(&self) -> AddressMode {
        self.0
    }

    fn format(&self) -> (r: String) {
        format_instruction(Mnemonic::CLD, self.0)
    }

    fn size(&self) -> (r: u8) {
        self.0.size()
    }
}

/// Clear interrupt disable.
#[derive(Debug, Clone, Copy, PartialEq, Eq)]
pub struct CLI(pub AddressMode);

impl InstructionConstruct for CLI {
    open spec fn mnemonic_tag() -> Mnemonic {
        Mnemonic::CLI
    }

    open spec fn with_mode(mode: AddressMode) -> Self {
        CLI(mode)
    }

    fn from_peekable(bytes: &mut ByteCursor) -> (r: Option<Self>) {
        match read_as(bytes, Mnemonic::CLI) {
            Some(mode) => Some(CLI(mode)),
            None => None,
        }
    }

    fn name(&self) -> (r: &'static str) {
        Mnemonic::CLI.name()
    }
}

impl Instruction for CLI {
    open spec fn mnemonic(&self) -> Mnemonic {
        Mnemonic::CLI
    }

    open spec fn mode(&self) -> AddressMode {
        self.0
    }

    fn format(&self) -> (r: String) {
        format_instruction(Mnemonic::CLI, self.0)
    }

    fn size(&self) -> (r: u8) {
        self.0.size()
    }
}

/// Clear overflow flag.
#[derive(Debug, Clone, Copy, PartialEq, Eq)]
pub struct CLV(pub AddressMode);

impl InstructionConstruct for CLV {
    open spec fn mnemonic_tag() -> Mnemonic {
        Mnemonic::CLV
    }

    open spec fn with_mode(mode: AddressMode) -> Self {
        CLV(mode)
    }

    fn from_peekable(bytes: &mut ByteCursor) -> (r: Option<Self>) {
        match read_as(bytes, Mnemonic::CLV) {
            Some(mode) => Some(CLV(mode)),
            None => None,
        }
    }

    fn name(&self) -> (r: &'static str) {
        Mnemonic::CLV.name()
    }
}

impl Instruction for CLV {
    open spec fn mnemonic(&self) -> Mnemonic {
        Mnemonic::CLV
    }

    open spec fn mode(&self) -> AddressMode {
        self.0
    }

    fn format(&self) -> (r: String) {
        format_instruction(Mnemonic::CLV, self.0)
    }

    fn size(&self) -> (r: u8) {
        self.0.size()
    }
}

/// Compare with accumulator.
#[derive(Debug, Clone, Copy, PartialEq, Eq)]
pub struct CMP(pub AddressMode);

impl InstructionConstruct for CMP {
    open spec fn mnemonic_tag() -> Mnemonic {
        Mnemonic::CMP
    }

    open spec fn with_mode(mode: AddressMode) -> Self {
        CMP(mode)
    }

    fn from_peekable(bytes: &mut ByteCursor) -> (r: Option<Self>) {
        match read_as(bytes, Mnemonic::CMP) {
            Some(mode) => Some(CMP(mode)),
            None => None,
        }
    }

    fn name(&self) -> (r: &'static str) {
        Mnemonic::CMP.name()
    }
}

impl Instruction for CMP {
    open spec fn mnemonic(&self) -> Mnemonic {
        Mnemonic::CMP
    }

    open spec fn mode(&self) -> AddressMode {
        self.0
    }

    fn format(&self) -> (r: String) {
        format_instruction(Mnemonic::CMP, self.0)
    }

    fn size(&self) -> (r: u8) {
        self.0.size()
    }
}

/// Compare with X register.
#[derive(Debug, Clone, Copy, PartialEq, Eq)]
pub struct CPX(pub AddressMode);

impl InstructionConstruct for CPX {
    open spec fn mnemonic_tag() -> Mnemonic {
        Mnemonic::CPX
    }

    open spec fn with_mode(mode: AddressMode) -> Self {
        CPX(mode)
    }

    fn from_peekable(bytes: &mut ByteCursor) -> (r: Option<Self>) {
        match read_as(bytes, Mnemonic::CPX) {
            Some(mode) => Some(CPX(mode)),
            None => None,
        }
    }

    fn name(&self) -> (r: &'static str) {
        Mnemonic::CPX.name()
    }
}

impl Instruction for CPX {
    open spec fn mnemonic(&self) -> Mnemonic {
        Mnemonic::CPX
    }

    open spec fn mode(&self) -> AddressMode {
        self.0
    }

    fn format(&self) -> (r: String) {
        format_instruction(Mnemonic::CPX, self.0)
    }

    fn size(&self) -> (r: u8) {
        self.0.size()
    }
}

/// Compare with Y register.
#[derive(Debug, Clone, Copy, PartialEq, Eq)]
pub struct CPY(pub AddressMode);

impl InstructionConstruct for CPY {
    open spec fn mnemonic_tag() -> Mnemonic {
        Mnemonic::CPY
    }

    open spec fn with_mode(mode: AddressMode) -> Self {
        CPY(mode)
    }

    fn from_peekable(bytes: &mut ByteCursor) -> (r: Option<Self>) {
        match read_as(bytes, Mnemonic::CPY) {
            Some(mode) => Some(CPY(mode)),
            None => None,
        }
    }

    fn name(&self) -> (r: &'static str) {
        Mnemonic::CPY.name()
    }
}

impl Instruction for CPY {
    open spec fn mnemonic(&self) -> Mnemonic {
        Mnemonic::CPY
    }

    open spec fn mode(&self) -> AddressMode {
        self.0
    }

    fn format(&self) -> (r: String) {
        format_instruction(Mnemonic::CPY, self.0)
    }

    fn size(&self) -> (r: u8) {
        self.0.size()
    }
}

/// Decrement memory.
#[derive(Debug, Clone, Copy, PartialEq, Eq)]
pub struct DEC(pub AddressMode);

impl InstructionConstruct for DEC {
    open spec fn mnemonic_tag() -> Mnemonic {
        Mnemonic::DEC
    }

    open spec fn with_mode(mode: AddressMode) -> Self {
        DEC(mode)
    }

    fn from_peekable(bytes: &mut ByteCursor) -> (r: Option<Self>) {
        match read_as(bytes, Mnemonic::DEC) {
            Some(mode) => Some(DEC(mode)),
            None => None,
        }
    }

    fn name(&self) -> (r: &'static str) {
        Mnemonic::DEC.name()
    }
}

impl Instruction for DEC {
    open spec fn mnemonic(&self) -> Mnemonic {
        Mnemonic::DEC
    }

    open spec fn mode(&self) -> AddressMode {
        self.0
    }

    fn format(&self) -> (r: String) {
        format_instruction(Mnemonic::DEC, self.0)
    }

    fn size(&self) -> (r: u8) {
        self.0.size()
    }
}

/// Decrement X register.
#[derive(Debug, Clone, Copy, PartialEq, Eq)]
pub struct DEX(pub AddressMode);

impl InstructionConstruct for DEX {
    open spec fn mnemonic_tag() -> Mnemonic {
        Mnemonic::DEX
    }

    open spec fn with_mode(mode: AddressMode) -> Self {
        DEX(mode)
    }

    fn from_peekable(bytes: &mut ByteCursor) -> (r: Option<Self>) {
        match read_as(bytes, Mnemonic::DEX) {
            Some(mode) => Some(DEX(mode)),
            None => None,
        }
    }

    fn name(&self) -> (r: &'static str) {
        Mnemonic::DEX.name()
    }
}

impl Instruction for DEX {
    open spec fn mnemonic(&self) -> Mnemonic {
        Mnemonic::DEX
    }

    open spec fn mode(&self) -> AddressMode {
        self.0
    }

    fn format(&self) -> (r: String) {
        format_instruction(Mnemonic::DEX, self.0)
    }

    fn size(&self) -> (r: u8) {
        self.0.size()
    }
}

/// Decrement Y register.
#[derive(Debug, Clone, Copy, PartialEq, Eq)]
pub struct DEY(pub AddressMode);

impl InstructionConstruct for DEY {
    open spec fn mnemonic_tag() -> Mnemonic {
        Mnemonic::DEY
    }

    open spec fn with_mode(mode: AddressMode) -> Self {
        DEY(mode)
    }

    fn from_peekable(bytes: &mut ByteCursor) -> (r: Option<Self>) {
        match read_as(bytes, Mnemonic::DEY) {
            Some(mode) => Some(DEY(mode)),
            None => None,
        }
    }

    fn name(&self) -> (r: &'static str) {
        Mnemonic::DEY.name()
    }
}

impl Instruction for DEY {
    open spec fn mnemonic(&self) -> Mnemonic {
        Mnemonic::DEY
    }

    open spec fn mode(&self) -> AddressMode {
        self.0
    }

    fn format(&self) -> (r: String) {
        format_instruction(Mnemonic::DEY, self.0)
    }

    fn size(&self) -> (r: u8) {
        self.0.size()
    }
}

/// Exclusive OR.
#[derive(Debug, Clone, Copy, PartialEq, Eq)]
pub struct EOR(pub AddressMode);

impl InstructionConstruct for EOR {
    open spec fn mnemonic_tag() -> Mnemonic {
        Mnemonic::EOR
    }

    open spec fn with_mode(mode: AddressMode) -> Self {
        EOR(mode)
    }

    fn from_peekable(bytes: &mut ByteCursor) -> (r: Option<Self>) {
        match read_as(bytes, Mnemonic::EOR) {
            Some(mode) => Some(EOR(mode)),
            None => None,
        }
    }

    fn name(&self) -> (r: &'static str) {
        Mnemonic::EOR.name()
    }
}

impl Instruction for EOR {
    open spec fn mnemonic(&self) -> Mnemonic {
        Mnemonic::EOR
    }

    open spec fn mode(&self) -> AddressMode {
        self.0
    }

    fn format(&self) -> (r: String) {
        format_instruction(Mnemonic::EOR, self.0)
    }

    fn size(&self) -> (r: u8) {
        self.0.size()
    }
}

/// Increment memory.
#[derive(Debug, Clone, Copy, PartialEq, Eq)]
pub struct INC(pub AddressMode);

impl InstructionConstruct for INC {
    open spec fn mnemonic_tag() -> Mnemonic {
        Mnemonic::INC
    }

    open spec fn with_mode(mode: AddressMode) -> Self {
        INC(mode)
    }

    fn from_peekable(bytes: &mut ByteCursor) -> (r: Option<Self>) {
        match read_as(bytes, Mnemonic::INC) {
            Some(mode) => Some(INC(mode)),
            None => None,
        }
    }

    fn name(&self) -> (r: &'static str) {
        Mnemonic::INC.name()
    }
}

impl Instruction for INC {
    open spec fn mnemonic(&self) -> Mnemonic {
        Mnemonic::INC
    }

    open spec fn mode(&self) -> AddressMode {
        self.0
    }

    fn format(&self) -> (r: String) {
        format_instruction(Mnemonic::INC, self.0)
    }

    fn size(&self) -> (r: u8) {
        self.0.size()
    }
}

/// Increment X register.
#[derive(Debug, Clone, Copy, PartialEq, Eq)]
pub struct INX(pub AddressMode);

impl InstructionConstruct for INX {
    open spec fn mnemonic_tag() -> Mnemonic {
        Mnemonic::INX
    }

    open spec fn with_mode(mode: AddressMode) -> Self {
        INX(mode)
    }

    fn from_peekable(bytes: &mut ByteCursor) -> (r: Option<Self>) {
        match read_as(bytes, Mnemonic::INX) {
            Some(mode) => Some(INX(mode)),
            None => None,
        }
    }

    fn name(&self) -> (r: &'static str) {
        Mnemonic::INX.name()
    }
}

impl Instruction for INX {
    open spec fn mnemonic(&self) -> Mnemonic {
        Mnemonic::INX
    }

    open spec fn mode(&self) -> AddressMode {
        self.0
    }

    fn format(&self) -> (r: String) {
        format_instruction(Mnemonic::INX, self.0)
    }

    fn size(&self) -> (r: u8) {
        self.0.size()
    }
}

/// Increment Y register.
#[derive(Debug, Clone, Copy, PartialEq, Eq)]
pub struct INY(pub AddressMode);

impl InstructionConstruct for INY {
    open spec fn mnemonic_tag() -> Mnemonic {
        Mnemonic::INY
    }

    open spec fn with_mode(mode: AddressMode) -> Self {
        INY(mode)
    }

    fn from_peekable(bytes: &mut ByteCursor) -> (r: Option<Self>) {
        match read_as(bytes, Mnemonic::INY) {
            Some(mode) => Some(INY(mode)),
            None => None,
        }
    }

    fn name(&self) -> (r: &'static str) {
        Mnemonic::INY.name()
    }
}

impl Instruction for INY {
    open spec fn mnemonic(&self) -> Mnemonic {
        Mnemonic::INY
    }

    open spec fn mode(&self) -> AddressMode {
        self.0
    }

    fn format(&self) -> (r: String) {
        format_instruction(Mnemonic::INY, self.0)
    }

    fn size(&self) -> (r: u8) {
        self.0.size()
    }
}

/// Jump.
#[derive(Debug, Clone, Copy, PartialEq, Eq)]
pub struct JMP(pub AddressMode);

impl InstructionConstruct for JMP {
    open spec fn mnemonic_tag() -> Mnemonic {
        Mnemonic::JMP
    }

    open spec fn with_mode(mode: AddressMode) -> Self {
        JMP(mode)
    }

    fn from_peekable(bytes: &mut ByteCursor) -> (r: Option<Self>) {
        match read_as(bytes, Mnemonic::JMP) {
            Some(mode) => Some(JMP(mode)),
            None => None,
        }
    }

    fn name(&self) -> (r: &'static str) {
        Mnemonic::JMP.name()
    }
}

impl Instruction for JMP {
    open spec fn mnemonic(&self) -> Mnemonic {
        Mnemonic::JMP
    }

    open spec fn mode(&self) -> AddressMode {
        self.0
    }

    fn format(&self) -> (r: String) {
        format_instruction(Mnemonic::JMP, self.0)
    }

    fn size(&self) -> (r: u8) {
        self.0.size()
    }
}

/// Jump to subroutine.
#[derive(Debug, Clone, Copy, PartialEq, Eq)]
pub struct JSR(pub AddressMode);

impl InstructionConstruct for JSR {
    open spec fn mnemonic_tag() -> Mnemonic {
        Mnemonic::JSR
    }

    open spec fn with_mode(mode: AddressMode) -> Self {
        JSR(mode)
    }

    fn from_peekable(bytes: &mut ByteCursor) -> (r: Option<Self>) {
        match read_as(bytes, Mnemonic::JSR) {
            Some(mode) => Some(JSR(mode)),
            None => None,
        }
    }

    fn name(&self) -> (r: &'static str) {
        Mnemonic::JSR.name()
    }
}

impl Instruction for JSR {
    open spec fn mnemonic(&self) -> Mnemonic {
        Mnemonic::JSR
    }

    open spec fn mode(&self) -> AddressMode {
        self.0
    }

    fn format(&self) -> (r: String) {
        format_instruction(Mnemonic::JSR, self.0)
    }

    fn size(&self) -> (r: u8) {
        self.0.size()
    }
}

/// Load accumulator.
#[derive(Debug, Clone, Copy, PartialEq, Eq)]
pub struct LDA(pub AddressMode);

impl InstructionConstruct for LDA {
    open spec fn mnemonic_tag() -> Mnemonic {
        Mnemonic::LDA
    }

    open spec fn with_mode(mode: AddressMode) -> Self {
        LDA(mode)
    }

    fn from_peekable(bytes: &mut ByteCursor) -> (r: Option<Self>) {
        match read_as(bytes, Mnemonic::LDA) {
            Some(mode) => Some(LDA(mode)),
            None => None,
        }
    }

    fn name(&self) -> (r: &'static str) {
        Mnemonic::LDA.name()
    }
}

impl Instruction for LDA {
    open spec fn mnemonic(&self) -> Mnemonic {
        Mnemonic::LDA
    }

    open spec fn mode(&self) -> AddressMode {
        self.0
    }

    fn format(&self) -> (r: String) {
        format_instruction(Mnemonic::LDA, self.0)
    }

    fn size(&self) -> (r: u8) {
        self.0.size()
    }
}

/// Load X register.
#[derive(Debug, Clone, Copy, PartialEq, Eq)]
pub struct LDX(pub AddressMode);

impl InstructionConstruct for LDX {
    open spec fn mnemonic_tag() -> Mnemonic {
        Mnemonic::LDX
    }

    open spec fn with_mode(mode: AddressMode) -> Self {
        LDX(mode)
    }

    fn from_peekable(bytes: &mut ByteCursor) -> (r: Option<Self>) {
        match read_as(bytes, Mnemonic::LDX) {
            Some(mode) => Some(LDX(mode)),
            None => None,
        }
    }

    fn name(&self) -> (r: &'static str) {
        Mnemonic::LDX.name()
    }
}

impl Instruction for LDX {
    open spec fn mnemonic(&self) -> Mnemonic {
        Mnemonic::LDX
    }

    open spec fn mode(&self) -> AddressMode {
        self.0
    }

    fn format(&self) -> (r: String) {
        format_instruction(Mnemonic::LDX, self.0)
    }

    fn size(&self) -> (r: u8) {
        self.0.size()
    }
}

/// Load Y register.
#[derive(Debug, Clone, Copy, PartialEq, Eq)]
pub struct LDY(pub AddressMode);

impl InstructionConstruct for LDY {
    open spec fn mnemonic_tag() -> Mnemonic {
        Mnemonic::LDY
    }

    open spec fn with_mode(mode: AddressMode) -> Self {
        LDY(mode)
    }

    fn from_peekable(bytes: &mut ByteCursor) -> (r: Option<Self>) {
        match read_as(bytes, Mnemonic::LDY) {
            Some(mode) => Some(LDY(mode)),
            None => None,
        }
    }

    fn name(&self) -> (r: &'static str) {
        Mnemonic::LDY.name()
    }
}

impl Instruction for LDY {
    open spec fn mnemonic(&self) -> Mnemonic {
        Mnemonic::LDY
    }

    open spec fn mode(&self) -> AddressMode {
        self.0
    }

    fn format(&self) -> (r: String) {
        format_instruction(Mnemonic::LDY, self.0)
    }

    fn size(&self) -> (r: u8) {
        self.0.size()
    }
}

/// Logical shift right.
#[derive(Debug, Clone, Copy, PartialEq, Eq)]
pub struct LSR(pub AddressMode);

impl InstructionConstruct for LSR {
    open spec fn mnemonic_tag() -> Mnemonic {
        Mnemonic::LSR
    }

    open spec fn with_mode(mode: AddressMode) -> Self {
        LSR(mode)
    }

    fn from_peekable(bytes: &mut ByteCursor) -> (r: Option<Self>) {
        match read_as(bytes, Mnemonic::LSR) {
            Some(mode) => Some(LSR(mode)),
            None => None,
        }
    }

    fn name(&self) -> (r: &'static str) {
        Mnemonic::LSR.name()
    }
}

impl Instruction for LSR {
    open spec fn mnemonic(&self) -> Mnemonic {
        Mnemonic::LSR
    }

    open spec fn mode(&self) -> AddressMode {
        self.0
    }

    fn format(&self) -> (r: String) {
        format_instruction(Mnemonic::LSR, self.0)
    }

    fn size(&self) -> (r: u8) {
        self.0.size()
    }
}

/// No operation.
#[derive(Debug, Clone, Copy, PartialEq, Eq)]
pub struct NOP(pub AddressMode);

impl InstructionConstruct for NOP {
    open spec fn mnemonic_tag() -> Mnemonic {
        Mnemonic::NOP
    }

    open spec fn with_mode(mode: AddressMode) -> Self {
        NOP(mode)
    }

    fn from_peekable(bytes: &mut ByteCursor) -> (r: Option<Self>) {
        match read_as(bytes, Mnemonic::NOP) {
            Some(mode) => Some(NOP(mode)),
            None => None,
        }
    }

    fn name(&self) -> (r: &'static str) {
        Mnemonic::NOP.name()
    }
}

impl Instruction for NOP {
    open spec fn mnemonic(&self) -> Mnemonic {
        Mnemonic::NOP
    }

    open spec fn mode(&self) -> AddressMode {
        self.0
    }

    fn format(&self) -> (r: String) {
        format_instruction(Mnemonic::NOP, self.0)
    }

    fn size(&self) -> (r: u8) {
        self.0.size()
    }
}

/// Logical inclusive OR.
#[derive(Debug, Clone, Copy, PartialEq, Eq)]
pub struct ORA(pub AddressMode);

impl InstructionConstruct for ORA {
    open spec fn mnemonic_tag() -> Mnemonic {
        Mnemonic::ORA
    }

    open spec fn with_mode(mode: AddressMode) -> Self {
        ORA(mode)
    }

    fn from_peekable(bytes: &mut ByteCursor) -> (r: Option<Self>) {
        match read_as(bytes, Mnemonic::ORA) {
            Some(mode) => Some(ORA(mode)),
            None => None,
        }
    }

    fn name(&self) -> (r: &'static str) {
        Mnemonic::ORA.name()
    }
}

impl Instruction for ORA {
    open spec fn mnemonic(&self) -> Mnemonic {
        Mnemonic::ORA
    }

    open spec fn mode(&self) -> AddressMode {
        self.0
    }

    fn format(&self) -> (r: String) {
        format_instruction(Mnemonic::ORA, self.0)
    }

    fn size(&self) -> (r: u8) {
        self.0.size()
    }
}

/// Push accumulator.
#[derive(Debug, Clone, Copy, PartialEq, Eq)]
pub struct PHA(pub AddressMode);

impl InstructionConstruct for PHA {
    open spec fn mnemonic_tag() -> Mnemonic {
        Mnemonic::PHA
    }

    open spec fn with_mode(mode: AddressMode) -> Self {
        PHA(mode)
    }

    fn from_peekable(bytes: &mut ByteCursor) -> (r: Option<Self>) {
        match read_as(bytes, Mnemonic::PHA) {
            Some(mode) => Some(PHA(mode)),
            None => None,
        }
    }

    fn name(&self) -> (r: &'static str) {
        Mnemonic::PHA.name()
    }
}

impl Instruction for PHA {
    open spec fn mnemonic(&self) -> Mnemonic {
        Mnemonic::PHA
    }

    open spec fn mode(&self) -> AddressMode {
        self.0
    }

    fn format(&self) -> (r: String) {
        format_instruction(Mnemonic::PHA, self.0)
    }

    fn size(&self) -> (r: u8) {
        self.0.size()
    }
}

/// Push processor status.
#[derive(Debug, Clone, Copy, PartialEq, Eq)]
pub struct PHP(pub AddressMode);

impl InstructionConstruct for PHP {
    open spec fn mnemonic_tag() -> Mnemonic {
        Mnemonic::PHP
    }

    open spec fn with_mode(mode: AddressMode) -> Self {
        PHP(mode)
    }

    fn from_peekable(bytes: &mut ByteCursor) -> (r: Option<Self>) {
        match read_as(bytes, Mnemonic::PHP) {
            Some(mode) => Some(PHP(mode)),
            None => None,
        }
    }

    fn name(&self) -> (r: &'static str) {
        Mnemonic::PHP.name()
    }
}

impl Instruction for PHP {
    open spec fn mnemonic(&self) -> Mnemonic {
        Mnemonic::PHP
    }

    open spec fn mode(&self) -> AddressMode {
        self.0
    }

    fn format(&self) -> (r: String) {
        format_instruction(Mnemonic::PHP, self.0)
    }

    fn size(&self) -> (r: u8) {
        self.0.size()
    }
}

/// Pull accumulator.
#[derive(Debug, Clone, Copy, PartialEq, Eq)]
pub struct PLA(pub AddressMode);

impl InstructionConstruct for PLA {
    open spec fn mnemonic_tag() -> Mnemonic {
        Mnemonic::PLA
    }

    open spec fn with_mode(mode: AddressMode) -> Self {
        PLA(mode)
    }

    fn from_peekable(bytes: &mut ByteCursor) -> (r: Option<Self>) {
        match read_as(bytes, Mnemonic::PLA) {
            Some(mode) => Some(PLA(mode)),
            None => None,
        }
    }

    fn name(&self) -> (r: &'static str) {
        Mnemonic::PLA.name()
    }
}

impl Instruction for PLA {
    open spec fn mnemonic(&self) -> Mnemonic {
        Mnemonic::PLA
    }

    open spec fn mode(&self) -> AddressMode {
        self.0
    }

    fn format(&self) -> (r: String) {
        format_instruction(Mnemonic::PLA, self.0)
    }

    fn size(&self) -> (r: u8) {
        self.0.size()
    }
}

/// Pull processor status.
#[derive(Debug, Clone, Copy, PartialEq, Eq)]
pub struct PLP(pub AddressMode);

impl InstructionConstruct for PLP {
    open spec fn mnemonic_tag() -> Mnemonic {
        Mnemonic::PLP
    }

    open spec fn with_mode(mode: AddressMode) -> Self {
        PLP(mode)
    }

    fn from_peekable(bytes: &mut ByteCursor) -> (r: Option<Self>) {
        match read_as(bytes, Mnemonic::PLP) {
            Some(mode) => Some(PLP(mode)),
            None => None,
        }
    }

    fn name(&self) -> (r: &'static str) {
        Mnemonic::PLP.name()
    }
}

impl Instruction for PLP {
    open spec fn mnemonic(&self) -> Mnemonic {
        Mnemonic::PLP
    }

    open spec fn mode(&self) -> AddressMode {
        self.0
    }

    fn format(&self) -> (r: String) {
        format_instruction(Mnemonic::PLP, self.0)
    }

    fn size(&self) -> (r: u8) {
        self.0.size()
    }
}

/// Rotate left.
#[derive(Debug, Clone, Copy, PartialEq, Eq)]
pub struct ROL(pub AddressMode);

impl InstructionConstruct for ROL {
    open spec fn mnemonic_tag() -> Mnemonic {
        Mnemonic::ROL
    }

    open spec fn with_mode(mode: AddressMode) -> Self {
        ROL(mode)
    }

    fn from_peekable(bytes: &mut ByteCursor) -> (r: Option<Self>) {
        match read_as(bytes, Mnemonic::ROL) {
            Some(mode) => Some(ROL(mode)),
            None => None,
        }
    }

    fn name(&self) -> (r: &'static str) {
        Mnemonic::ROL.name()
    }
}

impl Instruction for ROL {
    open spec fn mnemonic(&self) -> Mnemonic {
        Mnemonic::ROL
    }

    open spec fn mode(&self) -> AddressMode {
        self.0
    }

    fn format(&self) -> (r: String) {
        format_instruction(Mnemonic::ROL, self.0)
    }

    fn size(&self) -> (r: u8) {
        self.0.size()
    }
}

/// Rotate right.
#[derive(Debug, Clone, Copy, PartialEq, Eq)]
pub struct ROR(pub AddressMode);

impl InstructionConstruct for ROR {
    open spec fn mnemonic_tag() -> Mnemonic {
        Mnemonic::ROR
    }

    open spec fn with_mode(mode: AddressMode) -> Self {
        ROR(mode)
    }

    fn from_peekable(bytes: &mut ByteCursor) -> (r: Option<Self>) {
        match read_as(bytes, Mnemonic::ROR) {
            Some(mode) => Some(ROR(mode)),
            None => None,
        }
    }

    fn name(&self) -> (r: &'static str) {
        Mnemonic::ROR.name()
    }
}

impl Instruction for ROR {
    open spec fn mnemonic(&self) -> Mnemonic {
        Mnemonic::ROR
    }

    open spec fn mode(&self) -> AddressMode {
        self.0
    }

    fn format(&self) -> (r: String) {
        format_instruction(Mnemonic::ROR, self.0)
    }

    fn size(&self) -> (r: u8) {
        self.0.size()
    }
}

/// Return from interrupt.
#[derive(Debug, Clone, Copy, PartialEq, Eq)]
pub struct RTI(pub AddressMode);

impl InstructionConstruct for RTI {
    open spec fn mnemonic_tag() -> Mnemonic {
        Mnemonic::RTI
    }

    open spec fn with_mode(mode: AddressMode) -> Self {
        RTI(mode)
    }

    fn from_peekable(bytes: &mut ByteCursor) -> (r: Option<Self>) {
        match read_as(bytes, Mnemonic::RTI) {
            Some(mode) => Some(RTI(mode)),
            None => None,
        }
    }

    fn name(&self) -> (r: &'static str) {
        Mnemonic::RTI.name()
    }
}

impl Instruction for RTI {
    open spec fn mnemonic(&self) -> Mnemonic {
        Mnemonic::RTI
    }

    open spec fn mode(&self) -> AddressMode {
        self.0
    }

    fn format(&self) -> (r: String) {
        format_instruction(Mnemonic::RTI, self.0)
    }

    fn size(&self) -> (r: u8) {
        self.0.size()
    }
}

/// Return from subroutine.
#[derive(Debug, Clone, Copy, PartialEq, Eq)]
pub struct RTS(pub AddressMode);

impl InstructionConstruct for RTS {
    open spec fn mnemonic_tag() -> Mnemonic {
        Mnemonic::RTS
    }

    open spec fn with_mode(mode: AddressMode) -> Self {
        RTS(mode)
    }

    fn from_peekable(bytes: &mut ByteCursor) -> (r: Option<Self>) {
        match read_as(bytes, Mnemonic::RTS) {
            Some(mode) => Some(RTS(mode)),
            None => None,
        }
    }

    fn name(&self) -> (r: &'static str) {
        Mnemonic::RTS.name()
    }
}

impl Instruction for RTS {
    open spec fn mnemonic(&self) -> Mnemonic {
        Mnemonic::RTS
    }

    open spec fn mode(&self) -> AddressMode {
        self.0
    }

    fn format(&self) -> (r: String) {
        format_instruction(Mnemonic::RTS, self.0)
    }

    fn size(&self) -> (r: u8) {
        self.0.size()
    }
}

/// Subtract with carry.
#[derive(Debug, Clone, Copy, PartialEq, Eq)]
pub struct SBC(pub AddressMode);

impl InstructionConstruct for SBC {
    open spec fn mnemonic_tag() -> Mnemonic {
        Mnemonic::SBC
    }

    open spec fn with_mode(mode: AddressMode) -> Self {
        SBC(mode)
    }

    fn from_peekable(bytes: &mut ByteCursor) -> (r: Option<Self>) {
        match read_as(bytes, Mnemonic::SBC) {
            Some(mode) => Some(SBC(mode)),
            None => None,
        }
    }

    fn name(&self) -> (r: &'static str) {
        Mnemonic::SBC.name()
    }
}

impl Instruction for SBC {
    open spec fn mnemonic(&self) -> Mnemonic {
        Mnemonic::SBC
    }

    open spec fn mode(&self) -> AddressMode {
        self.0
    }

    fn format(&self) -> (r: String) {
        format_instruction(Mnemonic::SBC, self.0)
    }

    fn size(&self) -> (r: u8) {
        self.0.size()
    }
}

/// Set carry flag.
#[derive(Debug, Clone, Copy, PartialEq, Eq)]
pub struct SEC(pub AddressMode);

impl InstructionConstruct for SEC {
    open spec fn mnemonic_tag() -> Mnemonic {
        Mnemonic::SEC
    }

    open spec fn with_mode(mode: AddressMode) -> Self {
        SEC(mode)
    }

    fn from_peekable(bytes: &mut ByteCursor) -> (r: Option<Self>) {
        match read_as(bytes, Mnemonic::SEC) {
            Some(mode) => Some(SEC(mode)),
            None => None,
        }
    }

    fn name(&self) -> (r: &'static str) {
        Mnemonic::SEC.name()
    }
}

impl Instruction for SEC {
    open spec fn mnemonic(&self) -> Mnemonic {
        Mnemonic::SEC
    }

    open spec fn mode(&self) -> AddressMode {
        self.0
    }

    fn format(&self) -> (r: String) {
        format_instruction(Mnemonic::SEC, self.0)
    }

    fn size(&self) -> (r: u8) {
        self.0.size()
    }
}

/// Set decimal flag.
#[derive(Debug, Clone, Copy, PartialEq, Eq)]
pub struct SED(pub AddressMode);

impl InstructionConstruct for SED {
    open spec fn mnemonic_tag() -> Mnemonic {
        Mnemonic::SED
    }

    open spec fn with_mode(mode: AddressMode) -> Self {
        SED(mode)
    }

    fn from_peekable(bytes: &mut ByteCursor) -> (r: Option<Self>) {
        match read_as(bytes, Mnemonic::SED) {
            Some(mode) => Some(SED(mode)),
            None => None,
        }
    }

    fn name(&self) -> (r: &'static str) {
        Mnemonic::SED.name()
    }
}

impl Instruction for SED {
    open spec fn mnemonic(&self) -> Mnemonic {
        Mnemonic::SED
    }

    open spec fn mode(&self) -> AddressMode {
        self.0
    }

    fn format(&self) -> (r: String) {
        format_instruction(Mnemonic::SED, self.0)
    }

    fn size(&self) -> (r: u8) {
        self.0.size()
    }
}

/// Set interrupt disable.
#[derive(Debug, Clone, Copy, PartialEq, Eq)]
pub struct SEI(pub AddressMode);

impl InstructionConstruct for SEI {
    open spec fn mnemonic_tag() -> Mnemonic {
        Mnemonic::SEI
    }

    open spec fn with_mode(mode: AddressMode) -> Self {
        SEI(mode)
    }

    fn from_peekable(bytes: &mut ByteCursor) -> (r: Option<Self>) {
        match read_as(bytes, Mnemonic::SEI) {
            Some(mode) => Some(SEI(mode)),
            None => None,
        }
    }

    fn name(&self) -> (r: &'static str) {
        Mnemonic::SEI.name()
    }
}

impl Instruction for SEI {
    open spec fn mnemonic(&self) -> Mnemonic {
        Mnemonic::SEI
    }

    open spec fn mode(&self) -> AddressMode {
        self.0
    }

    fn format(&self) -> (r: String) {
        format_instruction(Mnemonic::SEI, self.0)
    }

    fn size(&self) -> (r: u8) {
        self.0.size()
    }
}

/// Store accumulator.
#[derive(Debug, Clone, Copy, PartialEq, Eq)]
pub struct STA(pub AddressMode);

impl InstructionConstruct for STA {
    open spec fn mnemonic_tag() -> Mnemonic {
        Mnemonic::STA
    }

    open spec fn with_mode(mode: AddressMode) -> Self {
        STA(mode)
    }

    fn from_peekable(bytes: &mut ByteCursor) -> (r: Option<Self>) {
        match read_as(bytes, Mnemonic::STA) {
            Some(mode) => Some(STA(mode)),
            None => None,
        }
    }

    fn name(&self) -> (r: &'static str) {
        Mnemonic::STA.name()
    }
}

impl Instruction for STA {
    open spec fn mnemonic(&self) -> Mnemonic {
        Mnemonic::STA
    }

    open spec fn mode(&self) -> AddressMode {
        self.0
    }

    fn format(&self) -> (r: String) {
        format_instruction(Mnemonic::STA, self.0)
    }

    fn size(&self) -> (r: u8) {
        self.0.size()
    }
}

/// Store X register.
#[derive(Debug, Clone, Copy, PartialEq, Eq)]
pub struct STX(pub AddressMode);

impl InstructionConstruct for STX {
    open spec fn mnemonic_tag() -> Mnemonic {
        Mnemonic::STX
    }

    open spec fn with_mode(mode: AddressMode) -> Self {
        STX(mode)
    }

    fn from_peekable(bytes: &mut ByteCursor) -> (r: Option<Self>) {
        match read_as(bytes, Mnemonic::STX) {
            Some(mode) => Some(STX(mode)),
            None => None,
        }
    }

    fn name(&self) -> (r: &'static str) {
        Mnemonic::STX.name()
    }
}

impl Instruction for STX {
    open spec fn mnemonic(&self) -> Mnemonic {
        Mnemonic::STX
    }

    open spec fn mode(&self) -> AddressMode {
        self.0
    }

    fn format(&self) -> (r: String) {
        format_instruction(Mnemonic::STX, self.0)
    }

    fn size(&self) -> (r: u8) {
        self.0.size()
    }
}

/// Store Y register.
#[derive(Debug, Clone, Copy, PartialEq, Eq)]
pub struct STY(pub AddressMode);

impl InstructionConstruct for STY {
    open spec fn mnemonic_tag() -> Mnemonic {
        Mnemonic::STY
    }

    open spec fn with_mode(mode: AddressMode) -> Self {
        STY(mode)
    }

    fn from_peekable(bytes: &mut ByteCursor) -> (r: Option<Self>) {
        match read_as(bytes, Mnemonic::STY) {
            Some(mode) => Some(STY(mode)),
            None => None,
        }
    }

    fn name(&self) -> (r: &'static str) {
        Mnemonic::STY.name()
    }
}

impl Instruction for STY {
    open spec fn mnemonic(&self) -> Mnemonic {
        Mnemonic::STY
    }

    open spec fn mode(&self) -> AddressMode {
        self.0
    }

    fn format(&self) -> (r: String) {
        format_instruction(Mnemonic::STY, self.0)
    }

    fn size(&self) -> (r: u8) {
        self.0.size()
    }
}

/// Transfer accumulator to X.
#[derive(Debug, Clone, Copy, PartialEq, Eq)]
pub struct TAX(pub AddressMode);

impl InstructionConstruct for TAX {
    open spec fn mnemonic_tag() -> Mnemonic {
        Mnemonic::TAX
    }

    open spec fn with_mode(mode: AddressMode) -> Self {
        TAX(mode)
    }

    fn from_peekable(bytes: &mut ByteCursor) -> (r: Option<Self>) {
        match read_as(bytes, Mnemonic::TAX) {
            Some(mode) => Some(TAX(mode)),
            None => None,
        }
    }

    fn name(&self) -> (r: &'static str) {
        Mnemonic::TAX.name()
    }
}

impl Instruction for TAX {
    open spec fn mnemonic(&self) -> Mnemonic {
        Mnemonic::TAX
    }

    open spec fn mode(&self) -> AddressMode {
        self.0
    }

    fn format(&self) -> (r: String) {
        format_instruction(Mnemonic::TAX, self.0)
    }

    fn size(&self) -> (r: u8) {
        self.0.size()
    }
}

/// Transfer accumulator to Y.
#[derive(Debug, Clone, Copy, PartialEq, Eq)]
pub struct TAY(pub AddressMode);

impl InstructionConstruct for TAY {
    open spec fn mnemonic_tag() -> Mnemonic {
        Mnemonic::TAY
    }

    open spec fn with_mode(mode: AddressMode) -> Self {
        TAY(mode)
    }

    fn from_peekable(bytes: &mut ByteCursor) -> (r: Option<Self>) {
        match read_as(bytes, Mnemonic::TAY) {
            Some(mode) => Some(TAY(mode)),
            None => None,
        }
    }

    fn name(&self) -> (r: &'static str) {
        Mnemonic::TAY.name()
    }
}

impl Instruction for TAY {
    open spec fn mnemonic(&self) -> Mnemonic {
        Mnemonic::TAY
    }

    open spec fn mode(&self) -> AddressMode {
        self.0
    }

    fn format(&self) -> (r: String) {
        format_instruction(Mnemonic::TAY, self.0)
    }

    fn size(&self) -> (r: u8) {
        self.0.size()
    }
}

/// Transfer stack pointer to X.
#[derive(Debug, Clone, Copy, PartialEq, Eq)]
pub struct TSX(pub AddressMode);

impl InstructionConstruct for TSX {
    open spec fn mnemonic_tag() -> Mnemonic {
        Mnemonic::TSX
    }

    open spec fn with_mode(mode: AddressMode) -> Self {
        TSX(mode)
    }

    fn from_peekable(bytes: &mut ByteCursor) -> (r: Option<Self>) {
        match read_as(bytes, Mnemonic::TSX) {
            Some(mode) => Some(TSX(mode)),
            None => None,
        }
    }

    fn name(&self) -> (r: &'static str) {
        Mnemonic::TSX.name()
    }
}

impl Instruction for TSX {
    open spec fn mnemonic(&self) -> Mnemonic {
        Mnemonic::TSX
    }

    open spec fn mode(&self) -> AddressMode {
        self.0
    }

    fn format(&self) -> (r: String) {
        format_instruction(Mnemonic::TSX, self.0)
    }

    fn size(&self) -> (r: u8) {
        self.0.size()
    }
}

/// Transfer X to accumulator.
#[derive(Debug, Clone, Copy, PartialEq, Eq)]
pub struct TXA(pub AddressMode);

impl InstructionConstruct for TXA {
    open spec fn mnemonic_tag() -> Mnemonic {
        Mnemonic::TXA
    }

    open spec fn with_mode(mode: AddressMode) -> Self {
        TXA(mode)
    }

    fn from_peekable(bytes: &mut ByteCursor) -> (r: Option<Self>) {
        match read_as(bytes, Mnemonic::TXA) {
            Some(mode) => Some(TXA(mode)),
            None => None,
        }
    }

    fn name(&self) -> (r: &'static str) {
        Mnemonic::TXA.name()
    }
}

impl Instruction for TXA {
    open spec fn mnemonic(&self) -> Mnemonic {
        Mnemonic::TXA
    }

    open spec fn mode(&self) -> AddressMode {
        self.0
    }

    fn format(&self) -> (r: String) {
        format_instruction(Mnemonic::TXA, self.0)
    }

    fn size(&self) -> (r: u8) {
        self.0.size()
    }
}

/// Transfer X to stack pointer.
#[derive(Debug, Clone, Copy, PartialEq, Eq)]
pub struct TXS(pub AddressMode);

impl InstructionConstruct for TXS {
    open spec fn mnemonic_tag() -> Mnemonic {
        Mnemonic::TXS
    }

    open spec fn with_mode(mode: AddressMode) -> Self {
        TXS(mode)
    }

    fn from_peekable(bytes: &mut ByteCursor) -> (r: Option<Self>) {
        match read_as(bytes, Mnemonic::TXS) {
            Some(mode) => Some(TXS(mode)),
            None => None,
        }
    }

    fn name(&self) -> (r: &'static str) {
        Mnemonic::TXS.name()
    }
}

impl Instruction for TXS {
    open spec fn mnemonic(&self) -> Mnemonic {
        Mnemonic::TXS
    }

    open spec fn mode(&self) -> AddressMode {
        self.0
    }

    fn format(&self) -> (r: String) {
        format_instruction(Mnemonic::TXS, self.0)
    }

    fn size(&self) -> (r: u8) {
        self.0.size()
    }
}

/// Transfer Y to accumulator.
#[derive(Debug, Clone, Copy, PartialEq, Eq)]
pub struct TYA(pub AddressMode);

impl InstructionConstruct for TYA {
    open spec fn mnemonic_tag() -> Mnemonic {
        Mnemonic::TYA
    }

    open spec fn with_mode(mode: AddressMode) -> Self {
        TYA(mode)
    }

    fn from_peekable(bytes: &mut ByteCursor) -> (r: Option<Self>) {
        match read_as(bytes, Mnemonic::TYA) {
            Some(mode) => Some(TYA(mode)),
            None => None,
        }
    }

    fn name(&self) -> (r: &'static str) {
        Mnemonic::TYA.name()
    }
}

impl Instruction for TYA {
    open spec fn mnemonic(&self) -> Mnemonic {
        Mnemonic::TYA
    }

    open spec fn mode(&self) -> AddressMode {
        self.0
    }

    fn format(&self) -> (r: String) {
        format_instruction(Mnemonic::TYA, self.0)
    }

    fn size(&self) -> (r: u8) {
        self.0.size()
    }
}

} // verus!
