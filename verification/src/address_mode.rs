//! Addressing modes: how an instruction's operand is encoded.

use vstd::prelude::*;

verus! {

/// The operand-encoding scheme of an instruction, without the operand.
///
/// An opcode byte selects one of these; it says how many bytes follow the
/// opcode and how they are read.
#[derive(Debug, Clone, Copy, PartialEq, Eq, Structural)]
pub enum AddressKind {
    Implicit,
    Accumulator,
    Immediate,
    Zero,
    ZeroX,
    ZeroY,
    Relative,
    Absolute,
    AbsoluteX,
    AbsoluteY,
    Indirect,
    IndirectX,
    IndirectY,
}

/// An addressing mode together with its operand.
#[derive(Debug, Clone, Copy, PartialEq, Eq, Structural)]
pub enum AddressMode {
    Implicit,
    Accumulator,
    Immediate(u8),
    Zero(u8),
    ZeroX(u8),
    ZeroY(u8),
    Relative(i8),
    Absolute(u16),
    AbsoluteX(u16),
    AbsoluteY(u16),
    Indirect(u16),
    IndirectX(u8),
    IndirectY(u8),
}

/// A byte read as a signed two's-complement number.
pub open spec fn signed_byte(b: u8) -> i8 {
    if b < 128 {
        b as i8
    } else {
        (b - 256) as i8
    }
}

/// The 16-bit word whose low byte is `lo` and whose high byte is `hi`.
pub open spec fn word_le(lo: u8, hi: u8) -> u16 {
    (lo + 256 * hi) as u16
}

/// Reads a byte as a signed two's-complement number.
pub fn to_signed(b: u8) -> (r: i8)
    ensures
        r == signed_byte(b),
{
    if b < 128 {
        b as i8
    } else {
        (b as i16 - 256) as i8
    }
}

/// Assembles a 16-bit word from its two bytes, low byte first.
pub fn to_word(lo: u8, hi: u8) -> (r: u16)
    ensures
        r == word_le(lo, hi),
{
    lo as u16 + 256 * (hi as u16)
}

impl AddressKind {
    /// Encoded size in bytes of an instruction in this mode, opcode included.
    pub open spec fn size_spec(self) -> nat {
        match self {
            AddressKind::Implicit | AddressKind::Accumulator => 1,
            AddressKind::Absolute
            | AddressKind::AbsoluteX
            | AddressKind::AbsoluteY
            | AddressKind::Indirect => 3,
            _ => 2,
        }
    }

    /// The mode with its operand filled in from the bytes that follow the
    /// opcode. `operand` holds at least `size_spec() - 1` bytes.
    pub open spec fn with_operand(self, operand: Seq<u8>) -> AddressMode {
        match self {
            AddressKind::Implicit => AddressMode::Implicit,
            AddressKind::Accumulator => AddressMode::Accumulator,
            AddressKind::Immediate => AddressMode::Immediate(operand[0]),
            AddressKind::Zero => AddressMode::Zero(operand[0]),
            AddressKind::ZeroX => AddressMode::ZeroX(operand[0]),
            AddressKind::ZeroY => AddressMode::ZeroY(operand[0]),
            AddressKind::Relative => AddressMode::Relative(signed_byte(operand[0])),
            AddressKind::Absolute => AddressMode::Absolute(word_le(operand[0], operand[1])),
            AddressKind::AbsoluteX => AddressMode::AbsoluteX(word_le(operand[0], operand[1])),
            AddressKind::AbsoluteY => AddressMode::AbsoluteY(word_le(operand[0], operand[1])),
            AddressKind::Indirect => AddressMode::Indirect(word_le(operand[0], operand[1])),
            AddressKind::IndirectX => AddressMode::IndirectX(operand[0]),
            AddressKind::IndirectY => AddressMode::IndirectY(operand[0]),
        }
    }

    /// Encoded size in bytes of an instruction in this mode, opcode included.
    pub fn size(self) -> (r: u8)
        ensures
            r == self.size_spec(),
    {
        match self {
            AddressKind::Implicit | AddressKind::Accumulator => 1,
            AddressKind::Absolute
            | AddressKind::AbsoluteX
            | AddressKind::AbsoluteY
            | AddressKind::Indirect => 3,
            _ => 2,
        }
    }

    /// Fills in a one-byte operand.
    pub(crate) fn with_byte(self, operand: u8) -> (r: AddressMode)
        requires
            self.size_spec() == 2,
        ensures
            r == self.with_operand(seq![operand]),
    {
        match self {
            AddressKind::Immediate => AddressMode::Immediate(operand),
            AddressKind::Zero => AddressMode::Zero(operand),
            AddressKind::ZeroX => AddressMode::ZeroX(operand),
            AddressKind::ZeroY => AddressMode::ZeroY(operand),
            AddressKind::Relative => AddressMode::Relative(to_signed(operand)),
            AddressKind::IndirectX => AddressMode::IndirectX(operand),
            _ => AddressMode::IndirectY(operand),
        }
    }

    /// Fills in a two-byte operand, low byte first.
    pub(crate) fn with_word(self, lo: u8, hi: u8) -> (r: AddressMode)
        requires
            self.size_spec() == 3,
        ensures
            r == self.with_operand(seq![lo, hi]),
    {
        match self {
            AddressKind::Absolute => AddressMode::Absolute(to_word(lo, hi)),
            AddressKind::AbsoluteX => AddressMode::AbsoluteX(to_word(lo, hi)),
            AddressKind::AbsoluteY => AddressMode::AbsoluteY(to_word(lo, hi)),
            _ => AddressMode::Indirect(to_word(lo, hi)),
        }
    }
}

impl AddressMode {
    /// The mode without its operand.
    pub open spec fn kind_spec(self) -> AddressKind {
        match self {
            AddressMode::Implicit => AddressKind::Implicit,
            AddressMode::Accumulator => AddressKind::Accumulator,
            AddressMode::Immediate(_) => AddressKind::Immediate,
            AddressMode::Zero(_) => AddressKind::Zero,
            AddressMode::ZeroX(_) => AddressKind::ZeroX,
            AddressMode::ZeroY(_) => AddressKind::ZeroY,
            AddressMode::Relative(_) => AddressKind::Relative,
            AddressMode::Absolute(_) => AddressKind::Absolute,
            AddressMode::AbsoluteX(_) => AddressKind::AbsoluteX,
            AddressMode::AbsoluteY(_) => AddressKind::AbsoluteY,
            AddressMode::Indirect(_) => AddressKind::Indirect,
            AddressMode::IndirectX(_) => AddressKind::IndirectX,
            AddressMode::IndirectY(_) => AddressKind::IndirectY,
        }
    }

    /// Encoded size in bytes, opcode included: a function of the variant
    /// alone.
    pub open spec fn size_spec(self) -> nat {
        self.kind_spec().size_spec()
    }

    /// The mode without its operand.
    pub fn kind(&self) -> (r: AddressKind)
        ensures
            r == self.kind_spec(),
    {
        match self {
            AddressMode::Implicit => AddressKind::Implicit,
            AddressMode::Accumulator => AddressKind::Accumulator,
            AddressMode::Immediate(_) => AddressKind::Immediate,
            AddressMode::Zero(_) => AddressKind::Zero,
            AddressMode::ZeroX(_) => AddressKind::ZeroX,
            AddressMode::ZeroY(_) => AddressKind::ZeroY,
            AddressMode::Relative(_) => AddressKind::Relative,
            AddressMode::Absolute(_) => AddressKind::Absolute,
            AddressMode::AbsoluteX(_) => AddressKind::AbsoluteX,
            AddressMode::AbsoluteY(_) => AddressKind::AbsoluteY,
            AddressMode::Indirect(_) => AddressKind::Indirect,
            AddressMode::IndirectX(_) => AddressKind::IndirectX,
            AddressMode::IndirectY(_) => AddressKind::IndirectY,
        }
    }

    /// Encoded size in bytes, opcode included.
    pub fn size(&self) -> (r: u8)
        ensures
            r == self.size_spec(),
            1 <= r <= 3,
    {
        match self {
            AddressMode::Implicit => 1,
            AddressMode::Accumulator => 1,
            AddressMode::Immediate(_) => 2,
            AddressMode::Zero(_) => 2,
            AddressMode::ZeroX(_) => 2,
            AddressMode::ZeroY(_) => 2,
            AddressMode::Relative(_) => 2,
            AddressMode::Absolute(_) => 3,
            AddressMode::AbsoluteX(_) => 3,
            AddressMode::AbsoluteY(_) => 3,
            AddressMode::Indirect(_) => 3,
            AddressMode::IndirectX(_) => 2,
            AddressMode::IndirectY(_) => 2,
        }
    }
}

/// Filling in an operand keeps the mode's kind, whatever the operand holds, so
/// the encoded size never depends on the operand's value.
pub proof fn lemma_operand_keeps_kind(kind: AddressKind, operand: Seq<u8>)
    ensures
        kind.with_operand(operand).kind_spec() == kind,
        kind.with_operand(operand).size_spec() == kind.size_spec(),
{
}

} // verus!
