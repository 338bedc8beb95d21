//! The register file of the processor.

use vstd::prelude::*;

verus! {

/// Mask of the carry flag.
pub const CARRY: u8 = 0b0000_0001;

/// Mask of the zero flag.
pub const ZERO: u8 = 0b0000_0010;

/// Mask of the flag that disables interrupts.
pub const INTERRUPT_DISABLED: u8 = 0b0000_0100;

/// Mask of the decimal-mode flag.
pub const DECIMAL: u8 = 0b0000_1000;

/// Mask of the break flag.
pub const BREAK: u8 = 0b0001_0000;

/// Mask of the overflow flag.
pub const OVERFLOW: u8 = 0b0010_0000;

/// Mask of the negative flag.
pub const NEGATIVE: u8 = 0b0100_0000;

/// The processor's status flags, one bit for each.
#[derive(Debug, Clone, Copy, PartialEq, Eq, Structural)]
pub struct Status {
    pub bits: u8,
}

impl Status {
    /// Whether every flag of `mask` is set.
    pub open spec fn contains_spec(self, mask: u8) -> bool {
        self.bits & mask == mask
    }

    /// The status with no flag set.
    pub fn empty() -> (status: Status)
        ensures
            status.bits == 0,
    {
        Status { bits: 0 }
    }

    /// The flags as one byte.
    pub fn bits(&self) -> (bits: u8)
        ensures
            bits == self.bits,
    {
        self.bits
    }

    /// Whether no flag is set.
    pub fn is_empty(&self) -> (r: bool)
        ensures
            r == (self.bits == 0),
    {
        self.bits == 0
    }

    /// Whether every flag of `mask` is set.
    pub fn contains(&self, mask: u8) -> (r: bool)
        ensures
            r == self.contains_spec(mask),
    {
        self.bits & mask == mask
    }

    /// Whether the carry flag is set.
    pub fn carry(&self) -> (r: bool)
        ensures
            r == self.contains_spec(CARRY),
    {
        self.contains(CARRY)
    }

    /// Whether the zero flag is set.
    pub fn zero(&self) -> (r: bool)
        ensures
            r == self.contains_spec(ZERO),
    {
        self.contains(ZERO)
    }

    /// Whether interrupts are disabled.
    pub fn interrupt_disabled(&self) -> (r: bool)
        ensures
            r == self.contains_spec(INTERRUPT_DISABLED),
    {
        self.contains(INTERRUPT_DISABLED)
    }

    /// Whether the decimal-mode flag is set.
    pub fn decimal(&self) -> (r: bool)
        ensures
            r == self.contains_spec(DECIMAL),
    {
        self.contains(DECIMAL)
    }

    /// Whether the break flag is set.
    pub fn brk(&self) -> (r: bool)
        ensures
            r == self.contains_spec(BREAK),
    {
        self.contains(BREAK)
    }

    /// Whether the overflow flag is set.
    pub fn overflow(&self) -> (r: bool)
        ensures
            r == self.contains_spec(OVERFLOW),
    {
        self.contains(OVERFLOW)
    }

    /// Whether the negative flag is set.
    pub fn negative(&self) -> (r: bool)
        ensures
            r == self.contains_spec(NEGATIVE),
    {
        self.contains(NEGATIVE)
    }
}

/// The empty status has none of the seven flags set.
pub proof fn lemma_empty_status_has_no_flag(status: Status)
    requires
        status.bits == 0,
    ensures
        !status.contains_spec(CARRY),
        !status.contains_spec(ZERO),
        !status.contains_spec(INTERRUPT_DISABLED),
        !status.contains_spec(DECIMAL),
        !status.contains_spec(BREAK),
        !status.contains_spec(OVERFLOW),
        !status.contains_spec(NEGATIVE),
{
    assert(0u8 & 0b0000_0001u8 == 0u8) by (bit_vector);
    assert(0u8 & 0b0000_0010u8 == 0u8) by (bit_vector);
    assert(0u8 & 0b0000_0100u8 == 0u8) by (bit_vector);
    assert(0u8 & 0b0000_1000u8 == 0u8) by (bit_vector);
    assert(0u8 & 0b0001_0000u8 == 0u8) by (bit_vector);
    assert(0u8 & 0b0010_0000u8 == 0u8) by (bit_vector);
    assert(0u8 & 0b0100_0000u8 == 0u8) by (bit_vector);
}

/// The registers of the processor.
#[derive(Debug, Clone, Copy, PartialEq, Eq, Structural)]
pub struct Registers {
    /// Program counter.
    pub pc: u16,
    /// Stack pointer.
    pub stack: u8,
    /// Accumulator.
    pub acc: u8,
    /// Index register X.
    pub idx_x: u8,
    /// Index register Y.
    pub idx_y: u8,
    /// Status flags.
    pub status: Status,
}

impl Registers {
    /// The registers at power-on, with the program counter at `pc`: the stack
    /// pointer is 0xFD, the accumulator and both index registers are zero,
    /// and no flag is set.
    pub open spec fn at_power_on(pc: u16) -> Registers {
        Registers { pc, stack: 0xFD, acc: 0, idx_x: 0, idx_y: 0, status: Status { bits: 0 } }
    }

    /// The registers at power-on, with the program counter at `pc`.
    pub fn with_pc(pc: u16) -> (registers: Registers)
        ensures
            registers == Registers::at_power_on(pc),
    {
        Registers { pc, stack: 0xFD, acc: 0, idx_x: 0, idx_y: 0, status: Status::empty() }
    }
}

impl Default for Registers {
    /// The registers at power-on, with the program counter at 0x34.
    fn default() -> (registers: Registers)
        ensures
            registers == Registers::at_power_on(0x34),
    {
        Registers { pc: 0x34, stack: 0xFD, acc: 0, idx_x: 0, idx_y: 0, status: Status::empty() }
    }
}

} // verus!
