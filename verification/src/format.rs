//! Canonical disassembly text of an instruction.

use crate::address_mode::AddressMode;
use crate::hex::{hex, to_hex};
use crate::mnemonic::Mnemonic;
use vstd::prelude::*;
use vstd::string::StringExecFns;

verus! {

/// The magnitude of a branch offset.
pub open spec fn magnitude(offset: i8) -> nat {
    if offset >= 0 {
        offset as nat
    } else {
        (-offset) as nat
    }
}

/// The operand as it is written after the mnemonic: empty for modes without an
/// operand, otherwise a space, the mode's punctuation and the operand in
/// lowercase hexadecimal, two digits for a byte and four for a word.
pub open spec fn operand_text(mode: AddressMode) -> Seq<char> {
    match mode {
        AddressMode::Implicit => Seq::empty(),
        AddressMode::Accumulator => Seq::empty(),
        AddressMode::Immediate(a) => seq![' ', '#', '$'] + hex(a as nat, 2),
        AddressMode::Zero(a) => seq![' ', '$'] + hex(a as nat, 2),
        AddressMode::ZeroX(a) => seq![' ', '$'] + hex(a as nat, 2) + seq![',', ' ', 'X'],
        AddressMode::ZeroY(a) => seq![' ', '$'] + hex(a as nat, 2) + seq![',', ' ', 'Y'],
        AddressMode::Relative(a) => if a >= 0 {
            seq![' ', '$'] + hex(magnitude(a), 2)
        } else {
            seq![' ', '-', '$'] + hex(magnitude(a), 2)
        },
        AddressMode::Absolute(a) => seq![' ', '$'] + hex(a as nat, 4),
        AddressMode::AbsoluteX(a) => seq![' ', '$'] + hex(a as nat, 4) + seq![',', ' ', 'X'],
        AddressMode::AbsoluteY(a) => seq![' ', '$'] + hex(a as nat, 4) + seq![',', ' ', 'Y'],
        AddressMode::Indirect(a) => seq![' ', '$'] + hex(a as nat, 4),
        AddressMode::IndirectX(a) => seq![' ', '$'] + hex(a as nat, 2) + seq![',', ' ', 'X'],
        AddressMode::IndirectY(a) => seq![' ', '$'] + hex(a as nat, 2) + seq![',', ' ', 'Y'],
    }
}

/// The text of an instruction: its mnemonic followed by its operand.
pub open spec fn instruction_text(mnemonic: Mnemonic, mode: AddressMode) -> Seq<char> {
    mnemonic.name_spec() + operand_text(mode)
}

/// Builds `prefix`, then `value` in hexadecimal with at least `width` digits,
/// then `suffix`.
fn framed_hex(prefix: &str, value: u128, width: usize, suffix: &str) -> (s: String)
    ensures
        s@ == prefix@ + hex(value as nat, width as nat) + suffix@,
{
    let mut s = String::from_str(prefix);
    let digits = to_hex(value, width);
    s.append(digits.as_str());
    s.append(suffix);
    s
}

/// Renders the operand of `mode` as it is written after the mnemonic.
pub fn format_operand(mode: AddressMode) -> (s: String)
    ensures
        s@ == operand_text(mode),
{
    proof {
        reveal_strlit("");
        reveal_strlit(" #$");
        reveal_strlit(" $");
        reveal_strlit(" -$");
        reveal_strlit(", X");
        reveal_strlit(", Y");
    }
    let s = match mode {
        AddressMode::Implicit => String::from_str(""),
        AddressMode::Accumulator => String::from_str(""),
        AddressMode::Immediate(a) => framed_hex(" #$", a as u128, 2, ""),
        AddressMode::Zero(a) => framed_hex(" $", a as u128, 2, ""),
        AddressMode::ZeroX(a) => framed_hex(" $", a as u128, 2, ", X"),
        AddressMode::ZeroY(a) => framed_hex(" $", a as u128, 2, ", Y"),
        AddressMode::Relative(a) => {
            if a >= 0 {
                framed_hex(" $", a as u128, 2, "")
            } else {
                framed_hex(" -$", (-(a as i16)) as u128, 2, "")
            }
        },
        AddressMode::Absolute(a) => framed_hex(" $", a as u128, 4, ""),
        AddressMode::AbsoluteX(a) => framed_hex(" $", a as u128, 4, ", X"),
        AddressMode::AbsoluteY(a) => framed_hex(" $", a as u128, 4, ", Y"),
        AddressMode::Indirect(a) => framed_hex(" $", a as u128, 4, ""),
        AddressMode::IndirectX(a) => framed_hex(" $", a as u128, 2, ", X"),
        AddressMode::IndirectY(a) => framed_hex(" $", a as u128, 2, ", Y"),
    };
    assert(s@ =~= operand_text(mode));
    s
}

/// Renders an instruction: its mnemonic followed by its operand.
pub fn format_instruction(mnemonic: Mnemonic, mode: AddressMode) -> (s: String)
    ensures
        s@ == instruction_text(mnemonic, mode),
{
    let mut s = String::from_str(mnemonic.name());
    let operand = format_operand(mode);
    s.append(operand.as_str());
    s
}

} // verus!
