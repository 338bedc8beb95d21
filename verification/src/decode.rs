//! Decoding one instruction from the head of a byte sequence.

use crate::address_mode::{AddressKind, AddressMode};
use crate::cursor::ByteCursor;
use crate::mnemonic::Mnemonic;
use crate::table::{encoding, lemma_table_inverts_encoding, lookup, opcode_entry};
use vstd::prelude::*;

verus! {

/// The instruction at the head of `bytes`: the table entry of the first byte
/// with the operand read from the bytes after it. There is none when `bytes` is
/// empty, when the first byte has no entry, or when fewer bytes remain than the
/// entry's mode takes.
pub open spec fn decode_entry(bytes: Seq<u8>) -> Option<(Mnemonic, AddressMode)> {
    if bytes.len() == 0 {
        None
    } else {
        match opcode_entry(bytes[0]) {
            None => None,
            Some((mnemonic, kind)) => if bytes.len() < kind.size_spec() {
                None
            } else {
                Some((mnemonic, kind.with_operand(bytes.subrange(1, kind.size_spec() as int))))
            },
        }
    }
}

/// The number of bytes that decoding takes from the input: the size of the
/// decoded instruction, or nothing when there is none.
pub open spec fn consumed(decoded: Option<(Mnemonic, AddressMode)>) -> nat {
    match decoded {
        Some((_, mode)) => mode.size_spec(),
        None => 0,
    }
}

/// The operand of the instruction at the head of `bytes`, if that instruction
/// is a `wanted` one.
pub open spec fn decode_as(wanted: Mnemonic, bytes: Seq<u8>) -> Option<AddressMode> {
    match decode_entry(bytes) {
        Some((mnemonic, mode)) => if mnemonic == wanted {
            Some(mode)
        } else {
            None
        },
        None => None,
    }
}

/// The number of bytes that decoding a given mnemonic takes from the input.
pub open spec fn consumed_as(decoded: Option<AddressMode>) -> nat {
    match decoded {
        Some(mode) => mode.size_spec(),
        None => 0,
    }
}

/// A decoded instruction never takes more bytes than there are, and always
/// takes at least one.
pub proof fn lemma_decode_consumes(bytes: Seq<u8>)
    ensures
        consumed(decode_entry(bytes)) <= bytes.len(),
        decode_entry(bytes) is Some ==> 1 <= consumed(decode_entry(bytes)) <= 3,
        decode_entry(bytes) is Some ==> decode_entry(bytes)->Some_0.1.kind_spec() == opcode_entry(
            bytes[0],
        )->Some_0.1,
{
}

/// Decoding yields instructions of the instruction set only: the mnemonic and
/// the addressing mode of a decoded instruction are a combination that has an
/// opcode, and that opcode is the byte that was decoded.
pub proof fn lemma_decoded_is_legal(bytes: Seq<u8>)
    requires
        decode_entry(bytes) is Some,
    ensures
        encoding(decode_entry(bytes)->Some_0.0, decode_entry(bytes)->Some_0.1.kind_spec())
            == Some(bytes[0]),
{
    let (mnemonic, mode) = decode_entry(bytes)->Some_0;
    lemma_decode_consumes(bytes);
    lemma_table_inverts_encoding(bytes[0], mnemonic, mode.kind_spec());
}

/// Where a byte is followed by the operand that its entry asks for, decoding
/// yields an instruction exactly when the table has an entry for the byte.
pub proof fn lemma_entry_decides_decoding(bytes: Seq<u8>)
    requires
        bytes.len() > 0,
        opcode_entry(bytes[0]) is Some ==> bytes.len() >= opcode_entry(
            bytes[0],
        )->Some_0.1.size_spec(),
    ensures
        decode_entry(bytes) is Some <==> opcode_entry(bytes[0]) is Some,
{
}

/// For a byte on its own, exactly one of two things holds: the table has an
/// entry for it, or decoding it ends without an instruction. This is stated for
/// the bytes whose entry, if any, takes no operand: an opcode whose operand is
/// cut off is in the table and still ends the decoding.
pub proof fn lemma_entry_or_exhausted(opcode: u8)
    requires
        opcode_entry(opcode) is Some ==> opcode_entry(opcode)->Some_0.1.size_spec() == 1,
    ensures
        (opcode_entry(opcode) is Some) != (decode_entry(seq![opcode]) is None),
{
}

/// An opcode whose operand is cut off by the end of the input ends the decoding
/// like a byte without an entry.
pub proof fn lemma_truncated_operand_ends_decoding(bytes: Seq<u8>)
    requires
        bytes.len() > 0,
        opcode_entry(bytes[0]) is Some,
        bytes.len() < opcode_entry(bytes[0])->Some_0.1.size_spec(),
    ensures
        decode_entry(bytes) is None,
{
}

/// Decodes the instruction at the cursor and moves the cursor past it. Where
/// there is none, the cursor stays where it was.
pub fn read_entry(bytes: &mut ByteCursor) -> (decoded: Option<(Mnemonic, AddressMode)>)
    ensures
        decoded == decode_entry(old(bytes)@),
        final(bytes)@ == old(bytes)@.skip(consumed(decoded) as int),
{
    let ghost input = bytes@;
    assert(input.skip(0) =~= input);
    let opcode = match bytes.peek() {
        Some(opcode) => opcode,
        None => {
            return None;
        },
    };
    let (mnemonic, kind) = match lookup(opcode) {
        Some(entry) => entry,
        None => {
            return None;
        },
    };
    let size = kind.size();
    if bytes.remaining() < size as usize {
        return None;
    }
    let mode = if size == 1 {
        match kind {
            AddressKind::Implicit => AddressMode::Implicit,
            _ => AddressMode::Accumulator,
        }
    } else if size == 2 {
        let operand = bytes.peek_at(1).unwrap();
        assert(input.subrange(1, 2) =~= seq![operand]);
        kind.with_byte(operand)
    } else {
        let lo = bytes.peek_at(1).unwrap();
        let hi = bytes.peek_at(2).unwrap();
        assert(input.subrange(1, 3) =~= seq![lo, hi]);
        kind.with_word(lo, hi)
    };
    bytes.advance(size as usize);
    Some((mnemonic, mode))
}

/// Decodes the instruction at the cursor if it is a `wanted` one, and moves the
/// cursor past it. Otherwise the cursor stays where it was.
pub fn read_as(bytes: &mut ByteCursor, wanted: Mnemonic) -> (decoded: Option<AddressMode>)
    ensures
        decoded == decode_as(wanted, old(bytes)@),
        final(bytes)@ == old(bytes)@.skip(consumed_as(decoded) as int),
{
    assert(bytes@.skip(0) =~= bytes@);
    match bytes.peek() {
        None => None,
        Some(opcode) => match lookup(opcode) {
            None => None,
            Some((mnemonic, _)) => {
                if mnemonic == wanted {
                    match read_entry(bytes) {
                        Some((_, mode)) => Some(mode),
                        None => None,
                    }
                } else {
                    None
                }
            },
        },
    }
}

} // verus!
