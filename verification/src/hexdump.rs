//! Rows of a memory dump: an address and the bytes that stand there.

use crate::hex::{hex, hex_upper, to_hex, to_hex_upper};
use vstd::prelude::*;
use vstd::slice::slice_subrange;
use vstd::string::StringExecFns;

verus! {

/// Bytes shown in one row of a dump.
pub const ROW_SIZE: usize = 16;

/// The number of rows that a dump of `count` bytes has.
pub open spec fn row_count(count: nat) -> nat {
    (count + ROW_SIZE - 1) as nat / (ROW_SIZE as nat)
}

/// The bytes of row `row`: sixteen, or what is left in the last row.
pub open spec fn row_bytes(bytes: Seq<u8>, row: int) -> Seq<u8> {
    bytes.subrange(
        ROW_SIZE * row,
        if ROW_SIZE * row + ROW_SIZE <= bytes.len() {
            ROW_SIZE * row + ROW_SIZE
        } else {
            bytes.len() as int
        },
    )
}

/// Bytes in two lowercase hexadecimal digits each, with a space between one
/// and the next.
pub open spec fn spaced_hex(bytes: Seq<u8>) -> Seq<char>
    decreases bytes.len(),
{
    if bytes.len() == 0 {
        Seq::empty()
    } else if bytes.len() == 1 {
        hex(bytes[0] as nat, 2)
    } else {
        spaced_hex(bytes.drop_last()) + seq![' '] + hex(bytes.last() as nat, 2)
    }
}

/// A row of a dump: the address of its first byte in at least four uppercase
/// hexadecimal digits, a colon, a space, and its bytes.
pub open spec fn row_text(address: nat, bytes: Seq<u8>) -> Seq<char> {
    hex_upper(address, 4) + seq![':', ' '] + spaced_hex(bytes)
}

/// Renders bytes in two hexadecimal digits each, with a space between one and
/// the next.
pub fn format_bytes(bytes: &[u8]) -> (text: String)
    ensures
        text@ == spaced_hex(bytes@),
{
    let mut text = String::new();
    let mut index: usize = 0;
    assert(bytes@.take(0) =~= Seq::<u8>::empty());
    while index < bytes.len()
        invariant
            index <= bytes.len(),
            text@ == spaced_hex(bytes@.take(index as int)),
        decreases bytes.len() - index,
    {
        proof {
            reveal_strlit(" ");
            let prefix = bytes@.take(index as int + 1);
            assert(prefix.drop_last() =~= bytes@.take(index as int));
            assert(prefix.last() == bytes@[index as int]);
        }
        if index > 0 {
            text.append(" ");
        }
        let digits = to_hex(bytes[index] as u128, 2);
        text.append(digits.as_str());
        index = index + 1;
    }
    assert(bytes@.take(index as int) =~= bytes@);
    text
}

/// The rows of a dump of `bytes`, sixteen bytes to a row, where the first byte
/// stands at address `start`.
pub fn hex_dump(bytes: &[u8], start: usize) -> (rows: Vec<String>)
    ensures
        rows.len() == row_count(bytes@.len()),
        forall|row: int|
            0 <= row < rows.len() ==> (#[trigger] rows[row])@ == row_text(
                (start + ROW_SIZE * row) as nat,
                row_bytes(bytes@, row),
            ),
{
    let mut rows: Vec<String> = Vec::new();
    let mut from: usize = 0;
    while from < bytes.len()
        invariant
            from <= bytes.len(),
            from == if ROW_SIZE * rows.len() <= bytes.len() {
                ROW_SIZE * rows.len()
            } else {
                bytes.len() as int
            },
            ROW_SIZE * rows.len() < bytes.len() + ROW_SIZE,
            forall|row: int|
                0 <= row < rows.len() ==> (#[trigger] rows[row])@ == row_text(
                    (start + ROW_SIZE * row) as nat,
                    row_bytes(bytes@, row),
                ),
        decreases bytes.len() - from,
    {
        let to: usize = if bytes.len() - from >= ROW_SIZE {
            from + ROW_SIZE
        } else {
            bytes.len()
        };
        proof {
            reveal_strlit(": ");
        }
        let mut line = to_hex_upper(start as u128 + from as u128, 4);
        line.append(": ");
        let text = format_bytes(slice_subrange(bytes, from, to));
        line.append(text.as_str());
        assert(line@ =~= row_text((start + from) as nat, row_bytes(bytes@, rows.len() as int)));
        rows.push(line);
        from = to;
    }
    rows
}

} // verus!
