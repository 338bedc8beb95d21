//! Decoding a whole buffer, one instruction after the other.

use crate::cursor::ByteCursor;
use crate::decode::{consumed, decode_entry, lemma_decode_consumes};
use crate::format::instruction_text;
use crate::hex::{hex, to_hex};
use crate::instructions::Instruction;
use crate::opcode::{decode_all, decode_one, Opcode};
use vstd::prelude::*;
use vstd::string::StringExecFns;

verus! {

/// A lazy sequence of the instructions in a byte buffer.
///
/// Each call of `next` decodes one instruction. The sequence ends at the first
/// place that holds no instruction, and stays ended. It cannot be restarted:
/// to decode the buffer again, make a new cursor. The view is the sequence of
/// bytes not yet decoded.
#[derive(Debug)]
pub struct OpcodeIterator<'a> {
    inner: ByteCursor<'a>,
}

impl<'a> View for OpcodeIterator<'a> {
    type V = Seq<u8>;

    closed spec fn view(&self) -> Seq<u8> {
        self.inner@
    }
}

impl<'a> OpcodeIterator<'a> {
    /// Decodes the next instruction. After a `None` the iterator has not
    /// moved, so every later call gives `None` again.
    pub fn next(&mut self) -> (r: Option<Opcode>)
        ensures
            r == decode_one(old(self)@),
            final(self)@ == old(self)@.skip(consumed(decode_entry(old(self)@)) as int),
    {
        Opcode::from_peekable(&mut self.inner)
    }
}

/// The lazy sequence of the instructions from the cursor's position on.
pub fn opcodes<'a>(stream: ByteCursor<'a>) -> (it: OpcodeIterator<'a>)
    ensures
        it@ == stream@,
{
    OpcodeIterator { inner: stream }
}

/// Decodes the instructions of `data` from its start up to the first place
/// that holds no instruction.
pub fn dump(data: Vec<u8>) -> (result: Vec<Opcode>)
    ensures
        result@ == decode_all(data@),
{
    let mut iter = opcodes(ByteCursor::new(data.as_slice()));
    let mut result: Vec<Opcode> = Vec::new();
    assert(result@ + decode_all(iter@) =~= decode_all(data@));
    loop
        invariant
            decode_all(data@) == result@ + decode_all(iter@),
        ensures
            result@ == decode_all(data@),
        decreases iter@.len(),
    {
        let ghost before = iter@;
        let ghost done = result@;
        proof {
            lemma_decode_consumes(before);
        }
        match iter.next() {
            Some(op) => {
                result.push(op);
                assert(result@ + decode_all(iter@) =~= done + decode_all(before));
            },
            None => {
                assert(decode_all(before) =~= Seq::<Opcode>::empty());
                assert(result@ =~= decode_all(data@));
                break;
            },
        }
    }
    result
}

/// The address of the instruction at `index` in a listing that starts at
/// address zero: the sizes of the instructions before it, added up.
pub open spec fn address_of(opcodes: Seq<Opcode>, index: int) -> nat
    decreases index,
{
    if index <= 0 {
        0
    } else {
        address_of(opcodes, index - 1) + opcodes[index - 1].mode().size_spec()
    }
}

/// One line of a listing: a dollar sign, the address in at least four
/// lowercase hexadecimal digits, a space and the instruction's text.
pub open spec fn listing_line(address: nat, op: Opcode) -> Seq<char> {
    seq!['$'] + hex(address, 4) + seq![' '] + instruction_text(op.mnemonic(), op.mode())
}

/// The disassembly listing of a sequence of instructions, one line for each,
/// with addresses counted from zero.
pub fn listing(opcodes: &[Opcode]) -> (lines: Vec<String>)
    ensures
        lines.len() == opcodes.len(),
        forall|i: int|
            0 <= i < opcodes.len() ==> (#[trigger] lines[i])@ == listing_line(
                address_of(opcodes@, i),
                opcodes[i],
            ),
{
    let mut lines: Vec<String> = Vec::new();
    let mut address: u128 = 0;
    let mut index: usize = 0;
    while index < opcodes.len()
        invariant
            index <= opcodes.len(),
            lines.len() == index,
            address == address_of(opcodes@, index as int),
            address <= 3 * index,
            forall|i: int|
                0 <= i < index ==> (#[trigger] lines[i])@ == listing_line(
                    address_of(opcodes@, i),
                    opcodes[i],
                ),
        decreases opcodes.len() - index,
    {
        proof {
            reveal_strlit("$");
            reveal_strlit(" ");
        }
        let op = &opcodes[index];
        let mut line = String::from_str("$");
        let digits = to_hex(address, 4);
        line.append(digits.as_str());
        line.append(" ");
        let text = op.format();
        line.append(text.as_str());
        assert(line@ =~= listing_line(address as nat, *op));
        lines.push(line);
        let size = op.size();
        address = address + size as u128;
        index = index + 1;
    }
    lines
}

/// Decoding is a function of the buffer's contents alone: buffers that hold
/// the same bytes decode to the same instructions, however often it is done.
pub proof fn lemma_decoding_repeats(first: Seq<u8>, second: Seq<u8>)
    requires
        first =~= second,
    ensures
        decode_all(first) == decode_all(second),
{
}

/// The text of an instruction is a function of the instruction alone.
pub proof fn lemma_text_repeats(first: Opcode, second: Opcode)
    requires
        first == second,
    ensures
        instruction_text(first.mnemonic(), first.mode()) == instruction_text(
            second.mnemonic(),
            second.mode(),
        ),
{
}

/// The decoded sequence unfolds one instruction at a time: it is empty where
/// no instruction stands at the head, and otherwise starts with that
/// instruction and goes on behind it.
pub proof fn lemma_decode_all_unfolds(bytes: Seq<u8>)
    ensures
        decode_one(bytes) is None ==> decode_all(bytes) == Seq::<Opcode>::empty(),
        decode_one(bytes) is Some ==> decode_all(bytes) == seq![decode_one(bytes)->Some_0]
            + decode_all(bytes.skip(consumed(decode_entry(bytes)) as int)),
{
    lemma_decode_consumes(bytes);
}

/// The instructions decoded from a buffer take no more bytes than the buffer
/// holds.
pub proof fn lemma_decoded_size(bytes: Seq<u8>)
    ensures
        address_of(decode_all(bytes), decode_all(bytes).len() as int) <= bytes.len(),
    decreases bytes.len(),
{
    lemma_decode_consumes(bytes);
    match decode_entry(bytes) {
        Some((mnemonic, mode)) => {
            let rest = bytes.skip(mode.size_spec() as int);
            let head = Opcode::from_parts_spec(mnemonic, mode);
            lemma_decoded_size(rest);
            lemma_address_of_shift(head, decode_all(rest), decode_all(rest).len() as int);
            assert(decode_all(bytes) == seq![head] + decode_all(rest));
        },
        None => {},
    }
}

/// Putting an instruction in front moves every later address up by its size.
proof fn lemma_address_of_shift(head: Opcode, tail: Seq<Opcode>, index: int)
    requires
        0 <= index <= tail.len(),
    ensures
        address_of(seq![head] + tail, index + 1) == head.mode().size_spec() + address_of(
            tail,
            index,
        ),
    decreases index,
{
    let whole = seq![head] + tail;
    if index == 0 {
        assert(address_of(whole, 0) == 0);
        assert(whole[0] == head);
    } else {
        lemma_address_of_shift(head, tail, index - 1);
        assert(whole[index] == tail[index - 1]);
    }
}

} // verus!
