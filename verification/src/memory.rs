//! The 64 KiB address space with its mirrors and read-only ranges.

use crate::address_mode::{to_word, word_le};
use crate::layout::{
    is_image, is_protected, lemma_sorting_keeps_meaning, overlay, place_all, sort_segments,
    sorted_segments, store, store_word, valid_layout, MEMORY_SIZE,
};
use crate::range::AddressRange;
use crate::segment::{Segment, SegmentType};
use core::ops::RangeInclusive;
use vstd::prelude::*;

verus! {

/// Why a segment cannot be added to a layout.
#[derive(Debug, Clone, Copy, PartialEq, Eq)]
pub enum ConfigError {
    /// The two ranges of a mirror share an address.
    MirrorOverlap,
    /// A data segment does not hold as many bytes as its range has addresses.
    LengthMismatch,
}

/// A write was aimed at a read-only address.
#[derive(Debug, Clone, Copy, PartialEq, Eq)]
pub struct ReadOnlyViolation;

/// Collects the segments of an address space before it is built.
pub struct MemoryBuilder {
    segments: Vec<Segment>,
    data: Vec<Segment>,
}

/// The address space of the machine: 65536 bytes, the mirrors that couple
/// ranges of them, and the ranges that reject writes.
pub struct Memory {
    data: [u8; 0x10000],
    segments: Vec<Segment>,
}

/// An address space of zero bytes.
pub open spec fn blank() -> Seq<u8> {
    Seq::new(MEMORY_SIZE as nat, |i: int| 0u8)
}

impl MemoryBuilder {
    /// The mirrors and read-only ranges added so far, in the order in which
    /// they were added.
    pub closed spec fn segments(&self) -> Seq<Segment> {
        self.segments@
    }

    /// The data segments added so far, in the order in which they were added.
    pub closed spec fn data(&self) -> Seq<Segment> {
        self.data@
    }

    /// Whether the builder is consistent: its mirrors and read-only ranges form
    /// a valid layout, and each data segment holds exactly the bytes of its
    /// range.
    pub open spec fn wf(&self) -> bool {
        &&& valid_layout(self.segments())
        &&& forall|k: int|
            0 <= k < self.data().len() ==> (#[trigger] self.data()[k]).valid()
                && self.data()[k].ttype is Data
    }

    /// A builder without segments.
    pub fn new() -> (builder: MemoryBuilder)
        ensures
            builder.wf(),
            builder.segments() == Seq::<Segment>::empty(),
            builder.data() == Seq::<Segment>::empty(),
    {
        MemoryBuilder { segments: Vec::new(), data: Vec::new() }
    }

    /// Adds a range that rejects writes.
    pub fn add_readonly(&mut self, range: RangeInclusive<u16>)
        requires
            old(self).wf(),
        ensures
            final(self).wf(),
            final(self).data() == old(self).data(),
            final(self).segments() == old(self).segments().push(
                (Segment { ttype: SegmentType::Readonly, range: AddressRange::of(range) }),
            ),
    {
        self.segments.push(Segment::readonly(AddressRange::from_inclusive(&range)));
    }

    /// Adds a mirror that keeps `src` and `dest` identical. Fails, and adds
    /// nothing, when the two ranges share an address.
    pub fn add_mirror(
        &mut self,
        src: RangeInclusive<u16>,
        dest: RangeInclusive<u16>,
    ) -> (r: Result<(), ConfigError>)
        requires
            old(self).wf(),
        ensures
            final(self).wf(),
            final(self).data() == old(self).data(),
            r is Err <==> AddressRange::of(src).intersects_spec(AddressRange::of(dest)),
            r is Err ==> r->Err_0 == ConfigError::MirrorOverlap,
            r is Err ==> final(self).segments() == old(self).segments(),
            r is Ok ==> final(self).segments() == old(self).segments().push(
                (Segment {
                    ttype: SegmentType::Mirror(AddressRange::of(dest)),
                    range: AddressRange::of(src),
                }),
            ),
    {
        let src = AddressRange::from_inclusive(&src);
        let dest = AddressRange::from_inclusive(&dest);
        if src.intersects(&dest) {
            Err(ConfigError::MirrorOverlap)
        } else {
            self.segments.push(Segment::mirror(src, dest));
            Ok(())
        }
    }

    /// Adds bytes that the memory holds in `range` from the start. Fails, and
    /// adds nothing, when there are not exactly as many bytes as the range has
    /// addresses.
    pub fn add_data(
        &mut self,
        range: RangeInclusive<u16>,
        bytes: Vec<u8>,
    ) -> (r: Result<(), ConfigError>)
        requires
            old(self).wf(),
        ensures
            final(self).wf(),
            final(self).segments() == old(self).segments(),
            r is Err <==> bytes.len() != AddressRange::of(range).len_spec(),
            r is Err ==> r->Err_0 == ConfigError::LengthMismatch,
            r is Err ==> final(self).data() == old(self).data(),
            r is Ok ==> final(self).data() == old(self).data().push(
                (Segment { ttype: SegmentType::Data(bytes), range: AddressRange::of(range) }),
            ),
    {
        let range = AddressRange::from_inclusive(&range);
        if bytes.len() != range.len() {
            Err(ConfigError::LengthMismatch)
        } else {
            self.data.push(Segment::data(range, bytes));
            Ok(())
        }
    }

    /// Builds the memory. Starting from zero bytes, each data segment in the
    /// order of its adding is copied to its range, so that a later segment
    /// overwrites an earlier one where both reach. The mirrors and read-only
    /// ranges are kept, sorted by range; they play no part in the copying.
    pub fn build(self) -> (memory: Memory)
        requires
            self.wf(),
        ensures
            memory.wf(),
            memory.bytes() == place_all(blank(), self.data()),
            memory.segments() == sorted_segments(self.segments()),
    {
        let ghost all = self.data@;
        let ghost layout = self.segments@;
        let MemoryBuilder { segments, data } = self;
        let mut data = data;
        let mut memory: [u8; 0x10000] = [0; 0x10000];
        let ghost mut done: int = 0;
        assert(memory@ =~= blank());
        assert(all.take(0) =~= Seq::<Segment>::empty());
        assert(all.skip(0) =~= all);
        while data.len() > 0
            invariant
                0 <= done <= all.len(),
                data@ == all.skip(done),
                memory@ == place_all(blank(), all.take(done)),
                forall|k: int|
                    0 <= k < all.len() ==> (#[trigger] all[k]).valid() && all[k].ttype is Data,
            decreases data.len(),
        {
            let ghost before = memory@;
            let datum = data.remove(0);
            let start = datum.range.start;
            assert(datum == all[done]);
            let bytes = datum.into_bytes();
            proof {
                let prefix = all.take(done + 1);
                assert(prefix.drop_last() =~= all.take(done));
                assert(prefix.last() == datum);
                assert(all.skip(done).remove(0) =~= all.skip(done + 1));
                done = done + 1;
            }
            copy_into(&mut memory, start, &bytes);
            assert(memory@ =~= overlay(before, datum));
        }
        assert(all.take(done) =~= all);
        proof {
            lemma_sorting_keeps_meaning(layout);
        }
        Memory { data: memory, segments: sort_segments(segments) }
    }
}

/// Copies `values` into `memory` from `start` upwards.
fn copy_into(memory: &mut [u8; 0x10000], start: u16, values: &Vec<u8>)
    requires
        values.len() > 0 ==> start + values.len() <= MEMORY_SIZE,
    ensures
        forall|i: int|
            0 <= i < MEMORY_SIZE ==> (#[trigger] final(memory)@[i]) == if start <= i < start
                + values.len() {
                values@[i - start]
            } else {
                old(memory)@[i]
            },
{
    let mut index: usize = 0;
    while index < values.len()
        invariant
            index <= values.len(),
            values.len() > 0 ==> start + values.len() <= MEMORY_SIZE,
            forall|i: int|
                0 <= i < MEMORY_SIZE ==> (#[trigger] memory@[i]) == if start <= i < start + index {
                    values@[i - start]
                } else {
                    old(memory)@[i]
                },
        decreases values.len() - index,
    {
        memory[start as usize + index] = values[index];
        index = index + 1;
    }
}

impl Memory {
    /// The 65536 bytes of the address space.
    pub closed spec fn bytes(&self) -> Seq<u8> {
        self.data@
    }

    /// The mirrors and read-only ranges, sorted by range.
    pub closed spec fn segments(&self) -> Seq<Segment> {
        self.segments@
    }

    /// Whether the memory's segments form a valid layout.
    pub open spec fn wf(&self) -> bool {
        valid_layout(self.segments())
    }

    /// Every memory holds exactly 65536 bytes.
    pub proof fn lemma_size(&self)
        ensures
            self.bytes().len() == MEMORY_SIZE,
    {
    }

    /// Copies the byte at `src` to `dest`.
    fn sync_memory(&mut self, src: u16, dest: u16)
        ensures
            final(self).segments@ == old(self).segments@,
            final(self).data@ == old(self).data@.update(dest as int, old(self).data@[src as int]),
    {
        let byte = self.data[src as usize];
        self.data[dest as usize] = byte;
    }

    /// Copies the byte at `addr` to its image in every mirror.
    fn sync(&mut self, addr: u16)
        ensures
            final(self).segments@ == old(self).segments@,
            final(self).data@ == store(
                old(self).data@,
                old(self).segments@,
                addr as int,
                old(self).data@[addr as int],
            ),
    {
        let ghost before = self.data@;
        let ghost layout = self.segments@;
        let ghost value = before[addr as int];
        let mut index: usize = 0;
        assert(self.data@ =~= store(before, layout.take(0), addr as int, value));
        while index < self.segments.len()
            invariant
                index <= self.segments.len(),
                self.segments@ == layout,
                before.len() == MEMORY_SIZE,
                value == before[addr as int],
                self.data@ == store(before, layout.take(index as int), addr as int, value),
            decreases self.segments.len() - index,
        {
            let ghost current = self.data@;
            let image = self.segments[index].image(addr);
            match image {
                Some(target) => {
                    self.sync_memory(addr, target);
                },
                None => {},
            }
            proof {
                let shorter = layout.take(index as int);
                let longer = layout.take(index as int + 1);
                assert forall|i: int| 0 <= i < MEMORY_SIZE implies self.data@[i] == store(
                    before,
                    longer,
                    addr as int,
                    value,
                )[i] by {
                    if is_image(longer, addr as int, i) {
                        let k = choose|k: int|
                            0 <= k < longer.len() && (#[trigger] longer[k]).image_spec(addr as int)
                                == Some(i);
                        if k < index {
                            assert(shorter[k].image_spec(addr as int) == Some(i));
                        }
                    }
                    if is_image(shorter, addr as int, i) {
                        let k = choose|k: int|
                            0 <= k < shorter.len() && (#[trigger] shorter[k]).image_spec(
                                addr as int,
                            ) == Some(i);
                        assert(longer[k].image_spec(addr as int) == Some(i));
                    }
                    if layout[index as int].image_spec(addr as int) == Some(i) {
                        assert(longer[index as int].image_spec(addr as int) == Some(i));
                    }
                }
                assert(self.data@ =~= store(before, longer, addr as int, value));
            }
            index = index + 1;
        }
        assert(layout.take(index as int) =~= layout);
    }

    /// Whether some read-only segment holds `addr`.
    fn readonly(&self, addr: u16) -> (r: bool)
        ensures
            r == is_protected(self.segments@, addr as int),
    {
        let mut index: usize = 0;
        while index < self.segments.len()
            invariant
                index <= self.segments.len(),
                forall|k: int| 0 <= k < index ==> !(#[trigger] self.segments@[k]).protects(addr as int),
            decreases self.segments.len() - index,
        {
            let segment = &self.segments[index];
            if segment.is_readonly() && segment.contains(addr) {
                return true;
            }
            index = index + 1;
        }
        false
    }

    /// Stores `value` at `addr` and at each of its mirror images, whether or
    /// not the address is read-only.
    fn put(&mut self, addr: u16, value: u8)
        ensures
            final(self).segments@ == old(self).segments@,
            final(self).data@ == store(old(self).data@, old(self).segments@, addr as int, value),
    {
        self.data[addr as usize] = value;
        self.sync(addr);
        assert(self.data@ =~= store(old(self).data@, old(self).segments@, addr as int, value));
    }

    /// The byte at `addr`.
    pub fn read_u8(&self, addr: u16) -> (byte: u8)
        ensures
            byte == self.bytes()[addr as int],
    {
        self.data[addr as usize]
    }

    /// The 16-bit word at `addr`: the byte at `addr` is its low byte, the byte
    /// after it its high byte.
    pub fn read_u16(&self, addr: u16) -> (word: u16)
        requires
            addr < 0xFFFF,
        ensures
            word == word_le(self.bytes()[addr as int], self.bytes()[addr + 1]),
    {
        to_word(self.data[addr as usize], self.data[addr as usize + 1])
    }

    /// Writes a byte. The write is rejected, and nothing changes, when `addr`
    /// lies in a read-only segment. Otherwise the byte is stored at `addr` and
    /// at each of its mirror images.
    pub fn write_u8(&mut self, addr: u16, byte: u8) -> (r: Result<(), ReadOnlyViolation>)
        ensures
            final(self).segments() == old(self).segments(),
            r is Err <==> is_protected(old(self).segments(), addr as int),
            r is Err ==> final(self).bytes() == old(self).bytes(),
            r is Ok ==> final(self).bytes() == store(
                old(self).bytes(),
                old(self).segments(),
                addr as int,
                byte,
            ),
    {
        if self.readonly(addr) {
            Err(ReadOnlyViolation)
        } else {
            self.put(addr, byte);
            Ok(())
        }
    }

    /// Writes a 16-bit word, low byte first. The write is rejected, and
    /// nothing changes, when either of its two addresses lies in a read-only
    /// segment. Otherwise the low byte is stored at `addr` and the high byte
    /// at the address after it, each reaching its mirror images too.
    pub fn write_u16(&mut self, addr: u16, word: u16) -> (r: Result<(), ReadOnlyViolation>)
        requires
            addr < 0xFFFF,
        ensures
            final(self).segments() == old(self).segments(),
            r is Err <==> is_protected(old(self).segments(), addr as int) || is_protected(
                old(self).segments(),
                addr + 1,
            ),
            r is Err ==> final(self).bytes() == old(self).bytes(),
            r is Ok ==> final(self).bytes() == store_word(
                old(self).bytes(),
                old(self).segments(),
                addr as int,
                (word % 256) as u8,
                (word / 256) as u8,
            ),
    {
        if self.readonly(addr) || self.readonly(addr + 1) {
            Err(ReadOnlyViolation)
        } else {
            self.put(addr, (word % 256) as u8);
            self.put(addr + 1, (word / 256) as u8);
            Ok(())
        }
    }

    /// The bytes at the addresses of `range`, in order.
    pub fn iter_range(&self, range: RangeInclusive<u16>) -> (bytes: Vec<u8>)
        ensures
            bytes@ == self.bytes().subrange(
                AddressRange::of(range).start as int,
                AddressRange::of(range).start + AddressRange::of(range).len_spec(),
            ),
    {
        let range = AddressRange::from_inclusive(&range);
        let count = range.len();
        let first = range.start as usize;
        let mut bytes: Vec<u8> = Vec::new();
        let mut index: usize = 0;
        while index < count
            invariant
                index <= count,
                count == range.len_spec(),
                first == range.start,
                bytes@ == self.data@.subrange(first as int, first + index),
            decreases count - index,
        {
            bytes.push(self.data[first + index]);
            assert(bytes@ =~= self.data@.subrange(first as int, first + index + 1));
            index = index + 1;
        }
        bytes
    }
}

} // verus!
