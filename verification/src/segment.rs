//! The segments that lay out the address space.

use crate::range::AddressRange;
use core::cmp::Ordering;
use vstd::prelude::*;

verus! {

/// What a segment does with its range.
#[derive(Debug, Clone, PartialEq, Eq)]
pub enum SegmentType {
    /// The range is kept identical to the range given here, its destination.
    Mirror(AddressRange),
    /// Writes to the range are rejected.
    Readonly,
    /// The range starts out holding these bytes.
    Data(Vec<u8>),
}

/// A range of the address space and what is done with it. For a mirror, `range`
/// is the source range.
#[derive(Debug, Clone, PartialEq, Eq)]
pub struct Segment {
    pub ttype: SegmentType,
    pub range: AddressRange,
}

impl Segment {
    /// Whether the segment may stand in a layout: a mirror's two ranges share
    /// no address, and a data segment holds exactly as many bytes as its range
    /// has addresses.
    pub open spec fn valid(self) -> bool {
        match self.ttype {
            SegmentType::Mirror(dest) => !self.range.intersects_spec(dest),
            SegmentType::Readonly => true,
            SegmentType::Data(bytes) => bytes.len() == self.range.len_spec(),
        }
    }

    /// Whether the segment forbids writing to `addr`.
    pub open spec fn protects(self, addr: int) -> bool {
        self.ttype is Readonly && self.range.contains_spec(addr)
    }

    /// The address that a mirror keeps identical to `addr`: the address at the
    /// same offset in the other range, where `addr` lies in one of the two
    /// ranges and the other range reaches that far.
    pub open spec fn image_spec(self, addr: int) -> Option<int> {
        match self.ttype {
            SegmentType::Mirror(dest) => {
                if self.range.contains_spec(addr) {
                    if dest.contains_spec(dest.start + (addr - self.range.start)) {
                        Some(dest.start + (addr - self.range.start))
                    } else {
                        None
                    }
                } else if dest.contains_spec(addr) {
                    if self.range.contains_spec(self.range.start + (addr - dest.start)) {
                        Some(self.range.start + (addr - dest.start))
                    } else {
                        None
                    }
                } else {
                    None
                }
            },
            _ => None,
        }
    }

    /// Whether the segment comes strictly before `other` when segments are
    /// sorted: by the start of the range, then by its end.
    pub open spec fn precedes_spec(self, other: Segment) -> bool {
        self.range.start < other.range.start || (self.range.start == other.range.start
            && self.range.end < other.range.end)
    }

    /// A segment that keeps `src` and `dest` identical.
    pub fn mirror(src: AddressRange, dest: AddressRange) -> (s: Segment)
        ensures
            s == (Segment { ttype: SegmentType::Mirror(dest), range: src }),
    {
        Segment { ttype: SegmentType::Mirror(dest), range: src }
    }

    /// A segment that forbids writing to `range`.
    pub fn readonly(range: AddressRange) -> (s: Segment)
        ensures
            s == (Segment { ttype: SegmentType::Readonly, range }),
    {
        Segment { ttype: SegmentType::Readonly, range }
    }

    /// A segment that fills `range` with `bytes`.
    pub fn data(range: AddressRange, bytes: Vec<u8>) -> (s: Segment)
        ensures
            s == (Segment { ttype: SegmentType::Data(bytes), range }),
    {
        Segment { ttype: SegmentType::Data(bytes), range }
    }

    /// The bytes of a data segment.
    pub fn into_bytes(self) -> (bytes: Vec<u8>)
        requires
            self.ttype is Data,
        ensures
            self.ttype == SegmentType::Data(bytes),
    {
        match self.ttype {
            SegmentType::Data(bytes) => bytes,
            _ => Vec::new(),
        }
    }

    /// Whether the segment's range holds `addr`.
    pub fn contains(&self, addr: u16) -> (r: bool)
        ensures
            r == self.range.contains_spec(addr as int),
    {
        self.range.contains(addr)
    }

    /// The destination range of a mirror.
    pub fn dest_range(&self) -> (dest: AddressRange)
        requires
            self.ttype is Mirror,
        ensures
            self.ttype == SegmentType::Mirror(dest),
    {
        match &self.ttype {
            SegmentType::Mirror(dest) => *dest,
            _ => self.range,
        }
    }

    /// Whether the segment is a mirror.
    pub fn is_mirror(&self) -> (r: bool)
        ensures
            r == (self.ttype is Mirror),
    {
        match self.ttype {
            SegmentType::Mirror(_) => true,
            _ => false,
        }
    }

    /// Whether the segment forbids writes.
    pub fn is_readonly(&self) -> (r: bool)
        ensures
            r == (self.ttype is Readonly),
    {
        match self.ttype {
            SegmentType::Readonly => true,
            _ => false,
        }
    }

    /// The address that a mirror keeps identical to `addr`, if there is one.
    pub fn image(&self, addr: u16) -> (r: Option<u16>)
        ensures
            self.image_spec(addr as int) is None ==> r is None,
            self.image_spec(addr as int) is Some ==> r is Some && r->Some_0
                == self.image_spec(addr as int)->Some_0,
    {
        if !self.is_mirror() {
            return None;
        }
        let dest = self.dest_range();
        if self.range.contains(addr) {
            let offset = addr - self.range.start;
            if dest.start <= dest.end && offset <= dest.end - dest.start {
                Some(dest.start + offset)
            } else {
                None
            }
        } else if dest.contains(addr) {
            let offset = addr - dest.start;
            if self.range.start <= self.range.end && offset <= self.range.end - self.range.start {
                Some(self.range.start + offset)
            } else {
                None
            }
        } else {
            None
        }
    }

    /// Whether the segment comes strictly before `other` when segments are
    /// sorted.
    pub fn precedes(&self, other: &Segment) -> (r: bool)
        ensures
            r == self.precedes_spec(*other),
    {
        self.range.start < other.range.start || (self.range.start == other.range.start
            && self.range.end < other.range.end)
    }

    /// Compares two segments by the start of their ranges, and by the end where
    /// the starts are equal.
    pub fn cmp(&self, other: &Segment) -> (r: Ordering)
        ensures
            r is Less <==> self.precedes_spec(*other),
            r is Greater <==> other.precedes_spec(*self),
            r is Equal <==> self.range == other.range,
    {
        if self.range.start < other.range.start {
            Ordering::Less
        } else if self.range.start > other.range.start {
            Ordering::Greater
        } else if self.range.end < other.range.end {
            Ordering::Less
        } else if self.range.end > other.range.end {
            Ordering::Greater
        } else {
            Ordering::Equal
        }
    }

    /// Compares two segments as `cmp` does: segments are totally ordered.
    pub fn partial_cmp(&self, other: &Segment) -> (r: Option<Ordering>)
        ensures
            r is Some,
            r->Some_0 is Less <==> self.precedes_spec(*other),
            r->Some_0 is Greater <==> other.precedes_spec(*self),
            r->Some_0 is Equal <==> self.range == other.range,
    {
        Some(self.cmp(other))
    }
}

} // verus!
