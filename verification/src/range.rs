//! Inclusive ranges of 16-bit addresses.

use core::ops::RangeInclusive;
use vstd::prelude::*;

verus! {

/// `RangeInclusive::start` returns the range's lower bound, as long as the
/// range has not been iterated to its end.
pub assume_specification<Idx>[ RangeInclusive::<Idx>::start ](r: &RangeInclusive<Idx>) -> (ret:
    &Idx)
    ensures
        !r@.exhausted ==> *ret == r@.start,
;

/// `RangeInclusive::end` returns the range's upper bound, as long as the range
/// has not been iterated to its end.
pub assume_specification<Idx>[ RangeInclusive::<Idx>::end ](r: &RangeInclusive<Idx>) -> (ret: &Idx)
    ensures
        !r@.exhausted ==> *ret == r@.end,
;

/// `RangeInclusive::is_empty` on 16-bit bounds: a range holds no item when its
/// lower bound lies above its upper bound, or once it has been iterated to its
/// end.
#[verifier::external_body]
fn is_empty_inclusive(r: &RangeInclusive<u16>) -> (ret: bool)
    ensures
        ret == (r@.exhausted || r@.start > r@.end),
{
    r.is_empty()
}

/// The addresses from `start` to `end`, both included. A range whose `start`
/// lies above its `end` holds no address.
#[derive(Debug, Clone, Copy, PartialEq, Eq, Structural)]
pub struct AddressRange {
    pub start: u16,
    pub end: u16,
}

impl AddressRange {
    /// Whether the range holds `addr`.
    pub open spec fn contains_spec(self, addr: int) -> bool {
        self.start <= addr <= self.end
    }

    /// The number of addresses in the range.
    pub open spec fn len_spec(self) -> nat {
        if self.start <= self.end {
            (self.end - self.start + 1) as nat
        } else {
            0
        }
    }

    /// Whether the two ranges share an address.
    pub open spec fn intersects_spec(self, other: AddressRange) -> bool {
        exists|addr: int| self.contains_spec(addr) && other.contains_spec(addr)
    }

    /// The range that stands for every range without an address.
    pub open spec fn empty() -> AddressRange {
        AddressRange { start: 1, end: 0 }
    }

    /// The addresses of a standard inclusive range. Every range that holds no
    /// item gives `empty()`.
    pub open spec fn of(range: RangeInclusive<u16>) -> AddressRange {
        if range@.exhausted || range@.start > range@.end {
            AddressRange::empty()
        } else {
            AddressRange { start: range@.start, end: range@.end }
        }
    }

    /// The range from `start` to `end`, both included.
    pub fn new(start: u16, end: u16) -> (r: AddressRange)
        ensures
            r == (AddressRange { start, end }),
    {
        AddressRange { start, end }
    }

    /// The addresses of a standard inclusive range.
    pub fn from_inclusive(range: &RangeInclusive<u16>) -> (r: AddressRange)
        ensures
            r == AddressRange::of(*range),
    {
        if is_empty_inclusive(range) {
            AddressRange { start: 1, end: 0 }
        } else {
            AddressRange { start: *range.start(), end: *range.end() }
        }
    }

    /// Whether the range holds `addr`.
    pub fn contains(&self, addr: u16) -> (r: bool)
        ensures
            r == self.contains_spec(addr as int),
    {
        self.start <= addr && addr <= self.end
    }

    /// Whether the range holds no address.
    pub fn is_empty(&self) -> (r: bool)
        ensures
            r == (self.len_spec() == 0),
    {
        self.start > self.end
    }

    /// The number of addresses in the range.
    pub fn len(&self) -> (r: usize)
        ensures
            r == self.len_spec(),
    {
        if self.start <= self.end {
            (self.end - self.start) as usize + 1
        } else {
            0
        }
    }

    /// Whether the two ranges share an address.
    pub fn intersects(&self, other: &AddressRange) -> (r: bool)
        ensures
            r == self.intersects_spec(*other),
    {
        let r = self.start <= self.end && other.start <= other.end && self.start <= other.end
            && other.start <= self.end;
        proof {
            if r {
                let witness: int = if self.start >= other.start {
                    self.start as int
                } else {
                    other.start as int
                };
                assert(self.contains_spec(witness) && other.contains_spec(witness));
            }
        }
        r
    }
}

} // verus!
