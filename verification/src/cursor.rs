//! A forward-only reading position in a byte buffer.

use vstd::prelude::*;
use vstd::slice::slice_subrange;

verus! {

/// A position in a borrowed byte buffer that only moves forward.
///
/// Its view is the sequence of bytes not yet consumed. A cursor cannot be
/// rewound: to read a buffer again, make a new cursor.
#[derive(Debug)]
pub struct ByteCursor<'a> {
    rest: &'a [u8],
}

impl<'a> View for ByteCursor<'a> {
    type V = Seq<u8>;

    closed spec fn view(&self) -> Seq<u8> {
        self.rest@
    }
}

impl<'a> ByteCursor<'a> {
    /// A cursor at the start of `data`.
    pub fn new(data: &'a [u8]) -> (c: Self)
        ensures
            c@ == data@,
    {
        ByteCursor { rest: data }
    }

    /// Number of bytes not yet consumed.
    pub fn remaining(&self) -> (n: usize)
        ensures
            n == self@.len(),
    {
        self.rest.len()
    }

    /// The next byte, without consuming it.
    pub fn peek(&self) -> (r: Option<u8>)
        ensures
            r == (if self@.len() > 0 {
                Some(self@[0])
            } else {
                None
            }),
    {
        if self.rest.len() > 0 {
            Some(self.rest[0])
        } else {
            None
        }
    }

    /// The byte `offset` places ahead, without consuming anything.
    pub fn peek_at(&self, offset: usize) -> (r: Option<u8>)
        ensures
            r == (if offset < self@.len() {
                Some(self@[offset as int])
            } else {
                None
            }),
    {
        if offset < self.rest.len() {
            Some(self.rest[offset])
        } else {
            None
        }
    }

    /// Consumes `count` bytes.
    pub fn advance(&mut self, count: usize)
        requires
            count <= old(self)@.len(),
        ensures
            final(self)@ == old(self)@.skip(count as int),
    {
        let rest = self.rest;
        self.rest = slice_subrange(rest, count, rest.len());
    }

    /// Consumes and returns the next byte, if there is one.
    pub fn next(&mut self) -> (r: Option<u8>)
        ensures
            old(self)@.len() > 0 ==> r == Some(old(self)@[0]) && final(self)@ == old(self)@.skip(1),
            old(self)@.len() == 0 ==> r.is_none() && final(self)@ == old(self)@,
    {
        if self.rest.len() > 0 {
            let b = self.rest[0];
            self.advance(1);
            Some(b)
        } else {
            None
        }
    }
}

} // verus!
