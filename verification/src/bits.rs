//! The bit cursor: sequential single-bit reads over a byte buffer,
//! LSB-first within each byte.  Reads past the end of the buffer yield
//! `false`.  Finishing yields a byte cursor positioned at the byte after
//! the last consumed bit.

use vstd::prelude::*;
use vstd::slice::{slice_index_get, slice_subrange};

use crate::error::ParseError;
use crate::parser::SliceParser;
use crate::wire::{spec_bit, spec_pow2_u8};

verus! {

/// A cursor that hands out one bit at a time.
#[derive(Debug, Clone, Copy)]
pub struct Bits<'a> {
    pub buffer: &'a [u8],
    pub index: usize,
}

impl<'a> Bits<'a> {
    /// A bit cursor over the whole of `buffer`, starting at bit 0.
    pub fn new(buffer: &'a [u8]) -> (r: Self)
        ensures
            r.buffer@ == buffer@,
            r.index == 0,
    {
        Self { buffer, index: 0 }
    }

    /// Bit `index` of the buffer, without moving the cursor.
    pub fn get(&self, index: usize) -> (r: bool)
        ensures
            r == spec_bit(self.buffer@, index as nat),
    {
        let i: usize = index / 8;
        let j: usize = index % 8;
        if i >= self.buffer.len() {
            false
        } else {
            let byte = *slice_index_get(self.buffer, i);
            let mask: u8 = if j == 0 {
                1
            } else if j == 1 {
                2
            } else if j == 2 {
                4
            } else if j == 3 {
                8
            } else if j == 4 {
                16
            } else if j == 5 {
                32
            } else if j == 6 {
                64
            } else {
                128
            };
            proof {
                assert(mask == spec_pow2_u8((index % 8) as nat));
            }
            (byte / mask) % 2 == 1
        }
    }

    /// The next bit; the cursor moves on by one.
    pub fn next(&mut self) -> (r: bool)
        requires
            old(self).index < usize::MAX,
        ensures
            final(self).buffer@ == old(self).buffer@,
            final(self).index == old(self).index + 1,
            r == spec_bit(old(self).buffer@, old(self).index as nat),
    {
        let index = self.index;
        self.index = self.index + 1;
        self.get(index)
    }

    /// `value` if bit `index` is set, `None` otherwise.
    pub fn option<T>(&self, index: usize, value: T) -> (r: Option<T>)
        ensures
            r == if spec_bit(self.buffer@, index as nat) {
                Option::Some(value)
            } else {
                Option::<T>::None
            },
    {
        if self.get(index) {
            Some(value)
        } else {
            None
        }
    }

    /// A byte cursor over what follows the consumed bits: it starts at
    /// byte `ceil(index / 8)`.  Fails with `Incomplete` when that offset
    /// lies beyond the buffer.
    pub fn finish(self) -> (r: Result<SliceParser<'a>, ParseError>)
        requires
            self.index <= usize::MAX - 7,
        ensures
            match r {
                Ok(p) => {
                    &&& (self.index + 7) / 8 <= self.buffer@.len()
                    &&& p@ == self.buffer@.skip((self.index + 7) / 8 as int)
                },
                Err(e) => {
                    &&& (self.index + 7) / 8 > self.buffer@.len()
                    &&& e == ParseError::Incomplete(
                        ((self.index + 7) / 8 - self.buffer@.len()) as usize,
                    )
                },
            },
    {
        let offset: usize = (self.index + 7) / 8;
        if offset > self.buffer.len() {
            return Err(ParseError::Incomplete(offset - self.buffer.len()));
        }
        let rest = slice_subrange(self.buffer, offset, self.buffer.len());
        Ok(SliceParser::new(rest))
    }

    /// As [`Bits::finish`], for callers that already know the offset is
    /// in range.
    pub fn finish_to(self) -> (r: SliceParser<'a>)
        requires
            self.index <= usize::MAX - 7,
            (self.index + 7) / 8 <= self.buffer@.len(),
        ensures
            r@ == self.buffer@.skip((self.index + 7) / 8 as int),
    {
        let offset: usize = (self.index + 7) / 8;
        let rest = slice_subrange(self.buffer, offset, self.buffer.len());
        SliceParser::new(rest)
    }
}

} // verus!
