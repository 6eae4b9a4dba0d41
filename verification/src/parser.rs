//! The byte cursor: a borrowing view over a contiguous byte region that
//! every decoder reads through.
//!
//! Each operation either advances the cursor past exactly the bytes it
//! consumed, or fails and leaves the cursor untouched.

use vstd::prelude::*;
use vstd::slice::{slice_index_get, slice_subrange};

use crate::error::{BadFrameKind, ParseError};
use crate::wire::{
    spec_find_nul, spec_i32_of, spec_i64_of, spec_i8_of, spec_sign_decode32, spec_sign_decode64,
    spec_u16_le, spec_u32_le, spec_u64_le, spec_varint_rec, spec_varint_u32, spec_varint_u64,
    pow128, utf8_lossy, utf8_lossy_string, Float32,
};

verus! {

/// A cursor over a borrowed byte slice.  Advancing shrinks the slice from
/// the front; the view of the cursor is the sequence of bytes remaining.
#[derive(Debug)]
pub struct SliceParser<'a> {
    pub input: &'a [u8],
}

impl<'a> View for SliceParser<'a> {
    type V = Seq<u8>;

    open spec fn view(&self) -> Seq<u8> {
        self.input@
    }
}

impl<'a> SliceParser<'a> {
    /// A cursor over the whole of `input`.
    pub fn new(input: &'a [u8]) -> (r: Self)
        ensures
            r@ == input@,
    {
        Self { input }
    }

    /// The bytes left to read.
    pub fn buffer(&self) -> (r: &'a [u8])
        ensures
            r@ == self@,
    {
        self.input
    }

    /// How many bytes are left to read.
    pub fn remain(&self) -> (r: usize)
        ensures
            r == self@.len(),
    {
        self.input.len()
    }

    /// True when every byte has been consumed.
    pub fn is_empty(&self) -> (r: bool)
        ensures
            r == (self@.len() == 0),
    {
        self.input.len() == 0
    }

    /// Up to `max_length` bytes from the front, without consuming them.
    pub fn peek(&self, max_length: usize) -> (r: &'a [u8])
        ensures
            r@ == if max_length <= self@.len() {
                self@.take(max_length as int)
            } else {
                self@
            },
    {
        if max_length <= self.input.len() {
            slice_subrange(self.input, 0, max_length)
        } else {
            self.input
        }
    }

    /// Drop `count` bytes from the front.
    pub fn advance(&mut self, count: usize)
        requires
            count <= old(self)@.len(),
        ensures
            final(self)@ == old(self)@.skip(count as int),
    {
        self.input = slice_subrange(self.input, count, self.input.len());
    }

    /// Carve the next `length` bytes out as an independent sub-cursor,
    /// consuming them from this one.
    pub fn new_slice(&mut self, length: usize) -> (r: Result<SliceParser<'a>, ParseError>)
        ensures
            match r {
                Ok(sub) => {
                    &&& length <= old(self)@.len()
                    &&& sub@ == old(self)@.take(length as int)
                    &&& final(self)@ == old(self)@.skip(length as int)
                },
                Err(e) => {
                    &&& old(self)@.len() < length
                    &&& e == ParseError::Incomplete((length - old(self)@.len()) as usize)
                    &&& final(self)@ == old(self)@
                },
            },
    {
        if self.input.len() < length {
            Err(ParseError::Incomplete(length - self.input.len()))
        } else {
            let sub = slice_subrange(self.input, 0, length);
            self.advance(length);
            Ok(SliceParser { input: sub })
        }
    }

    /// Require the next bytes to equal `term` and consume them.
    pub fn next_term(&mut self, term: &[u8]) -> (r: Result<&'a [u8], ParseError>)
        ensures
            match r {
                Ok(m) => {
                    &&& term@.len() <= old(self)@.len()
                    &&& old(self)@.take(term@.len() as int) == term@
                    &&& m@ == term@
                    &&& final(self)@ == old(self)@.skip(term@.len() as int)
                },
                Err(e) => {
                    &&& final(self)@ == old(self)@
                    &&& if old(self)@.len() < term@.len() {
                        e == ParseError::Incomplete((term@.len() - old(self)@.len()) as usize)
                    } else {
                        e == ParseError::BadFrame(BadFrameKind::Term) && old(self)@.take(
                            term@.len() as int,
                        ) != term@
                    }
                },
            },
    {
        if self.input.len() < term.len() {
            return Err(ParseError::Incomplete(term.len() - self.input.len()));
        }
        let mut i: usize = 0;
        while i < term.len()
            invariant
                i <= term@.len() <= self@.len(),
                forall|j: int| 0 <= j < i ==> self@[j] == term@[j],
            decreases term@.len() - i,
        {
            if *slice_index_get(self.input, i) != *slice_index_get(term, i) {
                proof {
                    assert(self@.take(term@.len() as int)[i as int] != term@[i as int]);
                }
                return Err(ParseError::BadFrame(BadFrameKind::Term));
            }
            i = i + 1;
        }
        proof {
            assert(self@.take(term@.len() as int) =~= term@);
        }
        let m = slice_subrange(self.input, 0, term.len());
        self.advance(term.len());
        Ok(m)
    }

    /// The next byte.
    pub fn next_u8(&mut self) -> (r: Result<u8, ParseError>)
        ensures
            match r {
                Ok(v) => {
                    &&& old(self)@.len() >= 1
                    &&& v == old(self)@[0]
                    &&& final(self)@ == old(self)@.skip(1)
                },
                Err(e) => {
                    &&& old(self)@.len() == 0
                    &&& e == ParseError::Incomplete(1)
                    &&& final(self)@ == old(self)@
                },
            },
    {
        if self.input.len() < 1 {
            Err(ParseError::Incomplete(1))
        } else {
            let v = *slice_index_get(self.input, 0);
            self.advance(1);
            Ok(v)
        }
    }

    /// The next byte, as a signed value.
    pub fn next_i8(&mut self) -> (r: Result<i8, ParseError>)
        ensures
            match r {
                Ok(v) => {
                    &&& old(self)@.len() >= 1
                    &&& v == spec_i8_of(old(self)@[0])
                    &&& final(self)@ == old(self)@.skip(1)
                },
                Err(e) => {
                    &&& old(self)@.len() == 0
                    &&& e == ParseError::Incomplete(1)
                    &&& final(self)@ == old(self)@
                },
            },
    {
        let v = self.next_u8()?;
        if v < 0x80 {
            Ok(v as i8)
        } else {
            Ok((v as i16 - 0x100) as i8)
        }
    }

    /// The next two bytes as a little-endian u16.
    pub fn next_u16(&mut self) -> (r: Result<u16, ParseError>)
        ensures
            match r {
                Ok(v) => {
                    &&& old(self)@.len() >= 2
                    &&& v == spec_u16_le(old(self)@)
                    &&& final(self)@ == old(self)@.skip(2)
                },
                Err(e) => {
                    &&& old(self)@.len() < 2
                    &&& e == ParseError::Incomplete((2 - old(self)@.len()) as usize)
                    &&& final(self)@ == old(self)@
                },
            },
    {
        if self.input.len() < 2 {
            return Err(ParseError::Incomplete(2 - self.input.len()));
        }
        let b0 = *slice_index_get(self.input, 0);
        let b1 = *slice_index_get(self.input, 1);
        self.advance(2);
        Ok(b0 as u16 + (b1 as u16) * 0x100)
    }

    /// The next four bytes as a little-endian u32.
    pub fn next_u32(&mut self) -> (r: Result<u32, ParseError>)
        ensures
            match r {
                Ok(v) => {
                    &&& old(self)@.len() >= 4
                    &&& v == spec_u32_le(old(self)@)
                    &&& final(self)@ == old(self)@.skip(4)
                },
                Err(e) => {
                    &&& old(self)@.len() < 4
                    &&& e == ParseError::Incomplete((4 - old(self)@.len()) as usize)
                    &&& final(self)@ == old(self)@
                },
            },
    {
        if self.input.len() < 4 {
            return Err(ParseError::Incomplete(4 - self.input.len()));
        }
        let b0 = *slice_index_get(self.input, 0);
        let b1 = *slice_index_get(self.input, 1);
        let b2 = *slice_index_get(self.input, 2);
        let b3 = *slice_index_get(self.input, 3);
        self.advance(4);
        Ok(b0 as u32 + (b1 as u32) * 0x100 + (b2 as u32) * 0x1_0000 + (b3 as u32) * 0x100_0000)
    }

    /// The next four bytes as a little-endian signed 32-bit value.
    pub fn next_i32(&mut self) -> (r: Result<i32, ParseError>)
        ensures
            match r {
                Ok(v) => {
                    &&& old(self)@.len() >= 4
                    &&& v == spec_i32_of(spec_u32_le(old(self)@))
                    &&& final(self)@ == old(self)@.skip(4)
                },
                Err(e) => {
                    &&& old(self)@.len() < 4
                    &&& e == ParseError::Incomplete((4 - old(self)@.len()) as usize)
                    &&& final(self)@ == old(self)@
                },
            },
    {
        let v = self.next_u32()?;
        if v < 0x8000_0000 {
            Ok(v as i32)
        } else {
            Ok((v as i64 - 0x1_0000_0000) as i32)
        }
    }

    /// The next eight bytes as a little-endian u64.
    pub fn next_u64(&mut self) -> (r: Result<u64, ParseError>)
        ensures
            match r {
                Ok(v) => {
                    &&& old(self)@.len() >= 8
                    &&& v == spec_u64_le(old(self)@)
                    &&& final(self)@ == old(self)@.skip(8)
                },
                Err(e) => {
                    &&& old(self)@.len() < 8
                    &&& e == ParseError::Incomplete((8 - old(self)@.len()) as usize)
                    &&& final(self)@ == old(self)@
                },
            },
    {
        if self.input.len() < 8 {
            return Err(ParseError::Incomplete(8 - self.input.len()));
        }
        let b0 = *slice_index_get(self.input, 0);
        let b1 = *slice_index_get(self.input, 1);
        let b2 = *slice_index_get(self.input, 2);
        let b3 = *slice_index_get(self.input, 3);
        let b4 = *slice_index_get(self.input, 4);
        let b5 = *slice_index_get(self.input, 5);
        let b6 = *slice_index_get(self.input, 6);
        let b7 = *slice_index_get(self.input, 7);
        self.advance(8);
        Ok(
            b0 as u64 + (b1 as u64) * 0x100 + (b2 as u64) * 0x1_0000 + (b3 as u64) * 0x100_0000 + (
            b4 as u64) * 0x1_0000_0000 + (b5 as u64) * 0x100_0000_0000 + (b6 as u64)
                * 0x1_0000_0000_0000 + (b7 as u64) * 0x100_0000_0000_0000,
        )
    }

    /// The next eight bytes as a little-endian signed 64-bit value.
    pub fn next_i64(&mut self) -> (r: Result<i64, ParseError>)
        ensures
            match r {
                Ok(v) => {
                    &&& old(self)@.len() >= 8
                    &&& v == spec_i64_of(spec_u64_le(old(self)@))
                    &&& final(self)@ == old(self)@.skip(8)
                },
                Err(e) => {
                    &&& old(self)@.len() < 8
                    &&& e == ParseError::Incomplete((8 - old(self)@.len()) as usize)
                    &&& final(self)@ == old(self)@
                },
            },
    {
        let v = self.next_u64()?;
        if v < 0x8000_0000_0000_0000 {
            Ok(v as i64)
        } else {
            Ok((v as i128 - 0x1_0000_0000_0000_0000) as i64)
        }
    }

    /// The next four bytes as the raw memory of an IEEE 754 single.
    pub fn next_f32(&mut self) -> (r: Result<Float32, ParseError>)
        ensures
            match r {
                Ok(v) => {
                    &&& old(self)@.len() >= 4
                    &&& v == (Float32 { bits: spec_u32_le(old(self)@) })
                    &&& final(self)@ == old(self)@.skip(4)
                },
                Err(e) => {
                    &&& old(self)@.len() < 4
                    &&& e == ParseError::Incomplete((4 - old(self)@.len()) as usize)
                    &&& final(self)@ == old(self)@
                },
            },
    {
        let bits = self.next_u32()?;
        Ok(Float32 { bits })
    }

    /// The next byte as a boolean: any nonzero value is true.
    pub fn next_bool(&mut self) -> (r: Result<bool, ParseError>)
        ensures
            match r {
                Ok(v) => {
                    &&& old(self)@.len() >= 1
                    &&& v == (old(self)@[0] > 0)
                    &&& final(self)@ == old(self)@.skip(1)
                },
                Err(e) => {
                    &&& old(self)@.len() == 0
                    &&& e == ParseError::Incomplete(1)
                    &&& final(self)@ == old(self)@
                },
            },
    {
        let v = self.next_u8()?;
        Ok(v > 0)
    }

    /// A 32-bit varint from the front of the cursor.
    pub fn next_encoded_u32(&mut self) -> (r: Result<u32, ParseError>)
        ensures
            match r {
                Ok(v) => {
                    &&& spec_varint_u32(old(self)@) matches Some((v2, n)) && v == v2
                        && final(self)@ == old(self)@.skip(n as int)
                    &&& final(self)@.len() < old(self)@.len()
                },
                Err(e) => {
                    &&& spec_varint_u32(old(self)@) is None
                    &&& e == ParseError::Incomplete(1)
                    &&& final(self)@ == old(self)@
                },
            },
    {
        let ghost s0 = self.input@;
        let mut acc: u64 = 0;
        let mut mult: u64 = 1;
        let mut k: usize = 0;
        proof {
            assert(s0.skip(0) =~= s0);
        }
        while k < 5
            invariant
                s0 == old(self)@,
                self@ == s0,
                k <= 5,
                k <= s0.len(),
                mult == pow128(k as nat),
                acc < pow128(k as nat),
                spec_varint_rec(s0, 5) == match spec_varint_rec(s0.skip(k as int), (5 - k) as nat) {
                    Option::None => Option::<(nat, nat)>::None,
                    Option::Some((v, n)) => Option::Some(
                        ((acc + v * pow128(k as nat)) as nat, (n + k) as nat),
                    ),
                },
            decreases 5 - k,
        {
            proof {
                assert(k == 0 || k == 1 || k == 2 || k == 3 || k == 4);
                reveal_with_fuel(pow128, 7);
            }
            if k >= self.input.len() {
                return Err(ParseError::Incomplete(1));
            }
            let b = *slice_index_get(self.input, k);
            proof {
                assert(s0.skip(k as int)[0] == s0[k as int]);
            }
            if b < 128 {
                proof {
                    vstd::arithmetic::mul::lemma_mul_inequality(b as int, 127, mult as int);
                    assert(spec_varint_rec(s0.skip(k as int), (5 - k) as nat) == Some(
                        (b as nat, 1nat),
                    ));
                }
                let total: u64 = acc + (b as u64) * mult;
                let v: u32 = (total % 0x1_0000_0000) as u32;
                self.advance(k + 1);
                return Ok(v);
            }
            proof {
                assert(s0.skip(k as int).skip(1) =~= s0.skip(k as int + 1));
            }
            let g = b - 128;
            proof {
                vstd::arithmetic::mul::lemma_mul_inequality(g as int, 127, mult as int);
            }
            acc = acc + (g as u64) * mult;
            mult = mult * 128;
            k = k + 1;
            proof {
                let p = pow128((k - 1) as nat) as int;
                assert(mult == 128 * p) by (nonlinear_arith)
                    requires
                        mult == p * 128,
                ;
                assert(pow128(k as nat) == 128 * p);
                assert forall|v: nat, n: nat|
                    spec_varint_rec(s0.skip(k as int), (5 - k) as nat) == Some(
                        (v, n),
                    ) implies ((g + v * 128) * p) as int == g * p + v * (128 * p) by {
                    vstd::arithmetic::mul::lemma_mul_is_distributive_add_other_way(
                        p,
                        g as int,
                        (v * 128) as int,
                    );
                    vstd::arithmetic::mul::lemma_mul_is_associative(v as int, 128, p);
                }
            }
        }
        proof {
            assert(spec_varint_rec(s0.skip(5), 0) == Some((0nat, 0nat)));
            assert(0 * pow128(5nat) == 0);
            assert(spec_varint_rec(s0, 5) == Some((acc as nat, 5nat)));
        }
        let v: u32 = (acc % 0x1_0000_0000) as u32;
        self.advance(5);
        Ok(v)
    }

    /// A 64-bit varint from the front of the cursor.
    #[verifier::rlimit(50)]
    pub fn next_encoded_u64(&mut self) -> (r: Result<u64, ParseError>)
        ensures
            match r {
                Ok(v) => {
                    &&& spec_varint_u64(old(self)@) matches Some((v2, n)) && v == v2
                        && final(self)@ == old(self)@.skip(n as int)
                    &&& final(self)@.len() < old(self)@.len()
                },
                Err(e) => {
                    &&& spec_varint_u64(old(self)@) is None
                    &&& e == ParseError::Incomplete(1)
                    &&& final(self)@ == old(self)@
                },
            },
    {
        let ghost s0 = self.input@;
        let mut acc: u128 = 0;
        let mut mult: u128 = 1;
        let mut k: usize = 0;
        proof {
            assert(s0.skip(0) =~= s0);
        }
        while k < 10
            invariant
                s0 == old(self)@,
                self@ == s0,
                k <= 10,
                k <= s0.len(),
                mult == pow128(k as nat),
                acc < pow128(k as nat),
                spec_varint_rec(s0, 10) == match spec_varint_rec(
                    s0.skip(k as int),
                    (10 - k) as nat,
                ) {
                    Option::None => Option::<(nat, nat)>::None,
                    Option::Some((v, n)) => Option::Some(
                        ((acc + v * pow128(k as nat)) as nat, (n + k) as nat),
                    ),
                },
            decreases 10 - k,
        {
            proof {
                assert(k == 0 || k == 1 || k == 2 || k == 3 || k == 4 || k == 5 || k == 6 || k == 7
                    || k == 8 || k == 9);
                reveal_with_fuel(pow128, 12);
            }
            if k >= self.input.len() {
                return Err(ParseError::Incomplete(1));
            }
            let b = *slice_index_get(self.input, k);
            proof {
                assert(s0.skip(k as int)[0] == s0[k as int]);
            }
            if b < 128 {
                proof {
                    vstd::arithmetic::mul::lemma_mul_inequality(b as int, 127, mult as int);
                    assert(spec_varint_rec(s0.skip(k as int), (10 - k) as nat) == Some(
                        (b as nat, 1nat),
                    ));
                }
                let total: u128 = acc + (b as u128) * mult;
                let v: u64 = (total % 0x1_0000_0000_0000_0000) as u64;
                self.advance(k + 1);
                return Ok(v);
            }
            proof {
                assert(s0.skip(k as int).skip(1) =~= s0.skip(k as int + 1));
            }
            let g = b - 128;
            proof {
                vstd::arithmetic::mul::lemma_mul_inequality(g as int, 127, mult as int);
            }
            acc = acc + (g as u128) * mult;
            mult = mult * 128;
            k = k + 1;
            proof {
                let p = pow128((k - 1) as nat) as int;
                assert(mult == 128 * p) by (nonlinear_arith)
                    requires
                        mult == p * 128,
                ;
                assert(pow128(k as nat) == 128 * p);
                assert forall|v: nat, n: nat|
                    spec_varint_rec(s0.skip(k as int), (10 - k) as nat) == Some(
                        (v, n),
                    ) implies ((g + v * 128) * p) as int == g * p + v * (128 * p) by {
                    vstd::arithmetic::mul::lemma_mul_is_distributive_add_other_way(
                        p,
                        g as int,
                        (v * 128) as int,
                    );
                    vstd::arithmetic::mul::lemma_mul_is_associative(v as int, 128, p);
                }
            }
        }
        proof {
            assert(spec_varint_rec(s0.skip(10), 0) == Some((0nat, 0nat)));
            assert(0 * pow128(10nat) == 0);
            assert(spec_varint_rec(s0, 10) == Some((acc as nat, 10nat)));
        }
        let v: u64 = (acc % 0x1_0000_0000_0000_0000) as u64;
        self.advance(10);
        Ok(v)
    }

    /// A signed 32-bit varint: the unsigned form put through the format's
    /// sign mapping.
    pub fn next_encoded_i32(&mut self) -> (r: Result<i32, ParseError>)
        ensures
            match r {
                Ok(v) => {
                    &&& spec_varint_u32(old(self)@) matches Some((v2, n)) && v
                        == spec_sign_decode32(v2) && final(self)@ == old(self)@.skip(n as int)
                    &&& final(self)@.len() < old(self)@.len()
                },
                Err(e) => {
                    &&& spec_varint_u32(old(self)@) is None
                    &&& e == ParseError::Incomplete(1)
                    &&& final(self)@ == old(self)@
                },
            },
    {
        let u = self.next_encoded_u32()?;
        let num = (u / 2) as i32;
        if u % 2 == 1 {
            Ok(-num)
        } else {
            Ok(num)
        }
    }

    /// A signed 64-bit varint.
    pub fn next_encoded_i64(&mut self) -> (r: Result<i64, ParseError>)
        ensures
            match r {
                Ok(v) => {
                    &&& spec_varint_u64(old(self)@) matches Some((v2, n)) && v
                        == spec_sign_decode64(v2) && final(self)@ == old(self)@.skip(n as int)
                    &&& final(self)@.len() < old(self)@.len()
                },
                Err(e) => {
                    &&& spec_varint_u64(old(self)@) is None
                    &&& e == ParseError::Incomplete(1)
                    &&& final(self)@ == old(self)@
                },
            },
    {
        let u = self.next_encoded_u64()?;
        let num = (u / 2) as i64;
        if u % 2 == 1 {
            Ok(-num)
        } else {
            Ok(num)
        }
    }

    /// A varint-coded identifier.
    pub fn next_id(&mut self) -> (r: Result<u32, ParseError>)
        ensures
            match r {
                Ok(v) => {
                    &&& spec_varint_u32(old(self)@) matches Some((v2, n)) && v == v2
                        && final(self)@ == old(self)@.skip(n as int)
                    &&& final(self)@.len() < old(self)@.len()
                },
                Err(e) => {
                    &&& spec_varint_u32(old(self)@) is None
                    &&& e == ParseError::Incomplete(1)
                    &&& final(self)@ == old(self)@
                },
            },
    {
        self.next_encoded_u32()
    }

    /// A varint-coded time stamp.
    pub fn next_time(&mut self) -> (r: Result<u64, ParseError>)
        ensures
            match r {
                Ok(v) => {
                    &&& spec_varint_u64(old(self)@) matches Some((v2, n)) && v == v2
                        && final(self)@ == old(self)@.skip(n as int)
                    &&& final(self)@.len() < old(self)@.len()
                },
                Err(e) => {
                    &&& spec_varint_u64(old(self)@) is None
                    &&& e == ParseError::Incomplete(1)
                    &&& final(self)@ == old(self)@
                },
            },
    {
        self.next_encoded_u64()
    }

    /// Bytes up to the first NUL, decoded as UTF-8 with lossy
    /// replacement; the NUL itself is consumed as well.
    pub fn next_string(&mut self) -> (r: Result<String, ParseError>)
        ensures
            match r {
                Ok(v) => spec_find_nul(old(self)@) matches Some(k) && v@ == utf8_lossy(
                    old(self)@.take(k as int),
                ) && final(self)@ == old(self)@.skip(k as int + 1),
                Err(e) => {
                    &&& spec_find_nul(old(self)@) is None
                    &&& e == ParseError::BadFrame(BadFrameKind::MissingNul)
                    &&& final(self)@ == old(self)@
                },
            },
    {
        let mut i: usize = 0;
        loop
            invariant
                self@ == old(self)@,
                i <= self@.len(),
                forall|j: int| 0 <= j < i ==> self@[j] != 0,
            decreases self@.len() - i,
        {
            if i >= self.input.len() {
                proof {
                    crate::wire::lemma_find_nul_none(self@);
                }
                return Err(ParseError::BadFrame(BadFrameKind::MissingNul));
            }
            if *slice_index_get(self.input, i) == 0 {
                proof {
                    crate::wire::lemma_find_nul_at(self@, i as nat);
                }
                let raw = slice_subrange(self.input, 0, i);
                let s = utf8_lossy_string(raw);
                proof {
                    assert(raw@ =~= self@.take(i as int));
                }
                self.advance(i + 1);
                return Ok(s);
            }
            i = i + 1;
        }
    }

    /// Exactly `count` raw bytes.
    pub fn next_bytes(&mut self, count: usize) -> (r: Result<&'a [u8], ParseError>)
        ensures
            match r {
                Ok(b) => {
                    &&& count <= old(self)@.len()
                    &&& b@ == old(self)@.take(count as int)
                    &&& final(self)@ == old(self)@.skip(count as int)
                },
                Err(e) => {
                    &&& old(self)@.len() < count
                    &&& e == ParseError::Incomplete((count - old(self)@.len()) as usize)
                    &&& final(self)@ == old(self)@
                },
            },
    {
        if self.input.len() < count {
            Err(ParseError::Incomplete(count - self.input.len()))
        } else {
            let b = slice_subrange(self.input, 0, count);
            self.advance(count);
            Ok(b)
        }
    }
}

} // verus!
