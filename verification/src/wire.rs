//! Specification of the wire format's primitive encodings, and the lemmas
//! that tie them together.
//!
//! Everything multi-byte is little-endian.  Variable-length integers
//! (varints) are base-128 with a continuation flag in the high bit of each
//! byte: a byte below 128 is the last one.  Signed varints are carried as
//! unsigned with the sign in the lowest bit (see [`spec_sign_decode32`]);
//! note that this is the format's own mapping, not standard zigzag.

use vstd::arithmetic::div_mod::{lemma_fundamental_div_mod, lemma_small_mod};
use vstd::prelude::*;

verus! {

/// The little-endian u16 held in the first two bytes of `s`.
pub open spec fn spec_u16_le(s: Seq<u8>) -> u16
    recommends
        s.len() >= 2,
{
    (s[0] + s[1] * 0x100) as u16
}

/// The little-endian u32 held in the first four bytes of `s`.
pub open spec fn spec_u32_le(s: Seq<u8>) -> u32
    recommends
        s.len() >= 4,
{
    (s[0] + s[1] * 0x100 + s[2] * 0x1_0000 + s[3] * 0x100_0000) as u32
}

/// The little-endian u64 held in the first eight bytes of `s`.
pub open spec fn spec_u64_le(s: Seq<u8>) -> u64
    recommends
        s.len() >= 8,
{
    (s[0] + s[1] * 0x100 + s[2] * 0x1_0000 + s[3] * 0x100_0000 + s[4] * 0x1_0000_0000 + s[5]
        * 0x100_0000_0000 + s[6] * 0x1_0000_0000_0000 + s[7] * 0x100_0000_0000_0000) as u64
}

/// Reinterpret an unsigned byte as two's-complement signed.
pub open spec fn spec_i8_of(u: u8) -> i8 {
    if u < 0x80 {
        u as i8
    } else {
        (u - 0x100) as i8
    }
}

/// Reinterpret an unsigned 32-bit value as two's-complement signed.
pub open spec fn spec_i32_of(u: u32) -> i32 {
    if u < 0x8000_0000 {
        u as i32
    } else {
        (u - 0x1_0000_0000) as i32
    }
}

/// Reinterpret an unsigned 64-bit value as two's-complement signed.
pub open spec fn spec_i64_of(u: u64) -> i64 {
    if u < 0x8000_0000_0000_0000 {
        u as i64
    } else {
        (u - 0x1_0000_0000_0000_0000) as i64
    }
}

/// The unbounded value and byte count of a varint read from the front of
/// `s`, allowed to span at most `groups` bytes.  The continuation flag of
/// the final allowed byte is ignored, exactly as the decoder ignores it.
/// `None` means the buffer ended in the middle of the varint.
pub open spec fn spec_varint_rec(s: Seq<u8>, groups: nat) -> Option<(nat, nat)>
    decreases groups,
{
    if groups == 0 {
        Some((0, 0))
    } else if s.len() == 0 {
        None
    } else {
        let b = s[0];
        if b < 128 {
            Some((b as nat, 1))
        } else {
            match spec_varint_rec(s.skip(1), (groups - 1) as nat) {
                None => None,
                Some((v, n)) => Some((((b - 128) + v * 128) as nat, n + 1)),
            }
        }
    }
}

/// A 32-bit varint: at most five bytes; the value is truncated to 32 bits.
pub open spec fn spec_varint_u32(s: Seq<u8>) -> Option<(u32, nat)> {
    match spec_varint_rec(s, 5) {
        None => None,
        Some((v, n)) => Some(((v % 0x1_0000_0000) as u32, n)),
    }
}

/// A 64-bit varint: at most ten bytes; the value is truncated to 64 bits.
pub open spec fn spec_varint_u64(s: Seq<u8>) -> Option<(u64, nat)> {
    match spec_varint_rec(s, 10) {
        None => None,
        Some((v, n)) => Some(((v % 0x1_0000_0000_0000_0000) as u64, n)),
    }
}

/// The canonical varint encoding of `n`: base-128 digits, least
/// significant first, continuation flag on every byte but the last.
pub open spec fn spec_varint_encode(n: nat) -> Seq<u8>
    decreases n,
{
    if n < 128 {
        seq![n as u8]
    } else {
        seq![(n % 128 + 128) as u8] + spec_varint_encode(n / 128)
    }
}

/// `128^g`, the number of values a varint of `g` bytes can carry.
pub open spec fn pow128(g: nat) -> nat
    decreases g,
{
    if g == 0 {
        1
    } else {
        128 * pow128((g - 1) as nat)
    }
}

/// The sign mapping this format uses for 32-bit signed varints: the
/// magnitude in the high bits, the sign in the lowest bit.
pub open spec fn spec_sign_decode32(u: u32) -> i32 {
    if u % 2 == 1 {
        (-((u / 2) as int)) as i32
    } else {
        (u / 2) as i32
    }
}

/// The inverse of [`spec_sign_decode32`] on the representable range.
pub open spec fn spec_sign_encode32(n: i32) -> u32
    recommends
        -0x7fff_ffff <= n,
{
    if n < 0 {
        (2 * (-(n as int)) + 1) as u32
    } else {
        (2 * (n as int)) as u32
    }
}

/// The sign mapping for 64-bit signed varints.
pub open spec fn spec_sign_decode64(u: u64) -> i64 {
    if u % 2 == 1 {
        (-((u / 2) as int)) as i64
    } else {
        (u / 2) as i64
    }
}

/// The inverse of [`spec_sign_decode64`] on the representable range.
pub open spec fn spec_sign_encode64(n: i64) -> u64
    recommends
        -0x7fff_ffff_ffff_ffff <= n,
{
    if n < 0 {
        (2 * (-(n as int)) + 1) as u64
    } else {
        (2 * (n as int)) as u64
    }
}

/// Index of the first NUL byte of `s`, if any.
pub open spec fn spec_find_nul(s: Seq<u8>) -> Option<nat>
    decreases s.len(),
{
    if s.len() == 0 {
        None
    } else if s[0] == 0 {
        Some(0)
    } else {
        match spec_find_nul(s.skip(1)) {
            None => None,
            Some(k) => Some(k + 1),
        }
    }
}

/// `2^j` for a bit position within a byte.
pub open spec fn spec_pow2_u8(j: nat) -> u8
    recommends
        j < 8,
{
    if j == 0 {
        1
    } else if j == 1 {
        2
    } else if j == 2 {
        4
    } else if j == 3 {
        8
    } else if j == 4 {
        16
    } else if j == 5 {
        32
    } else if j == 6 {
        64
    } else {
        128
    }
}

/// Bit `i` of the buffer, LSB-first within each byte; bits past the end
/// read as false.
pub open spec fn spec_bit(s: Seq<u8>, i: nat) -> bool {
    if i / 8 < s.len() {
        (s[(i / 8) as int] / spec_pow2_u8(i % 8)) % 2 == 1
    } else {
        false
    }
}

/// The raw memory of an IEEE 754 single-precision value as it stands on
/// the wire.  The crate never does floating-point arithmetic; callers who
/// need the numeric value reinterpret the bits.  Equality is bit
/// equality.
#[derive(Debug, Clone, Copy, PartialEq, Eq, Structural)]
pub struct Float32 {
    pub bits: u32,
}

impl Float32 {
    /// The bit pattern of positive zero.
    pub fn zero() -> (r: Self)
        ensures
            r.bits == 0,
    {
        Float32 { bits: 0 }
    }

    /// The bit pattern of 1.0.
    pub fn one() -> (r: Self)
        ensures
            r.bits == 0x3f80_0000,
    {
        Float32 { bits: 0x3f80_0000 }
    }
}

/// One byte read from the front of a cursor: the value (or `None` when
/// the cursor is too short) and the cursor afterwards.  A failed read
/// leaves the cursor where it was; the other step functions below follow
/// the same shape.
pub open spec fn spec_step_u8(c: Seq<u8>) -> (Option<u8>, Seq<u8>) {
    if c.len() >= 1 {
        (Some(c[0]), c.skip(1))
    } else {
        (None, c)
    }
}

/// A boolean read: one byte, true iff nonzero.
pub open spec fn spec_step_bool(c: Seq<u8>) -> (Option<bool>, Seq<u8>) {
    if c.len() >= 1 {
        (Some(c[0] > 0), c.skip(1))
    } else {
        (None, c)
    }
}

/// A little-endian u16 read.
pub open spec fn spec_step_u16(c: Seq<u8>) -> (Option<u16>, Seq<u8>) {
    if c.len() >= 2 {
        (Some(spec_u16_le(c)), c.skip(2))
    } else {
        (None, c)
    }
}

/// A little-endian u32 read.
pub open spec fn spec_step_u32(c: Seq<u8>) -> (Option<u32>, Seq<u8>) {
    if c.len() >= 4 {
        (Some(spec_u32_le(c)), c.skip(4))
    } else {
        (None, c)
    }
}

/// A four-byte read of raw IEEE 754 single-precision memory.
pub open spec fn spec_step_f32(c: Seq<u8>) -> (Option<Float32>, Seq<u8>) {
    if c.len() >= 4 {
        (Some(Float32 { bits: spec_u32_le(c) }), c.skip(4))
    } else {
        (None, c)
    }
}

/// A 32-bit varint read.
pub open spec fn spec_step_varint_u32(c: Seq<u8>) -> (Option<u32>, Seq<u8>) {
    match spec_varint_u32(c) {
        Some((v, n)) => (Some(v), c.skip(n as int)),
        None => (None, c),
    }
}

/// A 64-bit varint read.
pub open spec fn spec_step_varint_u64(c: Seq<u8>) -> (Option<u64>, Seq<u8>) {
    match spec_varint_u64(c) {
        Some((v, n)) => (Some(v), c.skip(n as int)),
        None => (None, c),
    }
}

/// A signed 32-bit varint read.
pub open spec fn spec_step_varint_i32(c: Seq<u8>) -> (Option<i32>, Seq<u8>) {
    match spec_varint_u32(c) {
        Some((v, n)) => (Some(spec_sign_decode32(v)), c.skip(n as int)),
        None => (None, c),
    }
}

/// A signed 64-bit varint read.
pub open spec fn spec_step_varint_i64(c: Seq<u8>) -> (Option<i64>, Seq<u8>) {
    match spec_varint_u64(c) {
        Some((v, n)) => (Some(spec_sign_decode64(v)), c.skip(n as int)),
        None => (None, c),
    }
}

/// A NUL-terminated string read; the value is the decoded character
/// sequence.
pub open spec fn spec_step_string(c: Seq<u8>) -> (Option<Seq<char>>, Seq<u8>) {
    match spec_find_nul(c) {
        Some(k) => (Some(utf8_lossy(c.take(k as int))), c.skip(k as int + 1)),
        None => (None, c),
    }
}

/// A conditional read: nothing when `flag` is clear, one `step`
/// otherwise.  The outer `None` is a hard failure of the step.
pub open spec fn spec_opt_step<V>(
    flag: bool,
    c: Seq<u8>,
    step: spec_fn(Seq<u8>) -> (Option<V>, Seq<u8>),
) -> (Option<Option<V>>, Seq<u8>) {
    if flag {
        let (o, c2) = step(c);
        match o {
            None => (None, c2),
            Some(v) => (Some(Some(v)), c2),
        }
    } else {
        (Some(None), c)
    }
}

/// `n` consecutive reads of `step`, collected in order; a failure of
/// any one fails the whole run.
pub open spec fn spec_step_many<V>(
    c: Seq<u8>,
    n: nat,
    step: spec_fn(Seq<u8>) -> (Option<V>, Seq<u8>),
) -> (Option<Seq<V>>, Seq<u8>)
    decreases n,
{
    if n == 0 {
        (Some(Seq::empty()), c)
    } else {
        let (o, c1) = step(c);
        match o {
            None => (None, c1),
            Some(v) => {
                let (rest, c2) = spec_step_many(c1, (n - 1) as nat, step);
                match rest {
                    None => (None, c2),
                    Some(vs) => (Some(seq![v] + vs), c2),
                }
            },
        }
    }
}

/// A varint read never consumes more bytes than the buffer holds.
pub proof fn lemma_varint_rec_consumed(s: Seq<u8>, groups: nat)
    ensures
        spec_varint_rec(s, groups) matches Some((v, n)) ==> n <= s.len(),
    decreases groups,
{
    if groups > 0 && s.len() > 0 && s[0] >= 128 {
        lemma_varint_rec_consumed(s.skip(1), (groups - 1) as nat);
    }
}

/// Dropping `a` bytes and then `b` more drops `a + b` bytes.
pub proof fn lemma_skip_skip(s: Seq<u8>, a: int, b: int)
    requires
        0 <= a,
        0 <= b,
        a + b <= s.len(),
    ensures
        s.skip(a).skip(b) == s.skip(a + b),
{
    assert(s.skip(a).skip(b) =~= s.skip(a + b));
}

/// If `s[i]` is the first NUL of `s`, the scan finds exactly `i`.
pub proof fn lemma_find_nul_at(s: Seq<u8>, i: nat)
    requires
        i < s.len(),
        s[i as int] == 0,
        forall|j: int| 0 <= j < i ==> s[j] != 0,
    ensures
        spec_find_nul(s) == Some(i),
    decreases i,
{
    if i > 0 {
        assert(s.skip(1)[i - 1] == s[i as int]);
        assert(forall|j: int| 0 <= j < i - 1 ==> s.skip(1)[j] == s[j + 1] && s[j + 1] != 0);
        lemma_find_nul_at(s.skip(1), (i - 1) as nat);
    }
}

/// A buffer without a NUL makes the scan fail.
pub proof fn lemma_find_nul_none(s: Seq<u8>)
    requires
        forall|j: int| 0 <= j < s.len() ==> s[j] != 0,
    ensures
        spec_find_nul(s) is None,
    decreases s.len(),
{
    if s.len() > 0 {
        assert(forall|j: int| 0 <= j < s.skip(1).len() ==> s.skip(1)[j] == s[j + 1] && s[j + 1]
            != 0);
        lemma_find_nul_none(s.skip(1));
    }
}

/// What `String::from_utf8_lossy` of std returns for the given bytes.
pub uninterp spec fn utf8_lossy(s: Seq<u8>) -> Seq<char>;

/// Relies on `String::from_utf8_lossy` of std: the result depends on the
/// bytes alone, and bytes that are all ASCII decode to themselves
/// (ASCII is valid UTF-8, which `from_utf8_lossy` passes through
/// unchanged; invalid sequences become U+FFFD).
#[verifier::external_body]
pub fn utf8_lossy_string(b: &[u8]) -> (r: String)
    ensures
        r@ == utf8_lossy(b@),
        (forall|i: int| 0 <= i < b@.len() ==> b@[i] < 0x80) ==> r@ == b@.map_values(
            |c: u8| c as char,
        ),
{
    String::from_utf8_lossy(b).into_owned()
}

/// Decoding a canonical varint yields the encoded value back and consumes
/// exactly its bytes, whatever follows it, as long as the value fits in
/// the allowed number of groups.
pub proof fn lemma_varint_decode_encode(n: nat, groups: nat, rest: Seq<u8>)
    requires
        1 <= groups,
        n < pow128(groups),
    ensures
        spec_varint_encode(n).len() <= groups,
        spec_varint_rec(spec_varint_encode(n) + rest, groups) == Some(
            (n, spec_varint_encode(n).len()),
        ),
    decreases groups,
{
    let e = spec_varint_encode(n);
    if n < 128 {
        assert(e == seq![n as u8]);
        assert((e + rest)[0] == n as u8);
        assert(spec_varint_rec(e + rest, groups) == Some((n, 1nat)));
    } else {
        let b = (n % 128 + 128) as u8;
        let tail = spec_varint_encode(n / 128);
        assert(e == seq![b] + tail);
        assert(groups >= 2) by {
            if groups == 1 {
                assert(pow128(1nat) == 128);
            }
        }
        assert(n / 128 < pow128((groups - 1) as nat)) by {
            lemma_fundamental_div_mod(n as int, 128);
            assert(pow128(groups) == 128 * pow128((groups - 1) as nat));
        }
        lemma_varint_decode_encode(n / 128, (groups - 1) as nat, rest);
        let s = e + rest;
        assert(s[0] == b);
        assert(s.skip(1) =~= tail + rest);
        assert(b >= 128);
        assert((b - 128) as nat == n % 128);
        let sub = spec_varint_rec(tail + rest, (groups - 1) as nat);
        assert(sub == Some((n / 128, tail.len())));
        assert((b - 128) + (n / 128) * 128 == n) by {
            lemma_fundamental_div_mod(n as int, 128);
        }
        assert(spec_varint_rec(s, groups) == Some((n, tail.len() + 1)));
        assert(e.len() == tail.len() + 1);
    }
}

/// Varint round trip, 32-bit form: every `n` below `2^32`, encoded
/// canonically, decodes back to `n` with exactly its own bytes consumed.
pub proof fn lemma_varint_u32_round_trip(n: u32, rest: Seq<u8>)
    ensures
        spec_varint_u32(spec_varint_encode(n as nat) + rest) == Some(
            (n, spec_varint_encode(n as nat).len()),
        ),
{
    assert(pow128(5nat) == 0x8_0000_0000) by {
        reveal_with_fuel(pow128, 6);
    }
    lemma_varint_decode_encode(n as nat, 5, rest);
    lemma_small_mod(n as nat, 0x1_0000_0000);
}

/// Varint round trip, 64-bit form.
pub proof fn lemma_varint_u64_round_trip(n: u64, rest: Seq<u8>)
    ensures
        spec_varint_u64(spec_varint_encode(n as nat) + rest) == Some(
            (n, spec_varint_encode(n as nat).len()),
        ),
{
    assert(pow128(10nat) == 0x40_0000_0000_0000_0000) by {
        reveal_with_fuel(pow128, 11);
    }
    lemma_varint_decode_encode(n as nat, 10, rest);
    lemma_small_mod(n as nat, 0x1_0000_0000_0000_0000);
}

/// The 32-bit sign mapping is undone by its inverse over the whole range
/// it can represent.
pub proof fn lemma_sign_round_trip32(n: i32)
    requires
        -0x7fff_ffff <= n <= 0x7fff_ffff,
    ensures
        spec_sign_decode32(spec_sign_encode32(n)) == n,
{
}

/// The 64-bit sign mapping is undone by its inverse over the whole range
/// it can represent.
pub proof fn lemma_sign_round_trip64(n: i64)
    requires
        -0x7fff_ffff_ffff_ffff <= n <= 0x7fff_ffff_ffff_ffff,
    ensures
        spec_sign_decode64(spec_sign_encode64(n)) == n,
{
}

} // verus!
