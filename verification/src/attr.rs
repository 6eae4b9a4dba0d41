//! The attribute block: a two-phase decoder for the sparse property sets
//! many tag bodies carry.
//!
//! A body first declares each property's attribute type in a fixed
//! order; the block consumes 0-3 flag bits per declaration from the
//! front of the window.  On the first value read the block rounds the
//! bit position up to a whole byte and switches to a byte cursor over
//! the payload region; values are then read in the same declaration
//! order, with a declared default standing in wherever a flag says the
//! value is absent.
//!
//! An animatable property announces a key-frame sequence; that wire
//! layout is not part of this format version, so reading one fails with
//! [`BadFrameKind::KeyFrames`] rather than silently defaulting.

use vstd::prelude::*;

use crate::base::{spec_step_ratio, Point, Ratio, spec_step_point};
use crate::bits::Bits;
use crate::error::{BadFrameKind, ParseError};
use crate::parser::SliceParser;
use crate::wire::{
    spec_bit, spec_step_bool, spec_step_string, spec_step_u8, spec_step_varint_u32,
    spec_step_varint_u64, spec_step_f32, Float32,
};

verus! {

/// How a declared property is stored, which fixes how many flag bits it
/// consumes and how its payload is read.
#[derive(Debug, Clone, Copy, PartialEq, Eq, Structural)]
pub enum AttributeType {
    NotExisted,
    Value,
    FixedValue,
    SimpleProperty,
    DiscreteProperty,
    MultiDimensionProperty,
    SpatialProperty,
    BitFlag,
    Custom,
}

/// An attribute type paired with the default used when the flag says
/// the value is absent.
#[derive(Debug, Clone, Copy)]
pub enum AttributeConfig<T> {
    Value(T),
    FixedValue(T),
    SimpleProperty(T),
    DiscreteProperty(T),
    MultiDimensionProperty(T),
    SpatialProperty(T),
    BitFlag(T),
    Custom(T),
}

impl<T> AttributeConfig<T> {
    /// The attribute type this configuration declares.
    pub open spec fn spec_attribute_type(&self) -> AttributeType {
        match self {
            AttributeConfig::Value(_) => AttributeType::Value,
            AttributeConfig::FixedValue(_) => AttributeType::FixedValue,
            AttributeConfig::SimpleProperty(_) => AttributeType::SimpleProperty,
            AttributeConfig::DiscreteProperty(_) => AttributeType::DiscreteProperty,
            AttributeConfig::MultiDimensionProperty(_) => AttributeType::MultiDimensionProperty,
            AttributeConfig::SpatialProperty(_) => AttributeType::SpatialProperty,
            AttributeConfig::BitFlag(_) => AttributeType::BitFlag,
            AttributeConfig::Custom(_) => AttributeType::Custom,
        }
    }

    /// The default value this configuration carries.
    pub open spec fn spec_default(&self) -> T {
        match self {
            AttributeConfig::Value(t) => *t,
            AttributeConfig::FixedValue(t) => *t,
            AttributeConfig::SimpleProperty(t) => *t,
            AttributeConfig::DiscreteProperty(t) => *t,
            AttributeConfig::MultiDimensionProperty(t) => *t,
            AttributeConfig::SpatialProperty(t) => *t,
            AttributeConfig::BitFlag(t) => *t,
            AttributeConfig::Custom(t) => *t,
        }
    }

    /// Exec form of [`AttributeConfig::spec_attribute_type`].
    pub fn attribute_type(&self) -> (r: AttributeType)
        ensures
            r == self.spec_attribute_type(),
    {
        match self {
            AttributeConfig::Value(_) => AttributeType::Value,
            AttributeConfig::FixedValue(_) => AttributeType::FixedValue,
            AttributeConfig::SimpleProperty(_) => AttributeType::SimpleProperty,
            AttributeConfig::DiscreteProperty(_) => AttributeType::DiscreteProperty,
            AttributeConfig::MultiDimensionProperty(_) => AttributeType::MultiDimensionProperty,
            AttributeConfig::SpatialProperty(_) => AttributeType::SpatialProperty,
            AttributeConfig::BitFlag(_) => AttributeType::BitFlag,
            AttributeConfig::Custom(_) => AttributeType::Custom,
        }
    }

    /// Exec form of [`AttributeConfig::spec_default`].
    pub fn into_default(self) -> (r: T)
        ensures
            r == self.spec_default(),
    {
        match self {
            AttributeConfig::Value(t) => t,
            AttributeConfig::FixedValue(t) => t,
            AttributeConfig::SimpleProperty(t) => t,
            AttributeConfig::DiscreteProperty(t) => t,
            AttributeConfig::MultiDimensionProperty(t) => t,
            AttributeConfig::SpatialProperty(t) => t,
            AttributeConfig::BitFlag(t) => t,
            AttributeConfig::Custom(t) => t,
        }
    }
}

/// The triple a property's flag bits decode to.
#[derive(Debug, Clone, Copy, PartialEq, Eq, Structural)]
pub struct AttributeFlag {
    pub exist: bool,
    pub animatable: bool,
    pub has_spatial: bool,
}

impl AttributeFlag {
    /// The flag of a value that is present and not animated.
    pub fn existed() -> (r: AttributeFlag)
        ensures
            r == (AttributeFlag { exist: true, animatable: false, has_spatial: false }),
    {
        AttributeFlag { exist: true, animatable: false, has_spatial: false }
    }

    /// The flag of an absent value.
    pub fn not_existed() -> (r: AttributeFlag)
        ensures
            r == (AttributeFlag { exist: false, animatable: false, has_spatial: false }),
    {
        AttributeFlag { exist: false, animatable: false, has_spatial: false }
    }
}

impl Default for AttributeFlag {
    /// The all-false triple.
    fn default() -> (r: AttributeFlag)
        ensures
            r == (AttributeFlag { exist: false, animatable: false, has_spatial: false }),
    {
        AttributeFlag { exist: false, animatable: false, has_spatial: false }
    }
}

/// How many flag bits a declaration of type `ty` consumes when the flag
/// region of buffer `s` is positioned at bit `i`.
pub open spec fn spec_flag_bit_count(ty: AttributeType, s: Seq<u8>, i: nat) -> nat {
    match ty {
        AttributeType::NotExisted => 0,
        AttributeType::FixedValue => 0,
        AttributeType::Value => 1,
        AttributeType::BitFlag => 1,
        AttributeType::Custom => 1,
        AttributeType::SpatialProperty => if spec_bit(s, i) {
            2
        } else {
            1
        },
        _ => if !spec_bit(s, i) {
            1
        } else if !spec_bit(s, i + 1) {
            2
        } else {
            3
        },
    }
}

/// The flag triple a declaration of type `ty` decodes to at bit `i`.
pub open spec fn spec_flag_value(ty: AttributeType, s: Seq<u8>, i: nat) -> AttributeFlag {
    match ty {
        AttributeType::NotExisted => AttributeFlag {
            exist: false,
            animatable: false,
            has_spatial: false,
        },
        AttributeType::FixedValue => AttributeFlag {
            exist: true,
            animatable: false,
            has_spatial: false,
        },
        AttributeType::Value | AttributeType::BitFlag | AttributeType::Custom => AttributeFlag {
            exist: spec_bit(s, i),
            animatable: false,
            has_spatial: false,
        },
        AttributeType::SpatialProperty => AttributeFlag {
            exist: spec_bit(s, i),
            animatable: spec_bit(s, i) && spec_bit(s, i + 1),
            has_spatial: false,
        },
        _ => AttributeFlag {
            exist: spec_bit(s, i),
            animatable: spec_bit(s, i) && spec_bit(s, i + 1),
            has_spatial: spec_bit(s, i) && spec_bit(s, i + 1) && spec_bit(s, i + 2),
        },
    }
}

/// Which phase an attribute block is in: consuming flag bits, or
/// reading payload values through a byte cursor.
#[derive(Debug)]
pub enum AttributeBlockState<'a> {
    Flag(Bits<'a>),
    Content(SliceParser<'a>),
}

/// The two-phase flag-then-payload decoder.
#[derive(Debug)]
pub struct AttributeBlock<'a> {
    pub state: AttributeBlockState<'a>,
}

/// The payload cursor the block switches to on its first value read:
/// the window with the flag region, rounded up to a whole byte, cut
/// off.  `None` when the rounded offset lies beyond the window; every
/// read then yields its default.
pub open spec fn spec_content_of(b: Bits<'_>) -> Option<Seq<u8>> {
    let off = (b.index + 7) / 8;
    if off <= b.buffer@.len() {
        Some(b.buffer@.skip(off as int))
    } else {
        None
    }
}

/// What one value read returns and leaves of the payload cursor `c`:
/// the declared default `d` where the flag (or the type) says the value
/// is absent, the decoded value where it is present, `bit_result` for a
/// bit-stored value, and a key-frames fault where the flag says the
/// value is animated.  A failed payload decode also falls back to the
/// default.
pub open spec fn spec_attr_read<V>(
    ty: AttributeType,
    f: AttributeFlag,
    d: V,
    bit_result: V,
    c: Seq<u8>,
    step: spec_fn(Seq<u8>) -> (Option<V>, Seq<u8>),
) -> (Result<V, ParseError>, Seq<u8>) {
    match ty {
        AttributeType::NotExisted => (Ok(d), c),
        AttributeType::BitFlag => (Ok(bit_result), c),
        AttributeType::FixedValue | AttributeType::Value => spec_attr_decode(f, d, c, step),
        _ => if f.exist && f.animatable {
            (Err(ParseError::BadFrame(BadFrameKind::KeyFrames)), c)
        } else {
            spec_attr_decode(f, d, c, step)
        },
    }
}

/// The decode half of [`spec_attr_read`]: one step of the payload when
/// the flag says the value is present, the default otherwise.
pub open spec fn spec_attr_decode<V>(
    f: AttributeFlag,
    d: V,
    c: Seq<u8>,
    step: spec_fn(Seq<u8>) -> (Option<V>, Seq<u8>),
) -> (Result<V, ParseError>, Seq<u8>) {
    if f.exist {
        let (o, c2) = step(c);
        match o {
            Some(v) => (Ok(v), c2),
            None => (Ok(d), c2),
        }
    } else {
        (Ok(d), c)
    }
}

/// The whole contract of one value read, tying the block's state before
/// and after to [`spec_attr_read`].
pub open spec fn spec_attr_read_post<V>(
    pre: AttributeBlockState<'_>,
    post: AttributeBlockState<'_>,
    ty: AttributeType,
    f: AttributeFlag,
    d: V,
    bit_result: V,
    r: Result<V, ParseError>,
    step: spec_fn(Seq<u8>) -> (Option<V>, Seq<u8>),
) -> bool {
    match pre {
        AttributeBlockState::Flag(b) => match spec_content_of(b) {
            None => {
                &&& r == Ok::<V, ParseError>(d)
                &&& post matches AttributeBlockState::Flag(b2) && b2.buffer@ == b.buffer@
                    && b2.index == b.index
            },
            Some(c) => ({
                let (res, c2) = spec_attr_read(ty, f, d, bit_result, c, step);
                &&& r == res
                &&& post matches AttributeBlockState::Content(p2) && p2@ == c2
            }),
        },
        AttributeBlockState::Content(p) => ({
            let (res, c2) = spec_attr_read(ty, f, d, bit_result, p@, step);
            &&& r == res
            &&& post matches AttributeBlockState::Content(p2) && p2@ == c2
        }),
    }
}

impl<'a> AttributeBlock<'a> {
    /// A block over a body window, in flag phase at bit 0.
    pub fn new(input: &'a [u8]) -> (r: Self)
        ensures
            r.state matches AttributeBlockState::Flag(b) && b.buffer@ == input@ && b.index == 0,
    {
        AttributeBlock { state: AttributeBlockState::Flag(Bits::new(input)) }
    }

    /// The flag bits of one declaration, in declaration order.  In
    /// content phase (or after the flag region was exhausted) the
    /// all-false triple comes back and nothing moves.
    pub fn flag(&mut self, ty: AttributeType) -> (r: (AttributeType, AttributeFlag))
        requires
            match old(self).state {
                AttributeBlockState::Flag(b) => b.index + 3 <= usize::MAX,
                AttributeBlockState::Content(_) => true,
            },
        ensures
            r.0 == ty,
            match old(self).state {
                AttributeBlockState::Flag(b) => {
                    &&& r.1 == spec_flag_value(ty, b.buffer@, b.index as nat)
                    &&& final(self).state matches AttributeBlockState::Flag(b2) && b2.buffer@
                        == b.buffer@ && b2.index == b.index + spec_flag_bit_count(
                        ty,
                        b.buffer@,
                        b.index as nat,
                    )
                },
                AttributeBlockState::Content(p) => {
                    &&& r.1 == (AttributeFlag {
                        exist: false,
                        animatable: false,
                        has_spatial: false,
                    })
                    &&& final(self).state matches AttributeBlockState::Content(p2) && p2@ == p@
                },
            },
    {
        match &self.state {
            AttributeBlockState::Flag(bits) => {
                let mut b2 = *bits;
                let f = self.next_flag(ty, &mut b2);
                self.state = AttributeBlockState::Flag(b2);
                (ty, f)
            },
            AttributeBlockState::Content(_) => (ty, AttributeFlag::not_existed()),
        }
    }

    /// The bit-consumption engine behind [`AttributeBlock::flag`]: one
    /// exist bit, then (for the property types) an animatable bit, then
    /// (for all but spatial properties) a spatial bit, stopping at the
    /// first cleared bit.
    pub fn next_flag(&self, ty: AttributeType, bits: &mut Bits<'a>) -> (r: AttributeFlag)
        requires
            old(bits).index + 3 <= usize::MAX,
        ensures
            r == spec_flag_value(ty, old(bits).buffer@, old(bits).index as nat),
            final(bits).buffer@ == old(bits).buffer@,
            final(bits).index == old(bits).index + spec_flag_bit_count(
                ty,
                old(bits).buffer@,
                old(bits).index as nat,
            ),
    {
        let mut flag = AttributeFlag::not_existed();
        if matches!(ty, AttributeType::NotExisted) {
            return flag;
        }
        if matches!(ty, AttributeType::FixedValue) {
            flag.exist = true;
            return flag;
        }
        flag.exist = bits.next();
        if !flag.exist {
            return flag;
        }
        if matches!(ty, AttributeType::Value | AttributeType::BitFlag | AttributeType::Custom) {
            return flag;
        }
        flag.animatable = bits.next();
        if !flag.animatable {
            return flag;
        }
        if matches!(ty, AttributeType::SpatialProperty) {
            return flag;
        }
        flag.has_spatial = bits.next();
        flag
    }

    /// Switch to content phase if the block is still consuming flags.
    /// True when the payload cursor is available afterwards.
    pub(crate) fn ensure_content(&mut self) -> (ok: bool)
        requires
            match old(self).state {
                AttributeBlockState::Flag(b) => b.index + 7 <= usize::MAX,
                AttributeBlockState::Content(_) => true,
            },
        ensures
            match old(self).state {
                AttributeBlockState::Flag(b) => match spec_content_of(b) {
                    None => {
                        &&& !ok
                        &&& final(self).state matches AttributeBlockState::Flag(b2) && b2.buffer@
                            == b.buffer@ && b2.index == b.index
                    },
                    Some(c) => {
                        &&& ok
                        &&& final(self).state matches AttributeBlockState::Content(p2) && p2@ == c
                    },
                },
                AttributeBlockState::Content(p) => {
                    &&& ok
                    &&& final(self).state matches AttributeBlockState::Content(p2) && p2@ == p@
                },
            },
    {
        match &self.state {
            AttributeBlockState::Flag(bits) => {
                let b = *bits;
                match b.finish() {
                    Ok(p) => {
                        self.state = AttributeBlockState::Content(p);
                        true
                    },
                    Err(_) => false,
                }
            },
            AttributeBlockState::Content(_) => true,
        }
    }

    /// One boolean property.  A bit-stored boolean is the exist flag
    /// itself.
    pub fn read_bool(&mut self, tf: (AttributeType, AttributeFlag), default: bool) -> (r: Result<
        bool,
        ParseError,
    >)
        requires
            match old(self).state {
                AttributeBlockState::Flag(b) => b.index + 7 <= usize::MAX,
                AttributeBlockState::Content(_) => true,
            },
        ensures
            spec_attr_read_post(
                old(self).state,
                final(self).state,
                tf.0,
                tf.1,
                default,
                tf.1.exist,
                r,
                (|c: Seq<u8>| spec_step_bool(c)),
            ),
    {
        if !self.ensure_content() {
            return Ok(default);
        }
        let p = match &mut self.state {
            AttributeBlockState::Content(p) => p,
            AttributeBlockState::Flag(_) => {
                return Ok(default);
            },
        };
        match tf.0 {
            AttributeType::NotExisted => Ok(default),
            AttributeType::BitFlag => Ok(tf.1.exist),
            AttributeType::FixedValue | AttributeType::Value => {
                if tf.1.exist {
                    match p.next_bool() {
                        Ok(v) => Ok(v),
                        Err(_) => Ok(default),
                    }
                } else {
                    Ok(default)
                }
            },
            _ => {
                if tf.1.exist && tf.1.animatable {
                    Err(ParseError::BadFrame(BadFrameKind::KeyFrames))
                } else if tf.1.exist {
                    match p.next_bool() {
                        Ok(v) => Ok(v),
                        Err(_) => Ok(default),
                    }
                } else {
                    Ok(default)
                }
            },
        }
    }

    /// One byte-wide property, as the raw byte; an enumeration's value
    /// is mapped through its `from_u8` by the caller.
    pub fn read_u8(&mut self, tf: (AttributeType, AttributeFlag), default: u8) -> (r:
        Result<u8, ParseError>)
        requires
            match old(self).state {
                AttributeBlockState::Flag(b) => b.index + 7 <= usize::MAX,
                AttributeBlockState::Content(_) => true,
            },
        ensures
            spec_attr_read_post(
                old(self).state,
                final(self).state,
                tf.0,
                tf.1,
                default,
                default,
                r,
                (|c: Seq<u8>| spec_step_u8(c)),
            ),
    {
        if !self.ensure_content() {
            return Ok(default);
        }
        let p = match &mut self.state {
            AttributeBlockState::Content(p) => p,
            AttributeBlockState::Flag(_) => {
                return Ok(default);
            },
        };
        match tf.0 {
            AttributeType::NotExisted => Ok(default),
            AttributeType::BitFlag => Ok(default),
            AttributeType::FixedValue | AttributeType::Value => {
                if tf.1.exist {
                    match p.next_u8() {
                        Ok(v) => Ok(v),
                        Err(_) => Ok(default),
                    }
                } else {
                    Ok(default)
                }
            },
            _ => {
                if tf.1.exist && tf.1.animatable {
                    Err(ParseError::BadFrame(BadFrameKind::KeyFrames))
                } else if tf.1.exist {
                    match p.next_u8() {
                        Ok(v) => Ok(v),
                        Err(_) => Ok(default),
                    }
                } else {
                    Ok(default)
                }
            },
        }
    }

    /// One varint-u32 property.
    pub fn read_u32(&mut self, tf: (AttributeType, AttributeFlag), default: u32) -> (r: Result<
        u32,
        ParseError,
    >)
        requires
            match old(self).state {
                AttributeBlockState::Flag(b) => b.index + 7 <= usize::MAX,
                AttributeBlockState::Content(_) => true,
            },
        ensures
            spec_attr_read_post(
                old(self).state,
                final(self).state,
                tf.0,
                tf.1,
                default,
                default,
                r,
                (|c: Seq<u8>| spec_step_varint_u32(c)),
            ),
    {
        if !self.ensure_content() {
            return Ok(default);
        }
        let p = match &mut self.state {
            AttributeBlockState::Content(p) => p,
            AttributeBlockState::Flag(_) => {
                return Ok(default);
            },
        };
        match tf.0 {
            AttributeType::NotExisted => Ok(default),
            AttributeType::BitFlag => Ok(default),
            AttributeType::FixedValue | AttributeType::Value => {
                if tf.1.exist {
                    match p.next_encoded_u32() {
                        Ok(v) => Ok(v),
                        Err(_) => Ok(default),
                    }
                } else {
                    Ok(default)
                }
            },
            _ => {
                if tf.1.exist && tf.1.animatable {
                    Err(ParseError::BadFrame(BadFrameKind::KeyFrames))
                } else if tf.1.exist {
                    match p.next_encoded_u32() {
                        Ok(v) => Ok(v),
                        Err(_) => Ok(default),
                    }
                } else {
                    Ok(default)
                }
            },
        }
    }

    /// One varint-u64 property, used for times.
    pub fn read_u64(&mut self, tf: (AttributeType, AttributeFlag), default: u64) -> (r: Result<
        u64,
        ParseError,
    >)
        requires
            match old(self).state {
                AttributeBlockState::Flag(b) => b.index + 7 <= usize::MAX,
                AttributeBlockState::Content(_) => true,
            },
        ensures
            spec_attr_read_post(
                old(self).state,
                final(self).state,
                tf.0,
                tf.1,
                default,
                default,
                r,
                (|c: Seq<u8>| spec_step_varint_u64(c)),
            ),
    {
        if !self.ensure_content() {
            return Ok(default);
        }
        let p = match &mut self.state {
            AttributeBlockState::Content(p) => p,
            AttributeBlockState::Flag(_) => {
                return Ok(default);
            },
        };
        match tf.0 {
            AttributeType::NotExisted => Ok(default),
            AttributeType::BitFlag => Ok(default),
            AttributeType::FixedValue | AttributeType::Value => {
                if tf.1.exist {
                    match p.next_encoded_u64() {
                        Ok(v) => Ok(v),
                        Err(_) => Ok(default),
                    }
                } else {
                    Ok(default)
                }
            },
            _ => {
                if tf.1.exist && tf.1.animatable {
                    Err(ParseError::BadFrame(BadFrameKind::KeyFrames))
                } else if tf.1.exist {
                    match p.next_encoded_u64() {
                        Ok(v) => Ok(v),
                        Err(_) => Ok(default),
                    }
                } else {
                    Ok(default)
                }
            },
        }
    }

    /// One single-precision property, as raw bits.
    pub fn read_f32(&mut self, tf: (AttributeType, AttributeFlag), default: Float32) -> (r: Result<
        Float32,
        ParseError,
    >)
        requires
            match old(self).state {
                AttributeBlockState::Flag(b) => b.index + 7 <= usize::MAX,
                AttributeBlockState::Content(_) => true,
            },
        ensures
            spec_attr_read_post(
                old(self).state,
                final(self).state,
                tf.0,
                tf.1,
                default,
                default,
                r,
                (|c: Seq<u8>| spec_step_f32(c)),
            ),
    {
        if !self.ensure_content() {
            return Ok(default);
        }
        let p = match &mut self.state {
            AttributeBlockState::Content(p) => p,
            AttributeBlockState::Flag(_) => {
                return Ok(default);
            },
        };
        match tf.0 {
            AttributeType::NotExisted => Ok(default),
            AttributeType::BitFlag => Ok(default),
            AttributeType::FixedValue | AttributeType::Value => {
                if tf.1.exist {
                    match p.next_f32() {
                        Ok(v) => Ok(v),
                        Err(_) => Ok(default),
                    }
                } else {
                    Ok(default)
                }
            },
            _ => {
                if tf.1.exist && tf.1.animatable {
                    Err(ParseError::BadFrame(BadFrameKind::KeyFrames))
                } else if tf.1.exist {
                    match p.next_f32() {
                        Ok(v) => Ok(v),
                        Err(_) => Ok(default),
                    }
                } else {
                    Ok(default)
                }
            },
        }
    }

    /// One ratio property.
    pub fn read_ratio(&mut self, tf: (AttributeType, AttributeFlag), default: Ratio) -> (r: Result<
        Ratio,
        ParseError,
    >)
        requires
            match old(self).state {
                AttributeBlockState::Flag(b) => b.index + 7 <= usize::MAX,
                AttributeBlockState::Content(_) => true,
            },
        ensures
            spec_attr_read_post(
                old(self).state,
                final(self).state,
                tf.0,
                tf.1,
                default,
                default,
                r,
                (|c: Seq<u8>| spec_step_ratio(c)),
            ),
    {
        if !self.ensure_content() {
            return Ok(default);
        }
        let p = match &mut self.state {
            AttributeBlockState::Content(p) => p,
            AttributeBlockState::Flag(_) => {
                return Ok(default);
            },
        };
        match tf.0 {
            AttributeType::NotExisted => Ok(default),
            AttributeType::BitFlag => Ok(default),
            AttributeType::FixedValue | AttributeType::Value => {
                if tf.1.exist {
                    match Ratio::parse(p) {
                        Ok(v) => Ok(v),
                        Err(_) => Ok(default),
                    }
                } else {
                    Ok(default)
                }
            },
            _ => {
                if tf.1.exist && tf.1.animatable {
                    Err(ParseError::BadFrame(BadFrameKind::KeyFrames))
                } else if tf.1.exist {
                    match Ratio::parse(p) {
                        Ok(v) => Ok(v),
                        Err(_) => Ok(default),
                    }
                } else {
                    Ok(default)
                }
            },
        }
    }

    /// One point property.
    pub fn read_point(&mut self, tf: (AttributeType, AttributeFlag), default: Point) -> (r: Result<
        Point,
        ParseError,
    >)
        requires
            match old(self).state {
                AttributeBlockState::Flag(b) => b.index + 7 <= usize::MAX,
                AttributeBlockState::Content(_) => true,
            },
        ensures
            spec_attr_read_post(
                old(self).state,
                final(self).state,
                tf.0,
                tf.1,
                default,
                default,
                r,
                (|c: Seq<u8>| spec_step_point(c)),
            ),
    {
        if !self.ensure_content() {
            return Ok(default);
        }
        let p = match &mut self.state {
            AttributeBlockState::Content(p) => p,
            AttributeBlockState::Flag(_) => {
                return Ok(default);
            },
        };
        match tf.0 {
            AttributeType::NotExisted => Ok(default),
            AttributeType::BitFlag => Ok(default),
            AttributeType::FixedValue | AttributeType::Value => {
                if tf.1.exist {
                    match Point::parse(p) {
                        Ok(v) => Ok(v),
                        Err(_) => Ok(default),
                    }
                } else {
                    Ok(default)
                }
            },
            _ => {
                if tf.1.exist && tf.1.animatable {
                    Err(ParseError::BadFrame(BadFrameKind::KeyFrames))
                } else if tf.1.exist {
                    match Point::parse(p) {
                        Ok(v) => Ok(v),
                        Err(_) => Ok(default),
                    }
                } else {
                    Ok(default)
                }
            },
        }
    }

    /// One string property.  The contract speaks of the decoded
    /// character sequences.
    pub fn read_string(&mut self, tf: (AttributeType, AttributeFlag), default: String) -> (r:
        Result<String, ParseError>)
        requires
            match old(self).state {
                AttributeBlockState::Flag(b) => b.index + 7 <= usize::MAX,
                AttributeBlockState::Content(_) => true,
            },
        ensures
            spec_attr_read_post(
                old(self).state,
                final(self).state,
                tf.0,
                tf.1,
                default@,
                default@,
                match r {
                    Ok(s) => Ok::<Seq<char>, ParseError>(s@),
                    Err(e) => Err(e),
                },
                (|c: Seq<u8>| spec_step_string(c)),
            ),
    {
        if !self.ensure_content() {
            return Ok(default);
        }
        let p = match &mut self.state {
            AttributeBlockState::Content(p) => p,
            AttributeBlockState::Flag(_) => {
                return Ok(default);
            },
        };
        match tf.0 {
            AttributeType::NotExisted => Ok(default),
            AttributeType::BitFlag => Ok(default),
            AttributeType::FixedValue | AttributeType::Value => {
                if tf.1.exist {
                    match p.next_string() {
                        Ok(v) => Ok(v),
                        Err(_) => Ok(default),
                    }
                } else {
                    Ok(default)
                }
            },
            _ => {
                if tf.1.exist && tf.1.animatable {
                    Err(ParseError::BadFrame(BadFrameKind::KeyFrames))
                } else if tf.1.exist {
                    match p.next_string() {
                        Ok(v) => Ok(v),
                        Err(_) => Ok(default),
                    }
                } else {
                    Ok(default)
                }
            },
        }
    }
}

} // verus!
