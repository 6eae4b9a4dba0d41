//! Shared data types of the format: byte-coded enumerations and the
//! small flat records that many tag bodies embed.
//!
//! Every byte-coded enumeration maps unknown discriminants to an
//! `Unknown` variant rather than failing, so they round-trip.

use vstd::prelude::*;
use vstd::slice::slice_to_vec;

use crate::error::ParseError;
use crate::parser::SliceParser;
use crate::wire::{
    spec_step_many, spec_step_u8, spec_step_u16, spec_step_u32, spec_step_f32,
    spec_step_varint_i32, spec_step_varint_u32, Float32,
};

verus! {

/// How a trim-paths modifier applies.  Only unknown discriminants occur
/// in this version of the schema.
#[derive(Debug, Clone, Copy, Eq, PartialEq, Structural)]
pub enum TrimPathsType {
    Unknown(u8),
}

impl TrimPathsType {
    /// The variant a wire byte stands for.
    pub open spec fn spec_from_u8(v: u8) -> TrimPathsType {
        TrimPathsType::Unknown(v)
    }

    /// Exec form of [`TrimPathsType::spec_from_u8`].
    pub fn from_u8(v: u8) -> (r: TrimPathsType)
        ensures
            r == TrimPathsType::spec_from_u8(v),
    {
        TrimPathsType::Unknown(v)
    }
}

/// How merged paths combine.
#[derive(Debug, Clone, Copy, Eq, PartialEq, Structural)]
pub enum MergePathsMode {
    Unknown(u8),
}

impl MergePathsMode {
    /// The variant a wire byte stands for.
    pub open spec fn spec_from_u8(v: u8) -> MergePathsMode {
        MergePathsMode::Unknown(v)
    }

    /// Exec form of [`MergePathsMode::spec_from_u8`].
    pub fn from_u8(v: u8) -> (r: MergePathsMode)
        ensures
            r == MergePathsMode::spec_from_u8(v),
    {
        MergePathsMode::Unknown(v)
    }
}

/// The geometry of a gradient fill.
#[derive(Debug, Clone, Copy, Eq, PartialEq, Structural)]
pub enum GradientFillType {
    Unknown(u8),
}

impl GradientFillType {
    /// The variant a wire byte stands for.
    pub open spec fn spec_from_u8(v: u8) -> GradientFillType {
        GradientFillType::Unknown(v)
    }

    /// Exec form of [`GradientFillType::spec_from_u8`].
    pub fn from_u8(v: u8) -> (r: GradientFillType)
        ensures
            r == GradientFillType::spec_from_u8(v),
    {
        GradientFillType::Unknown(v)
    }
}

/// The shape of a stroke's ends.
#[derive(Debug, Clone, Copy, Eq, PartialEq, Structural)]
pub enum LineCap {
    Unknown(u8),
}

impl LineCap {
    /// The variant a wire byte stands for.
    pub open spec fn spec_from_u8(v: u8) -> LineCap {
        LineCap::Unknown(v)
    }

    /// Exec form of [`LineCap::spec_from_u8`].
    pub fn from_u8(v: u8) -> (r: LineCap)
        ensures
            r == LineCap::spec_from_u8(v),
    {
        LineCap::Unknown(v)
    }
}

/// The shape of a stroke's corners.
#[derive(Debug, Clone, Copy, Eq, PartialEq, Structural)]
pub enum LineJoin {
    Unknown(u8),
}

impl LineJoin {
    /// The variant a wire byte stands for.
    pub open spec fn spec_from_u8(v: u8) -> LineJoin {
        LineJoin::Unknown(v)
    }

    /// Exec form of [`LineJoin::spec_from_u8`].
    pub fn from_u8(v: u8) -> (r: LineJoin)
        ensures
            r == LineJoin::spec_from_u8(v),
    {
        LineJoin::Unknown(v)
    }
}

/// The order a repeater composites its copies in.
#[derive(Debug, Clone, Copy, Eq, PartialEq, Structural)]
pub enum CompositeOrder {
    Unknown(u8),
}

impl CompositeOrder {
    /// The variant a wire byte stands for.
    pub open spec fn spec_from_u8(v: u8) -> CompositeOrder {
        CompositeOrder::Unknown(v)
    }

    /// Exec form of [`CompositeOrder::spec_from_u8`].
    pub fn from_u8(v: u8) -> (r: CompositeOrder)
        ensures
            r == CompositeOrder::spec_from_u8(v),
    {
        CompositeOrder::Unknown(v)
    }
}

/// Which winding rule a fill uses.
#[derive(Debug, Clone, Copy, Eq, PartialEq, Structural)]
pub enum FillRule {
    Unknown(u8),
}

impl FillRule {
    /// The variant a wire byte stands for.
    pub open spec fn spec_from_u8(v: u8) -> FillRule {
        FillRule::Unknown(v)
    }

    /// Exec form of [`FillRule::spec_from_u8`].
    pub fn from_u8(v: u8) -> (r: FillRule)
        ensures
            r == FillRule::spec_from_u8(v),
    {
        FillRule::Unknown(v)
    }
}

/// How a mask combines with its layer.
#[derive(Debug, Clone, Copy, Eq, PartialEq, Structural)]
pub enum MaskMode {
    Unknown(u8),
}

impl MaskMode {
    /// The variant a wire byte stands for.
    pub open spec fn spec_from_u8(v: u8) -> MaskMode {
        MaskMode::Unknown(v)
    }

    /// Exec form of [`MaskMode::spec_from_u8`].
    pub fn from_u8(v: u8) -> (r: MaskMode)
        ensures
            r == MaskMode::spec_from_u8(v),
    {
        MaskMode::Unknown(v)
    }
}

/// How a layer blends over what lies below it.
#[derive(Debug, Clone, Copy, Eq, PartialEq, Structural)]
pub enum BlendMode {
    Normal,
    Unknown(u8),
}

impl BlendMode {
    /// The variant a wire byte stands for.
    pub open spec fn spec_from_u8(v: u8) -> BlendMode {
        if v == 0 {
            BlendMode::Normal
        } else {
            BlendMode::Unknown(v)
        }
    }

    /// Exec form of [`BlendMode::spec_from_u8`].
    pub fn from_u8(v: u8) -> (r: BlendMode)
        ensures
            r == BlendMode::spec_from_u8(v),
    {
        if v == 0 {
            BlendMode::Normal
        } else {
            BlendMode::Unknown(v)
        }
    }
}

/// Which track matte a layer takes its alpha from.
#[derive(Debug, Clone, Copy, Eq, PartialEq, Structural)]
pub enum TrackMatteType {
    NoMatte,
    Unknown(u8),
}

impl TrackMatteType {
    /// The variant a wire byte stands for.
    pub open spec fn spec_from_u8(v: u8) -> TrackMatteType {
        if v == 0 {
            TrackMatteType::NoMatte
        } else {
            TrackMatteType::Unknown(v)
        }
    }

    /// Exec form of [`TrackMatteType::spec_from_u8`].
    pub fn from_u8(v: u8) -> (r: TrackMatteType)
        ensures
            r == TrackMatteType::spec_from_u8(v),
    {
        if v == 0 {
            TrackMatteType::NoMatte
        } else {
            TrackMatteType::Unknown(v)
        }
    }
}

/// The kind of content a layer holds.
#[derive(Debug, Clone, Copy, Eq, PartialEq, Structural)]
pub enum LayerType {
    Null,
    Solid,
    Text,
    Shape,
    Image,
    PreCompose,
    Camera,
    Unknown(u8),
}

impl LayerType {
    /// The variant a wire byte stands for.
    pub open spec fn spec_from_u8(v: u8) -> LayerType {
        if v == 1 {
            LayerType::Null
        } else if v == 2 {
            LayerType::Solid
        } else if v == 3 {
            LayerType::Text
        } else if v == 4 {
            LayerType::Shape
        } else if v == 5 {
            LayerType::Image
        } else if v == 6 {
            LayerType::PreCompose
        } else if v == 7 {
            LayerType::Camera
        } else {
            LayerType::Unknown(v)
        }
    }

    /// Exec form of [`LayerType::spec_from_u8`].
    pub fn from_u8(v: u8) -> (r: LayerType)
        ensures
            r == LayerType::spec_from_u8(v),
    {
        if v == 1 {
            LayerType::Null
        } else if v == 2 {
            LayerType::Solid
        } else if v == 3 {
            LayerType::Text
        } else if v == 4 {
            LayerType::Shape
        } else if v == 5 {
            LayerType::Image
        } else if v == 6 {
            LayerType::PreCompose
        } else if v == 7 {
            LayerType::Camera
        } else {
            LayerType::Unknown(v)
        }
    }
}

/// How a paragraph of text is justified.
#[derive(Debug, Clone, Copy, Eq, PartialEq, Structural)]
pub enum ParagraphJustification {
    LeftJustify,
    Unknown(u8),
}

impl ParagraphJustification {
    /// The variant a wire byte stands for.
    pub open spec fn spec_from_u8(v: u8) -> ParagraphJustification {
        if v == 0 {
            ParagraphJustification::LeftJustify
        } else {
            ParagraphJustification::Unknown(v)
        }
    }

    /// Exec form of [`ParagraphJustification::spec_from_u8`].
    pub fn from_u8(v: u8) -> (r: ParagraphJustification)
        ensures
            r == ParagraphJustification::spec_from_u8(v),
    {
        if v == 0 {
            ParagraphJustification::LeftJustify
        } else {
            ParagraphJustification::Unknown(v)
        }
    }
}

/// An opaque RGB color.
#[derive(Debug, Clone, Copy, Eq, PartialEq, Structural)]
pub struct Color {
    pub red: u8,
    pub green: u8,
    pub blue: u8,
}

/// A color read from a cursor: three bytes, red first.
pub open spec fn spec_step_color(c: Seq<u8>) -> (Option<Color>, Seq<u8>) {
    if c.len() >= 3 {
        (Some(Color { red: c[0], green: c[1], blue: c[2] }), c.skip(3))
    } else {
        (None, c.skip(c.len() as int))
    }
}

impl Color {
    /// Three bytes: red, green, blue.
    pub fn parse(p: &mut SliceParser) -> (r: Result<Color, ParseError>)
        ensures
            match r {
                Ok(v) => spec_step_color(old(p)@).0 == Some(v) && final(p)@ == spec_step_color(
                    old(p)@,
                ).1,
                Err(e) => spec_step_color(old(p)@).0 is None && final(p)@ == spec_step_color(
                    old(p)@,
                ).1,
            },
    {
        let red = p.next_u8()?;
        let green = p.next_u8()?;
        let blue = p.next_u8()?;
        Ok(Color { red, green, blue })
    }
}

/// A point in layer space; the coordinates are raw IEEE 754 bits.
#[derive(Debug, Clone, Copy, Eq, PartialEq, Structural)]
pub struct Point {
    pub x: Float32,
    pub y: Float32,
}

/// A point read from a cursor: two four-byte singles, x first.
pub open spec fn spec_step_point(c: Seq<u8>) -> (Option<Point>, Seq<u8>) {
    let (x, c1) = spec_step_f32(c);
    match x {
        None => (None, c1),
        Some(xv) => {
            let (y, c2) = spec_step_f32(c1);
            match y {
                None => (None, c2),
                Some(yv) => (Some(Point { x: xv, y: yv }), c2),
            }
        },
    }
}

impl Point {
    /// The point with the given raw coordinates.
    pub fn new(x: Float32, y: Float32) -> (r: Point)
        ensures
            r == (Point { x, y }),
    {
        Point { x, y }
    }

    /// The origin.
    pub fn zero() -> (r: Point)
        ensures
            r == (Point { x: Float32 { bits: 0 }, y: Float32 { bits: 0 } }),
    {
        Point { x: Float32::zero(), y: Float32::zero() }
    }

    /// The point (1.0, 1.0).
    pub fn one() -> (r: Point)
        ensures
            r == (Point { x: Float32 { bits: 0x3f80_0000 }, y: Float32 { bits: 0x3f80_0000 } }),
    {
        Point { x: Float32::one(), y: Float32::one() }
    }

    /// Two singles: x, then y.
    pub fn parse(p: &mut SliceParser) -> (r: Result<Point, ParseError>)
        ensures
            match r {
                Ok(v) => spec_step_point(old(p)@).0 == Some(v) && final(p)@ == spec_step_point(
                    old(p)@,
                ).1,
                Err(e) => spec_step_point(old(p)@).0 is None && final(p)@ == spec_step_point(
                    old(p)@,
                ).1,
            },
    {
        let x = p.next_f32()?;
        let y = p.next_f32()?;
        Ok(Point { x, y })
    }
}

/// A rational number, used for time stretch.
#[derive(Debug, Clone, Copy, Eq, PartialEq, Structural)]
pub struct Ratio {
    pub numerator: i32,
    pub denominator: u32,
}

/// A ratio read from a cursor: a signed then an unsigned varint.
pub open spec fn spec_step_ratio(c: Seq<u8>) -> (Option<Ratio>, Seq<u8>) {
    let (n, c1) = spec_step_varint_i32(c);
    match n {
        None => (None, c1),
        Some(num) => {
            let (d, c2) = spec_step_varint_u32(c1);
            match d {
                None => (None, c2),
                Some(den) => (Some(Ratio { numerator: num, denominator: den }), c2),
            }
        },
    }
}

impl Ratio {
    /// The ratio 1/1.
    pub fn one() -> (r: Ratio)
        ensures
            r == (Ratio { numerator: 1, denominator: 1 }),
    {
        Self::new(1, 1)
    }

    /// The ratio `numerator / denominator`.
    pub fn new(numerator: i32, denominator: u32) -> (r: Ratio)
        ensures
            r == (Ratio { numerator, denominator }),
    {
        Ratio { numerator, denominator }
    }

    /// A signed varint numerator, then an unsigned varint denominator.
    pub fn parse(p: &mut SliceParser) -> (r: Result<Ratio, ParseError>)
        ensures
            match r {
                Ok(v) => spec_step_ratio(old(p)@).0 == Some(v) && final(p)@ == spec_step_ratio(
                    old(p)@,
                ).1,
                Err(e) => spec_step_ratio(old(p)@).0 is None && final(p)@ == spec_step_ratio(
                    old(p)@,
                ).1,
            },
    {
        let numerator = p.next_encoded_i32()?;
        let denominator = p.next_encoded_u32()?;
        Ok(Ratio { numerator, denominator })
    }
}

/// A varint-length-prefixed run of raw bytes, used for embedded media.
#[derive(Debug, Clone, PartialEq, Eq)]
pub struct ByteData {
    pub length: u32,
    pub data: Vec<u8>,
}

impl View for ByteData {
    type V = Seq<u8>;

    open spec fn view(&self) -> Seq<u8> {
        self.data@
    }
}

/// Byte data read from a cursor: a varint count, then that many bytes.
pub open spec fn spec_step_byte_data(c: Seq<u8>) -> (Option<Seq<u8>>, Seq<u8>) {
    let (n, c1) = spec_step_varint_u32(c);
    match n {
        None => (None, c1),
        Some(len) => {
            if c1.len() >= len {
                (Some(c1.take(len as int)), c1.skip(len as int))
            } else {
                (None, c1)
            }
        },
    }
}

impl ByteData {
    /// Byte data holding a copy of `data`.
    pub fn from(data: &[u8]) -> (r: ByteData)
        requires
            data@.len() <= u32::MAX,
        ensures
            r@ == data@,
            r.length == data@.len(),
    {
        ByteData { length: data.len() as u32, data: slice_to_vec(data) }
    }

    /// Every byte data is as long as its length prefix said.
    pub open spec fn wf(&self) -> bool {
        self.length == self.data@.len()
    }

    /// A varint length, then exactly that many bytes.
    pub fn parse(p: &mut SliceParser) -> (r: Result<ByteData, ParseError>)
        ensures
            match r {
                Ok(v) => spec_step_byte_data(old(p)@).0 == Some(v@) && final(p)@
                    == spec_step_byte_data(old(p)@).1 && v.wf(),
                Err(e) => spec_step_byte_data(old(p)@).0 is None,
            },
    {
        let length = p.next_encoded_u32()?;
        let data = p.next_bytes(length as usize)?;
        Ok(ByteData { length, data: slice_to_vec(data) })
    }
}

/// A mask path.  Its wire layout carries no fields in this version of
/// the schema.
#[derive(Debug, Clone, Copy, Eq, PartialEq, Structural)]
pub struct Path {}

impl Path {
    /// Nothing is read.
    pub fn parse(p: &mut SliceParser) -> (r: Result<Path, ParseError>)
        ensures
            r == Ok::<Path, ParseError>(Path {}),
            final(p)@ == old(p)@,
    {
        Ok(Path {})
    }
}

/// One stop of a gradient's opacity ramp.
#[derive(Debug, Clone, Copy, Eq, PartialEq, Structural)]
pub struct AlphaStop {
    pub position: u16,
    pub midpoint: u16,
    pub opacity: u8,
}

/// An alpha stop read from a cursor: two u16s and a byte.
pub open spec fn spec_step_alpha_stop(c: Seq<u8>) -> (Option<AlphaStop>, Seq<u8>) {
    let (p, c1) = spec_step_u16(c);
    match p {
        None => (None, c1),
        Some(position) => {
            let (m, c2) = spec_step_u16(c1);
            match m {
                None => (None, c2),
                Some(midpoint) => {
                    let (o, c3) = spec_step_u8(c2);
                    match o {
                        None => (None, c3),
                        Some(opacity) => (Some(AlphaStop { position, midpoint, opacity }), c3),
                    }
                },
            }
        },
    }
}

impl AlphaStop {
    /// Position, midpoint, opacity.
    pub fn parse(p: &mut SliceParser) -> (r: Result<AlphaStop, ParseError>)
        ensures
            match r {
                Ok(v) => spec_step_alpha_stop(old(p)@).0 == Some(v) && final(p)@
                    == spec_step_alpha_stop(old(p)@).1,
                Err(e) => spec_step_alpha_stop(old(p)@).0 is None && final(p)@
                    == spec_step_alpha_stop(old(p)@).1,
            },
    {
        let position = p.next_u16()?;
        let midpoint = p.next_u16()?;
        let opacity = p.next_u8()?;
        Ok(AlphaStop { position, midpoint, opacity })
    }
}

/// One stop of a gradient's color ramp.
#[derive(Debug, Clone, Copy, Eq, PartialEq, Structural)]
pub struct ColorStop {
    pub position: u16,
    pub midpoint: u16,
    pub color: Color,
}

/// A color stop read from a cursor: two u16s and a color.
pub open spec fn spec_step_color_stop(c: Seq<u8>) -> (Option<ColorStop>, Seq<u8>) {
    let (p, c1) = spec_step_u16(c);
    match p {
        None => (None, c1),
        Some(position) => {
            let (m, c2) = spec_step_u16(c1);
            match m {
                None => (None, c2),
                Some(midpoint) => {
                    let (o, c3) = spec_step_color(c2);
                    match o {
                        None => (None, c3),
                        Some(color) => (Some(ColorStop { position, midpoint, color }), c3),
                    }
                },
            }
        },
    }
}

impl ColorStop {
    /// Position, midpoint, color.
    pub fn parse(p: &mut SliceParser) -> (r: Result<ColorStop, ParseError>)
        ensures
            match r {
                Ok(v) => spec_step_color_stop(old(p)@).0 == Some(v) && final(p)@
                    == spec_step_color_stop(old(p)@).1,
                Err(e) => spec_step_color_stop(old(p)@).0 is None && final(p)@
                    == spec_step_color_stop(old(p)@).1,
            },
    {
        let position = p.next_u16()?;
        let midpoint = p.next_u16()?;
        let color = Color::parse(p)?;
        Ok(ColorStop { position, midpoint, color })
    }
}

/// The frame color and size of a solid-color layer.
#[derive(Debug, Clone, Copy, Eq, PartialEq, Structural)]
pub struct SolidColor {
    pub solid_color: Color,
    pub width: i32,
    pub height: i32,
}

/// A solid color read from a cursor: color, then two signed varints.
pub open spec fn spec_step_solid_color(c: Seq<u8>) -> (Option<SolidColor>, Seq<u8>) {
    let (o, c1) = spec_step_color(c);
    match o {
        None => (None, c1),
        Some(color) => {
            let (w, c2) = spec_step_varint_i32(c1);
            match w {
                None => (None, c2),
                Some(width) => {
                    let (h, c3) = spec_step_varint_i32(c2);
                    match h {
                        None => (None, c3),
                        Some(height) => (
                            Some(SolidColor { solid_color: color, width, height }),
                            c3,
                        ),
                    }
                },
            }
        },
    }
}

impl SolidColor {
    /// Color, width, height.
    pub fn parse(p: &mut SliceParser) -> (r: Result<SolidColor, ParseError>)
        ensures
            match r {
                Ok(v) => spec_step_solid_color(old(p)@).0 == Some(v) && final(p)@
                    == spec_step_solid_color(old(p)@).1,
                Err(e) => spec_step_solid_color(old(p)@).0 is None && final(p)@
                    == spec_step_solid_color(old(p)@).1,
            },
    {
        let solid_color = Color::parse(p)?;
        let width = p.next_encoded_i32()?;
        let height = p.next_encoded_i32()?;
        Ok(SolidColor { solid_color, width, height })
    }
}

/// The ghost value of a [`GradientColor`] record.
pub struct GradientColorV {
    pub alpha_count: u32,
    pub color_count: u32,
    pub alpha_stop_list: Seq<AlphaStop>,
    pub color_stop_list: Seq<ColorStop>,
}

/// A gradient's opacity and color ramps.
#[derive(Debug, Clone, PartialEq, Eq)]
pub struct GradientColor {
    pub alpha_count: u32,
    pub color_count: u32,
    pub alpha_stop_list: Vec<AlphaStop>,
    pub color_stop_list: Vec<ColorStop>,
}

impl View for GradientColor {
    type V = GradientColorV;

    open spec fn view(&self) -> GradientColorV {
        GradientColorV {
            alpha_count: self.alpha_count,
            color_count: self.color_count,
            alpha_stop_list: self.alpha_stop_list@,
            color_stop_list: self.color_stop_list@,
        }
    }
}

/// A gradient read from a cursor: two fixed-width counts, then that
/// many alpha stops and that many color stops.
pub open spec fn spec_step_gradient_color(c: Seq<u8>) -> (Option<GradientColorV>, Seq<u8>) {
    let (a, c1) = spec_step_u32(c);
    match a {
        None => (None, c1),
        Some(alpha_count) => {
            let (b, c2) = spec_step_u32(c1);
            match b {
                None => (None, c2),
                Some(color_count) => {
                    let (xs, c3) = spec_step_many(
                        c2,
                        alpha_count as nat,
                        (|cc: Seq<u8>| spec_step_alpha_stop(cc)),
                    );
                    match xs {
                        None => (None, c3),
                        Some(alpha_stops) => {
                            let (ys, c4) = spec_step_many(
                                c3,
                                color_count as nat,
                                (|cc: Seq<u8>| spec_step_color_stop(cc)),
                            );
                            match ys {
                                None => (None, c4),
                                Some(color_stops) => (
                                    Some(
                                        GradientColorV {
                                            alpha_count,
                                            color_count,
                                            alpha_stop_list: alpha_stops,
                                            color_stop_list: color_stops,
                                        },
                                    ),
                                    c4,
                                ),
                            }
                        },
                    }
                },
            }
        },
    }
}

impl GradientColor {
    /// Both counts, then both stop lists.
    #[verifier::rlimit(100)]
    #[verifier::spinoff_prover]
    pub fn parse(p: &mut SliceParser) -> (r: Result<GradientColor, ParseError>)
        ensures
            match r {
                Ok(v) => spec_step_gradient_color(old(p)@).0 == Some(v@) && final(p)@
                    == spec_step_gradient_color(old(p)@).1,
                Err(e) => spec_step_gradient_color(old(p)@).0 is None,
            },
    {
        let alpha_count = p.next_u32()?;
        let color_count = p.next_u32()?;
        let ghost c2g = p@;
        let mut alpha_stop_list: Vec<AlphaStop> = Vec::new();
        let mut i: u32 = 0;
        proof {
            assert(Seq::<AlphaStop>::empty() + spec_step_many(
                c2g,
                alpha_count as nat,
                (|cc: Seq<u8>| spec_step_alpha_stop(cc)),
            ).0.unwrap() =~= spec_step_many(
                c2g,
                alpha_count as nat,
                (|cc: Seq<u8>| spec_step_alpha_stop(cc)),
            ).0.unwrap());
        }
        while i < alpha_count
            invariant
                i <= alpha_count,
                spec_step_gradient_color(old(p)@) == ({
                    let (xs, c3) = spec_step_many(
                        c2g,
                        alpha_count as nat,
                        (|cc: Seq<u8>| spec_step_alpha_stop(cc)),
                    );
                    match xs {
                        None => (None::<GradientColorV>, c3),
                        Some(alpha_stops) => {
                            let (ys, c4) = spec_step_many(
                                c3,
                                color_count as nat,
                                (|cc: Seq<u8>| spec_step_color_stop(cc)),
                            );
                            match ys {
                                None => (None::<GradientColorV>, c4),
                                Some(color_stops) => (
                                    Some(
                                        GradientColorV {
                                            alpha_count,
                                            color_count,
                                            alpha_stop_list: alpha_stops,
                                            color_stop_list: color_stops,
                                        },
                                    ),
                                    c4,
                                ),
                            }
                        },
                    }
                }),
                spec_step_many(
                    c2g,
                    alpha_count as nat,
                    (|cc: Seq<u8>| spec_step_alpha_stop(cc)),
                ) == ({
                    let (o, cf) = spec_step_many(
                        p@,
                        (alpha_count - i) as nat,
                        (|cc: Seq<u8>| spec_step_alpha_stop(cc)),
                    );
                    match o {
                        None => (None::<Seq<AlphaStop>>, cf),
                        Some(vs) => (Some(alpha_stop_list@ + vs), cf),
                    }
                }),
            decreases alpha_count - i,
        {
            let ghost cprev = p@;
            let ghost prevm = alpha_stop_list@;
            let stop = AlphaStop::parse(p)?;
            alpha_stop_list.push(stop);
            i = i + 1;
            proof {
                let stepf = (|cc: Seq<u8>| spec_step_alpha_stop(cc));
                assert(stepf(cprev) == spec_step_alpha_stop(cprev));
                assert(alpha_stop_list@ =~= prevm + seq![stop]);
                let (o2, cf2) = spec_step_many(p@, (alpha_count - i) as nat, stepf);
                match o2 {
                    None => {},
                    Some(vs) => {
                        assert((prevm + seq![stop]) + vs =~= prevm + (seq![stop] + vs));
                    },
                }
            }
        }
        proof {
            let stepf = (|cc: Seq<u8>| spec_step_alpha_stop(cc));
            assert(spec_step_many(p@, 0, stepf) == (Some(Seq::<AlphaStop>::empty()), p@));
            assert(alpha_stop_list@ + Seq::<AlphaStop>::empty() =~= alpha_stop_list@);
        }
        let ghost c3g = p@;
        let mut color_stop_list: Vec<ColorStop> = Vec::new();
        let mut j: u32 = 0;
        proof {
            assert(Seq::<ColorStop>::empty() + spec_step_many(
                c3g,
                color_count as nat,
                (|cc: Seq<u8>| spec_step_color_stop(cc)),
            ).0.unwrap() =~= spec_step_many(
                c3g,
                color_count as nat,
                (|cc: Seq<u8>| spec_step_color_stop(cc)),
            ).0.unwrap());
        }
        while j < color_count
            invariant
                j <= color_count,
                spec_step_gradient_color(old(p)@) == ({
                    let (ys, c4) = spec_step_many(
                        c3g,
                        color_count as nat,
                        (|cc: Seq<u8>| spec_step_color_stop(cc)),
                    );
                    match ys {
                        None => (None::<GradientColorV>, c4),
                        Some(color_stops) => (
                            Some(
                                GradientColorV {
                                    alpha_count,
                                    color_count,
                                    alpha_stop_list: alpha_stop_list@,
                                    color_stop_list: color_stops,
                                },
                            ),
                            c4,
                        ),
                    }
                }),
                spec_step_many(
                    c3g,
                    color_count as nat,
                    (|cc: Seq<u8>| spec_step_color_stop(cc)),
                ) == ({
                    let (o, cf) = spec_step_many(
                        p@,
                        (color_count - j) as nat,
                        (|cc: Seq<u8>| spec_step_color_stop(cc)),
                    );
                    match o {
                        None => (None::<Seq<ColorStop>>, cf),
                        Some(vs) => (Some(color_stop_list@ + vs), cf),
                    }
                }),
            decreases color_count - j,
        {
            let ghost cprev = p@;
            let ghost prevm = color_stop_list@;
            let stop = ColorStop::parse(p)?;
            color_stop_list.push(stop);
            j = j + 1;
            proof {
                let stepf = (|cc: Seq<u8>| spec_step_color_stop(cc));
                assert(stepf(cprev) == spec_step_color_stop(cprev));
                assert(color_stop_list@ =~= prevm + seq![stop]);
                let (o2, cf2) = spec_step_many(p@, (color_count - j) as nat, stepf);
                match o2 {
                    None => {},
                    Some(vs) => {
                        assert((prevm + seq![stop]) + vs =~= prevm + (seq![stop] + vs));
                    },
                }
            }
        }
        proof {
            let stepf = (|cc: Seq<u8>| spec_step_color_stop(cc));
            assert(spec_step_many(p@, 0, stepf) == (Some(Seq::<ColorStop>::empty()), p@));
            assert(color_stop_list@ + Seq::<ColorStop>::empty() =~= color_stop_list@);
        }
        Ok(GradientColor { alpha_count, color_count, alpha_stop_list, color_stop_list })
    }
}

} // verus!
