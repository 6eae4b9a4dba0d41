//! Shape and composition records: composition attributes, the vector
//! composition container, and the plain shape data records.

use vstd::prelude::*;

use crate::base::{
    spec_step_color, BlendMode, Color, CompositeOrder, FillRule, GradientFillType, LineCap,
    LineJoin, MergePathsMode, Path, Point, TrimPathsType,
};
use crate::error::ParseError;
use crate::parser::SliceParser;
use crate::wire::{
    spec_step_f32, spec_step_varint_i32, spec_step_varint_u64, Float32,
};

verus! {

/// Basic properties of a composition: size, duration, frame rate, and
/// background color.
#[derive(Debug, Clone, Copy, PartialEq, Eq, Structural)]
pub struct CompositionAttributes {
    pub width: i32,
    pub height: i32,
    pub duration: u64,
    pub frame_rate: Float32,
    pub background_color: Color,
}

/// Composition attributes read from a cursor.
pub open spec fn spec_step_composition_attributes(c: Seq<u8>) -> (
    Option<CompositionAttributes>,
    Seq<u8>,
) {
    let (w, c1) = spec_step_varint_i32(c);
    match w {
        None => (None, c1),
        Some(width) => {
            let (h, c2) = spec_step_varint_i32(c1);
            match h {
                None => (None, c2),
                Some(height) => {
                    let (d, c3) = spec_step_varint_u64(c2);
                    match d {
                        None => (None, c3),
                        Some(duration) => {
                            let (fr, c4) = spec_step_f32(c3);
                            match fr {
                                None => (None, c4),
                                Some(frame_rate) => {
                                    let (bg, c5) = spec_step_color(c4);
                                    match bg {
                                        None => (None, c5),
                                        Some(background_color) => (
                                            Some(
                                                CompositionAttributes {
                                                    width,
                                                    height,
                                                    duration,
                                                    frame_rate,
                                                    background_color,
                                                },
                                            ),
                                            c5,
                                        ),
                                    }
                                },
                            }
                        },
                    }
                },
            }
        },
    }
}

impl CompositionAttributes {
    /// Width, height, duration, frame rate, background color.
    pub fn parse(p: &mut SliceParser) -> (r: Result<CompositionAttributes, ParseError>)
        ensures
            match r {
                Ok(v) => spec_step_composition_attributes(old(p)@).0 == Some(v) && final(p)@
                    == spec_step_composition_attributes(old(p)@).1,
                Err(e) => spec_step_composition_attributes(old(p)@).0 is None && final(p)@
                    == spec_step_composition_attributes(old(p)@).1,
            },
    {
        let width = p.next_encoded_i32()?;
        let height = p.next_encoded_i32()?;
        let duration = p.next_encoded_u64()?;
        let frame_rate = p.next_f32()?;
        let background_color = Color::parse(p)?;
        Ok(CompositionAttributes { width, height, duration, frame_rate, background_color })
    }
}

/// A shape group's transform and contents.  Data only: the shape tags
/// are not dispatched in this version of the schema, so their bodies
/// stay raw.
#[derive(Debug)]
pub struct ShapeGroup {
    pub blend_mode: BlendMode,
    pub anchor_point: Point,
    pub position: Point,
    pub scale: Point,
    pub skew: Float32,
    pub skew_axis: Float32,
    pub rotation: Float32,
    pub opacity: u8,
    pub tag_block: crate::tag::TagBlock,
}

/// A rectangle shape.  Data only.
#[derive(Debug, Clone, Copy, PartialEq, Eq, Structural)]
pub struct Rectangle {
    pub reversed: bool,
    pub size: Point,
    pub position: Point,
    pub roundness: Float32,
}

/// An ellipse shape.  Data only.
#[derive(Debug, Clone, Copy, PartialEq, Eq, Structural)]
pub struct Ellipse {
    pub reversed: bool,
    pub size: Point,
    pub position: Point,
}

/// A polystar shape.  Data only.
#[derive(Debug, Clone, Copy, PartialEq, Eq, Structural)]
pub struct PolyStar {
    pub reversed: bool,
    pub poly_type: u8,
    pub points: Float32,
    pub position: Point,
    pub rotate: Float32,
    pub inner_radius: Float32,
    pub outer_radius: Float32,
    pub inner_roundness: Float32,
    pub outer_roundness: Float32,
}

/// A free-form shape path.  Data only.
#[derive(Debug, Clone, Copy, PartialEq, Eq, Structural)]
pub struct ShapePath {
    pub shape_path: Path,
}

/// A fill modifier.  Data only.
#[derive(Debug, Clone, Copy, PartialEq, Eq, Structural)]
pub struct Fill {
    pub blend_mode: BlendMode,
    pub composite: CompositeOrder,
    pub fill_rule: FillRule,
    pub color: Color,
    pub opacity: u8,
}

/// A stroke modifier.  Data only.
#[derive(Debug, Clone, Copy, PartialEq, Eq, Structural)]
pub struct Stroke {
    pub blend_mode: BlendMode,
    pub line_cap: LineCap,
    pub line_join: LineJoin,
    pub miter_limit: Float32,
    pub color: Color,
    pub opacity: u8,
    pub stroke_width: Float32,
}

/// A gradient fill modifier.  Data only.
#[derive(Debug, Clone, PartialEq, Eq)]
pub struct GradientFill {
    pub blend_mode: BlendMode,
    pub composite: CompositeOrder,
    pub fill_rule: FillRule,
    pub fill_type: GradientFillType,
    pub start_point: Point,
    pub end_point: Point,
    pub colors: Vec<Color>,
    pub opacity: u8,
}

/// A merge-paths modifier.  Data only.
#[derive(Debug, Clone, Copy, PartialEq, Eq, Structural)]
pub struct MergePaths {
    pub mode: MergePathsMode,
}

/// A trim-paths modifier.  Data only.
#[derive(Debug, Clone, Copy, PartialEq, Eq, Structural)]
pub struct TrimPaths {
    pub start: Float32,
    pub end: Float32,
    pub offset: Float32,
    pub trim_type: TrimPathsType,
}

/// A round-corners modifier.  Data only.
#[derive(Debug, Clone, Copy, PartialEq, Eq, Structural)]
pub struct RoundCorners {
    pub radius: Float32,
}

/// A vector composition: an identifier and a nested tag block.
#[derive(Debug)]
pub struct VectorCompositionBlock {
    pub id: u32,
    pub tag_block: crate::tag::TagBlock,
}

impl VectorCompositionBlock {
    /// A varint id, then the nested block.
    #[verifier::rlimit(100)]
    #[verifier::spinoff_prover]
    pub fn parse(p: &mut SliceParser, ctx: crate::context::DefaultParseContext) -> (r: Result<
        VectorCompositionBlock,
        ParseError,
    >)
        ensures
            match r {
                Ok(v) => crate::tag::spec_vector_composition_block(old(p)@, ctx) matches Some(
                    (lv, n),
                ) && lv == (crate::tag::VectorCompositionBlockV {
                    id: v.id,
                    tag_block: crate::tag::tag_block_view(v.tag_block),
                }) && final(p)@ == old(p)@.skip(n as int),
                Err(e) => crate::tag::spec_vector_composition_block(old(p)@, ctx) is None,
            },
        decreases old(p)@.len(), 1int,
    {
        let ghost g0 = p@;
        let id = p.next_id()?;
        let ghost c1 = p@;
        let tag_block = crate::tag::TagBlock::parse(p, ctx)?;
        proof {
            match crate::wire::spec_varint_u32(g0) {
                None => {
                    assert(false);
                },
                Some((v2, n1)) => {
                    crate::wire::lemma_varint_rec_consumed(g0, 5);
                    assert(c1 == g0.skip(n1 as int));
                    crate::tag::lemma_tag_block_consumed(c1, ctx);
                    match crate::tag::spec_tag_block(c1, ctx) {
                        None => {},
                        Some((ts, m)) => {
                            assert(p@ == c1.skip(m as int));
                            crate::wire::lemma_skip_skip(g0, n1 as int, m as int);
                            assert(p@ == g0.skip((n1 + m) as int));
                        },
                    }
                },
            }
        }
        Ok(VectorCompositionBlock { id, tag_block })
    }
}

} // verus!
