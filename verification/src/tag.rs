//! Tag framing: the enumerated tag codes and the packed tag header.
//!
//! A tag header is one little-endian 16-bit word: the high 10 bits are
//! the code (truncated to a byte), the low 6 bits the body length.  A
//! low-bits value of 63 is an escape meaning a 32-bit little-endian
//! length follows.

use vstd::prelude::*;

use crate::base::{ByteData, LayerType, SolidColor, spec_step_solid_color};
use crate::context::{DefaultParseContext, MAX_DEPTH};
use crate::error::{BadFrameKind, ParseError};
use crate::file::{spec_step_file_attributes, FileAttributes};
use crate::image::{
    spec_step_image_bytes, spec_step_image_bytes_2, spec_step_image_bytes_3,
    spec_step_image_reference, spec_step_image_tables, ImageBytes, ImageBytes2, ImageBytes2V,
    ImageBytes3, ImageBytes3V, ImageBytesV, ImageReference, ImageTables, ImageTablesV,
};
use crate::layer::{
    spec_layer_attributes, spec_layer_attributes_extra, spec_step_composition_reference,
    spec_step_mask, CompositionReference, LayerAttributes, LayerAttributesExtra,
    LayerAttributesExtraV, LayerAttributesV, LayerBlock, Mask, Transform2D, spec_transform_2d,
};
use crate::parser::SliceParser;
use crate::shape::{
    spec_step_composition_attributes, CompositionAttributes, VectorCompositionBlock,
};
use crate::text::{
    spec_step_font_tables, spec_text_more_option, spec_text_path_option, spec_text_source,
    FontTables, FontTablesV, TextMoreOption, TextPathOption, TextSource, TextSourceV,
};
use crate::video::{spec_video_sequence, VideoCompositionBlock, VideoSequence, VideoSequenceV};
use crate::wire::{
    spec_step_u16, spec_step_u32, spec_step_u8, spec_step_varint_u32, spec_step_bool, spec_u16_le,
};

verus! {

/// The code naming a tag body's shape.  Codes the schema does not name
/// map to `Unknown` and their bodies are kept raw.
#[derive(Debug, Clone, Copy, Eq, PartialEq, Structural)]
pub enum TagCode {
    End,
    FontTables,
    VectorCompositionBlock,
    CompositionAttributes,
    ImageTables,
    LayerBlock,
    LayerAttributes,
    SolidColor,
    TextSource,
    DeprecatedTextPathOption,
    TextMoreOption,
    ImageReference,
    CompositionReference,
    Transform2D,
    Mask,
    ShapeGroup,
    Rectangle,
    Ellipse,
    PolyStar,
    ShapePath,
    Fill,
    Stroke,
    GradientFill,
    GradientStroke,
    MergePaths,
    TrimPaths,
    Repeater,
    RoundCorners,
    Performance,
    DropShadowStyle,
    CachePolicy,
    FileAttributes,
    TimeStretchMode,
    Mp4Header,
    BitmapCompositionBlock,
    BitmapSequence,
    ImageBytes,
    ImageBytes2,
    ImageBytes3,
    VideoCompositionBlock,
    VideoSequence,
    LayerAttributesV2,
    MarkerList,
    ImageFillRule,
    AudioBytes,
    MotionTileEffect,
    LevelsIndividualEffect,
    CornerPinEffect,
    BulgeEffect,
    FastBlurEffect,
    GlowEffect,
    LayerAttributesV3,
    LayerAttributesExtra,
    TextSourceV2,
    DropShadowStyleV2,
    DisplacementMapEffect,
    ImageFillRuleV2,
    TextSourceV3,
    TextPathOption,
    TextAnimator,
    TextRangeSelector,
    TextAnimatorPropertiesTrackingType,
    TextAnimatorPropertiesTrackingAmount,
    TextAnimatorPropertiesFillColor,
    TextAnimatorPropertiesStrokeColor,
    TextAnimatorPropertiesPosition,
    TextAnimatorPropertiesScale,
    TextAnimatorPropertiesRotation,
    TextAnimatorPropertiesOpacity,
    TextWigglySelector,
    RadialBlurEffect,
    MosaicEffect,
    EditableIndices,
    MaskBlockV2,
    GradientOverlayStyle,
    BrightnessContrastEffect,
    HueSaturationEffect,
    LayerAttributesExtraV2,
    EncryptedData,
    Transform3D,
    CameraOption,
    StrokeStyle,
    OuterGlowStyle,
    ImageScaleModes,
    Unknown(u8),
}

impl TagCode {
    /// The variant a wire byte stands for.
    pub open spec fn spec_from_u8(v: u8) -> TagCode {
        if v == 0 {
            TagCode::End
        } else if v == 1 {
            TagCode::FontTables
        } else if v == 2 {
            TagCode::VectorCompositionBlock
        } else if v == 3 {
            TagCode::CompositionAttributes
        } else if v == 4 {
            TagCode::ImageTables
        } else if v == 5 {
            TagCode::LayerBlock
        } else if v == 6 {
            TagCode::LayerAttributes
        } else if v == 7 {
            TagCode::SolidColor
        } else if v == 8 {
            TagCode::TextSource
        } else if v == 9 {
            TagCode::DeprecatedTextPathOption
        } else if v == 10 {
            TagCode::TextMoreOption
        } else if v == 11 {
            TagCode::ImageReference
        } else if v == 12 {
            TagCode::CompositionReference
        } else if v == 13 {
            TagCode::Transform2D
        } else if v == 14 {
            TagCode::Mask
        } else if v == 15 {
            TagCode::ShapeGroup
        } else if v == 16 {
            TagCode::Rectangle
        } else if v == 17 {
            TagCode::Ellipse
        } else if v == 18 {
            TagCode::PolyStar
        } else if v == 19 {
            TagCode::ShapePath
        } else if v == 20 {
            TagCode::Fill
        } else if v == 21 {
            TagCode::Stroke
        } else if v == 22 {
            TagCode::GradientFill
        } else if v == 23 {
            TagCode::GradientStroke
        } else if v == 24 {
            TagCode::MergePaths
        } else if v == 25 {
            TagCode::TrimPaths
        } else if v == 26 {
            TagCode::Repeater
        } else if v == 27 {
            TagCode::RoundCorners
        } else if v == 28 {
            TagCode::Performance
        } else if v == 29 {
            TagCode::DropShadowStyle
        } else if v == 30 {
            TagCode::CachePolicy
        } else if v == 31 {
            TagCode::FileAttributes
        } else if v == 32 {
            TagCode::TimeStretchMode
        } else if v == 33 {
            TagCode::Mp4Header
        } else if v == 45 {
            TagCode::BitmapCompositionBlock
        } else if v == 46 {
            TagCode::BitmapSequence
        } else if v == 47 {
            TagCode::ImageBytes
        } else if v == 48 {
            TagCode::ImageBytes2
        } else if v == 49 {
            TagCode::ImageBytes3
        } else if v == 50 {
            TagCode::VideoCompositionBlock
        } else if v == 51 {
            TagCode::VideoSequence
        } else if v == 52 {
            TagCode::LayerAttributesV2
        } else if v == 53 {
            TagCode::MarkerList
        } else if v == 54 {
            TagCode::ImageFillRule
        } else if v == 55 {
            TagCode::AudioBytes
        } else if v == 56 {
            TagCode::MotionTileEffect
        } else if v == 57 {
            TagCode::LevelsIndividualEffect
        } else if v == 58 {
            TagCode::CornerPinEffect
        } else if v == 59 {
            TagCode::BulgeEffect
        } else if v == 60 {
            TagCode::FastBlurEffect
        } else if v == 61 {
            TagCode::GlowEffect
        } else if v == 62 {
            TagCode::LayerAttributesV3
        } else if v == 63 {
            TagCode::LayerAttributesExtra
        } else if v == 64 {
            TagCode::TextSourceV2
        } else if v == 65 {
            TagCode::DropShadowStyleV2
        } else if v == 66 {
            TagCode::DisplacementMapEffect
        } else if v == 67 {
            TagCode::ImageFillRuleV2
        } else if v == 68 {
            TagCode::TextSourceV3
        } else if v == 69 {
            TagCode::TextPathOption
        } else if v == 70 {
            TagCode::TextAnimator
        } else if v == 71 {
            TagCode::TextRangeSelector
        } else if v == 72 {
            TagCode::TextAnimatorPropertiesTrackingType
        } else if v == 73 {
            TagCode::TextAnimatorPropertiesTrackingAmount
        } else if v == 74 {
            TagCode::TextAnimatorPropertiesFillColor
        } else if v == 75 {
            TagCode::TextAnimatorPropertiesStrokeColor
        } else if v == 76 {
            TagCode::TextAnimatorPropertiesPosition
        } else if v == 77 {
            TagCode::TextAnimatorPropertiesScale
        } else if v == 78 {
            TagCode::TextAnimatorPropertiesRotation
        } else if v == 79 {
            TagCode::TextAnimatorPropertiesOpacity
        } else if v == 80 {
            TagCode::TextWigglySelector
        } else if v == 81 {
            TagCode::RadialBlurEffect
        } else if v == 82 {
            TagCode::MosaicEffect
        } else if v == 83 {
            TagCode::EditableIndices
        } else if v == 84 {
            TagCode::MaskBlockV2
        } else if v == 85 {
            TagCode::GradientOverlayStyle
        } else if v == 86 {
            TagCode::BrightnessContrastEffect
        } else if v == 87 {
            TagCode::HueSaturationEffect
        } else if v == 88 {
            TagCode::LayerAttributesExtraV2
        } else if v == 89 {
            TagCode::EncryptedData
        } else if v == 90 {
            TagCode::Transform3D
        } else if v == 91 {
            TagCode::CameraOption
        } else if v == 92 {
            TagCode::StrokeStyle
        } else if v == 93 {
            TagCode::OuterGlowStyle
        } else if v == 94 {
            TagCode::ImageScaleModes
        } else {
            TagCode::Unknown(v)
        }
    }

    /// Exec form of [`TagCode::spec_from_u8`].
    pub fn from_u8(v: u8) -> (r: TagCode)
        ensures
            r == TagCode::spec_from_u8(v),
    {
        if v == 0 {
            TagCode::End
        } else if v == 1 {
            TagCode::FontTables
        } else if v == 2 {
            TagCode::VectorCompositionBlock
        } else if v == 3 {
            TagCode::CompositionAttributes
        } else if v == 4 {
            TagCode::ImageTables
        } else if v == 5 {
            TagCode::LayerBlock
        } else if v == 6 {
            TagCode::LayerAttributes
        } else if v == 7 {
            TagCode::SolidColor
        } else if v == 8 {
            TagCode::TextSource
        } else if v == 9 {
            TagCode::DeprecatedTextPathOption
        } else if v == 10 {
            TagCode::TextMoreOption
        } else if v == 11 {
            TagCode::ImageReference
        } else if v == 12 {
            TagCode::CompositionReference
        } else if v == 13 {
            TagCode::Transform2D
        } else if v == 14 {
            TagCode::Mask
        } else if v == 15 {
            TagCode::ShapeGroup
        } else if v == 16 {
            TagCode::Rectangle
        } else if v == 17 {
            TagCode::Ellipse
        } else if v == 18 {
            TagCode::PolyStar
        } else if v == 19 {
            TagCode::ShapePath
        } else if v == 20 {
            TagCode::Fill
        } else if v == 21 {
            TagCode::Stroke
        } else if v == 22 {
            TagCode::GradientFill
        } else if v == 23 {
            TagCode::GradientStroke
        } else if v == 24 {
            TagCode::MergePaths
        } else if v == 25 {
            TagCode::TrimPaths
        } else if v == 26 {
            TagCode::Repeater
        } else if v == 27 {
            TagCode::RoundCorners
        } else if v == 28 {
            TagCode::Performance
        } else if v == 29 {
            TagCode::DropShadowStyle
        } else if v == 30 {
            TagCode::CachePolicy
        } else if v == 31 {
            TagCode::FileAttributes
        } else if v == 32 {
            TagCode::TimeStretchMode
        } else if v == 33 {
            TagCode::Mp4Header
        } else if v == 45 {
            TagCode::BitmapCompositionBlock
        } else if v == 46 {
            TagCode::BitmapSequence
        } else if v == 47 {
            TagCode::ImageBytes
        } else if v == 48 {
            TagCode::ImageBytes2
        } else if v == 49 {
            TagCode::ImageBytes3
        } else if v == 50 {
            TagCode::VideoCompositionBlock
        } else if v == 51 {
            TagCode::VideoSequence
        } else if v == 52 {
            TagCode::LayerAttributesV2
        } else if v == 53 {
            TagCode::MarkerList
        } else if v == 54 {
            TagCode::ImageFillRule
        } else if v == 55 {
            TagCode::AudioBytes
        } else if v == 56 {
            TagCode::MotionTileEffect
        } else if v == 57 {
            TagCode::LevelsIndividualEffect
        } else if v == 58 {
            TagCode::CornerPinEffect
        } else if v == 59 {
            TagCode::BulgeEffect
        } else if v == 60 {
            TagCode::FastBlurEffect
        } else if v == 61 {
            TagCode::GlowEffect
        } else if v == 62 {
            TagCode::LayerAttributesV3
        } else if v == 63 {
            TagCode::LayerAttributesExtra
        } else if v == 64 {
            TagCode::TextSourceV2
        } else if v == 65 {
            TagCode::DropShadowStyleV2
        } else if v == 66 {
            TagCode::DisplacementMapEffect
        } else if v == 67 {
            TagCode::ImageFillRuleV2
        } else if v == 68 {
            TagCode::TextSourceV3
        } else if v == 69 {
            TagCode::TextPathOption
        } else if v == 70 {
            TagCode::TextAnimator
        } else if v == 71 {
            TagCode::TextRangeSelector
        } else if v == 72 {
            TagCode::TextAnimatorPropertiesTrackingType
        } else if v == 73 {
            TagCode::TextAnimatorPropertiesTrackingAmount
        } else if v == 74 {
            TagCode::TextAnimatorPropertiesFillColor
        } else if v == 75 {
            TagCode::TextAnimatorPropertiesStrokeColor
        } else if v == 76 {
            TagCode::TextAnimatorPropertiesPosition
        } else if v == 77 {
            TagCode::TextAnimatorPropertiesScale
        } else if v == 78 {
            TagCode::TextAnimatorPropertiesRotation
        } else if v == 79 {
            TagCode::TextAnimatorPropertiesOpacity
        } else if v == 80 {
            TagCode::TextWigglySelector
        } else if v == 81 {
            TagCode::RadialBlurEffect
        } else if v == 82 {
            TagCode::MosaicEffect
        } else if v == 83 {
            TagCode::EditableIndices
        } else if v == 84 {
            TagCode::MaskBlockV2
        } else if v == 85 {
            TagCode::GradientOverlayStyle
        } else if v == 86 {
            TagCode::BrightnessContrastEffect
        } else if v == 87 {
            TagCode::HueSaturationEffect
        } else if v == 88 {
            TagCode::LayerAttributesExtraV2
        } else if v == 89 {
            TagCode::EncryptedData
        } else if v == 90 {
            TagCode::Transform3D
        } else if v == 91 {
            TagCode::CameraOption
        } else if v == 92 {
            TagCode::StrokeStyle
        } else if v == 93 {
            TagCode::OuterGlowStyle
        } else if v == 94 {
            TagCode::ImageScaleModes
        } else {
            TagCode::Unknown(v)
        }
    }
}

/// A tag's code and the byte length of its body.
#[derive(Debug, Clone, Copy, Eq, PartialEq, Structural)]
pub struct TagHeader {
    pub code: TagCode,
    pub length: u32,
}

/// Marks the end of a tag block; it carries no payload of its own.
#[derive(Debug, Clone, Copy, Eq, PartialEq, Structural)]
pub struct TagEnd {}

/// The header read from the front of a cursor: the packed 16-bit word,
/// and the escape length where the packed length is 63.  The result
/// carries the header and the bytes consumed (2 or 6).
pub open spec fn spec_tag_header(c: Seq<u8>) -> Option<(TagHeader, nat)> {
    let (w, c1) = spec_step_u16(c);
    match w {
        None => None,
        Some(word) => {
            let code = TagCode::spec_from_u8(((word / 64) % 256) as u8);
            let short = word % 64;
            if short == 63 {
                let (l, c2) = spec_step_u32(c1);
                match l {
                    None => None,
                    Some(len) => Some((TagHeader { code, length: len }, 6)),
                }
            } else {
                Some((TagHeader { code, length: short as u32 }, 2))
            }
        },
    }
}

impl TagHeader {
    /// One packed word, then the escape length if the packed length was
    /// 63.
    pub fn parse(p: &mut SliceParser) -> (r: Result<TagHeader, ParseError>)
        ensures
            match r {
                Ok(h) => spec_tag_header(old(p)@) matches Some((h2, n)) && h == h2 && final(p)@
                    == old(p)@.skip(n as int),
                Err(e) => {
                    &&& spec_tag_header(old(p)@) is None
                    &&& if old(p)@.len() < 2 {
                        e == ParseError::Incomplete((2 - old(p)@.len()) as usize) && final(p)@
                            == old(p)@
                    } else {
                        e == ParseError::Incomplete((6 - old(p)@.len()) as usize) && final(p)@
                            == old(p)@.skip(2)
                    }
                },
            },
    {
        let word = p.next_u16()?;
        let code_byte = ((word / 64) % 256) as u8;
        let short = word % 64;
        let length: u32 = if short == 63 {
            p.next_u32()?
        } else {
            short as u32
        };
        Ok(TagHeader { code: TagCode::from_u8(code_byte), length })
    }
}


/// The ghost value of a [`crate::layer::LayerBlock`].
pub struct LayerBlockV {
    pub layer_type: LayerType,
    pub id: u32,
    pub tag_block: Seq<TagV>,
}

/// The ghost value of a [`crate::shape::VectorCompositionBlock`].
pub struct VectorCompositionBlockV {
    pub id: u32,
    pub tag_block: Seq<TagV>,
}

/// The ghost value of a [`crate::video::VideoCompositionBlock`].
pub struct VideoCompositionBlockV {
    pub id: u32,
    pub has_alpha: bool,
    pub tag_block: Seq<TagV>,
}

/// The ghost value of a [`Tag`].
pub struct TagV {
    pub header: TagHeader,
    pub body: TagBodyV,
}

/// The ghost value of a [`TagBody`].
pub enum TagBodyV {
    End,
    FontTables(FontTablesV),
    VectorCompositionBlock(VectorCompositionBlockV),
    CompositionAttributes(CompositionAttributes),
    ImageTables(ImageTablesV),
    LayerBlock(LayerBlockV),
    LayerAttributes(LayerAttributesV),
    SolidColor(SolidColor),
    TextSource(TextSourceV),
    TextPathOption(TextPathOption),
    TextMoreOption(TextMoreOption),
    ImageReference(ImageReference),
    CompositionReference(CompositionReference),
    Transform2D(Transform2D),
    Mask(Mask),
    FileAttributes(crate::file::FileAttributesV),
    ImageBytes(ImageBytesV),
    ImageBytes2(ImageBytes2V),
    ImageBytes3(ImageBytes3V),
    VideoCompositionBlock(VideoCompositionBlockV),
    VideoSequence(VideoSequenceV),
    LayerAttributesV2(LayerAttributesV),
    LayerAttributesV3(LayerAttributesV),
    LayerAttributesExtra(LayerAttributesExtraV),
    Raw(Seq<u8>),
}

/// One framed unit of the file: a header and the decoded body.
#[derive(Debug)]
pub struct Tag {
    pub header: TagHeader,
    pub body: TagBody,
}

/// The decoded body of a tag: one variant per dispatched code, plus the
/// raw bytes of every unrecognized or undispatched code.
#[derive(Debug)]
pub enum TagBody {
    End,
    FontTables(FontTables),
    VectorCompositionBlock(VectorCompositionBlock),
    CompositionAttributes(CompositionAttributes),
    ImageTables(ImageTables),
    LayerBlock(LayerBlock),
    LayerAttributes(LayerAttributes),
    SolidColor(SolidColor),
    TextSource(TextSource),
    TextPathOption(TextPathOption),
    TextMoreOption(TextMoreOption),
    ImageReference(ImageReference),
    CompositionReference(CompositionReference),
    Transform2D(Transform2D),
    Mask(Mask),
    FileAttributes(FileAttributes),
    ImageBytes(ImageBytes),
    ImageBytes2(ImageBytes2),
    ImageBytes3(ImageBytes3),
    VideoCompositionBlock(VideoCompositionBlock),
    VideoSequence(VideoSequence),
    LayerAttributesV2(LayerAttributes),
    LayerAttributesV3(LayerAttributes),
    LayerAttributesExtra(LayerAttributesExtra),
    Raw(ByteData),
}

/// An ordered run of tags, as held by a composition; the terminating
/// `End` tag is consumed but not retained.
#[derive(Debug, Default)]
pub struct TagBlock {
    pub tags: Vec<Tag>,
}

/// The ghost value of a [`Tag`].
pub open spec fn tag_view(t: Tag) -> TagV
    decreases t, 0int,
{
    TagV { header: t.header, body: tag_body_view(t.body) }
}

/// The ghost value of a [`TagBody`].
pub open spec fn tag_body_view(b: TagBody) -> TagBodyV
    decreases b, 0int,
{
    match b {
        TagBody::End => TagBodyV::End,
        TagBody::FontTables(v) => TagBodyV::FontTables(v@),
        TagBody::VectorCompositionBlock(v) => TagBodyV::VectorCompositionBlock(
            VectorCompositionBlockV { id: v.id, tag_block: tags_view_from(v.tag_block.tags@, 0) },
        ),
        TagBody::CompositionAttributes(v) => TagBodyV::CompositionAttributes(v),
        TagBody::ImageTables(v) => TagBodyV::ImageTables(v@),
        TagBody::LayerBlock(v) => TagBodyV::LayerBlock(
            LayerBlockV {
                layer_type: v.layer_type,
                id: v.id,
                tag_block: tags_view_from(v.tag_block.tags@, 0),
            },
        ),
        TagBody::LayerAttributes(v) => TagBodyV::LayerAttributes(v@),
        TagBody::SolidColor(v) => TagBodyV::SolidColor(v),
        TagBody::TextSource(v) => TagBodyV::TextSource(v@),
        TagBody::TextPathOption(v) => TagBodyV::TextPathOption(v),
        TagBody::TextMoreOption(v) => TagBodyV::TextMoreOption(v),
        TagBody::ImageReference(v) => TagBodyV::ImageReference(v),
        TagBody::CompositionReference(v) => TagBodyV::CompositionReference(v),
        TagBody::Transform2D(v) => TagBodyV::Transform2D(v),
        TagBody::Mask(v) => TagBodyV::Mask(v),
        TagBody::FileAttributes(v) => TagBodyV::FileAttributes(v@),
        TagBody::ImageBytes(v) => TagBodyV::ImageBytes(v@),
        TagBody::ImageBytes2(v) => TagBodyV::ImageBytes2(v@),
        TagBody::ImageBytes3(v) => TagBodyV::ImageBytes3(v@),
        TagBody::VideoCompositionBlock(v) => TagBodyV::VideoCompositionBlock(
            VideoCompositionBlockV {
                id: v.id,
                has_alpha: v.has_alpha,
                tag_block: tags_view_from(v.tag_block.tags@, 0),
            },
        ),
        TagBody::VideoSequence(v) => TagBodyV::VideoSequence(v@),
        TagBody::LayerAttributesV2(v) => TagBodyV::LayerAttributesV2(v@),
        TagBody::LayerAttributesV3(v) => TagBodyV::LayerAttributesV3(v@),
        TagBody::LayerAttributesExtra(v) => TagBodyV::LayerAttributesExtra(v@),
        TagBody::Raw(v) => TagBodyV::Raw(v@),
    }
}

/// The ghost values of the tags of `ts` from index `i` on.
pub open spec fn tags_view_from(ts: Seq<Tag>, i: int) -> Seq<TagV>
    decreases ts, ts.len() - i,
{
    if i < 0 || i >= ts.len() {
        Seq::empty()
    } else {
        seq![tag_view(ts[i])] + tags_view_from(ts, i + 1)
    }
}

/// The ghost value of a [`TagBlock`].
pub open spec fn tag_block_view(b: TagBlock) -> Seq<TagV> {
    tags_view_from(b.tags@, 0)
}

/// Appending a tag appends its ghost value.
pub proof fn lemma_tags_view_push(ts: Seq<Tag>, t: Tag, i: int)
    requires
        0 <= i <= ts.len(),
    ensures
        tags_view_from(ts.push(t), i) == tags_view_from(ts, i) + seq![tag_view(t)],
    decreases ts.len() - i,
{
    if i == ts.len() {
        assert(ts.push(t)[i] == t);
        assert(tags_view_from(ts.push(t), i + 1) =~= Seq::<TagV>::empty());
        assert(tags_view_from(ts, i) =~= Seq::<TagV>::empty());
        assert(seq![tag_view(t)] + Seq::<TagV>::empty() =~= seq![tag_view(t)]);
        assert(Seq::<TagV>::empty() + seq![tag_view(t)] =~= seq![tag_view(t)]);
    } else {
        lemma_tags_view_push(ts, t, i + 1);
        assert(ts.push(t)[i] == ts[i]);
        assert((seq![tag_view(ts[i])] + tags_view_from(ts, i + 1)) + seq![tag_view(t)]
            =~= seq![tag_view(ts[i])] + (tags_view_from(ts, i + 1) + seq![tag_view(t)]));
    }
}

/// The tag read from the front of `s` under context `ctx`: the header,
/// then a body window of exactly the declared length, decoded per the
/// code with the tag's own code pushed as the parent and the nesting
/// depth grown by one.  `None` covers every failure: a depth fault, a
/// short buffer, or a body that does not decode.
pub open spec fn spec_tag(s: Seq<u8>, ctx: DefaultParseContext) -> Option<(TagV, nat)>
    decreases s.len(), 1int,
{
    if ctx.depth >= MAX_DEPTH {
        None
    } else {
        match spec_tag_header(s) {
            None => None,
            Some((h, hc)) => {
                if s.len() < hc + h.length {
                    None
                } else {
                    let w = s.subrange(hc as int, (hc + h.length) as int);
                    let bctx = DefaultParseContext {
                        parent_code: Some(h.code),
                        depth: (ctx.depth + 1) as u32,
                        ..ctx
                    };
                    match spec_tag_body(h.code, w, bctx) {
                        None => None,
                        Some(bv) => Some((TagV { header: h, body: bv }, (hc + h.length) as nat)),
                    }
                }
            },
        }
    }
}

/// The body window `w`, decoded per `code` under the already-descended
/// context `ctx`.  Codes outside the dispatch table keep their window
/// verbatim as a raw body.
#[verifier::opaque]
pub open spec fn spec_tag_body(code: TagCode, w: Seq<u8>, ctx: DefaultParseContext) -> Option<
    TagBodyV,
>
    decreases w.len(), 4int,
{
    match code {
        TagCode::End => Some(TagBodyV::End),
        TagCode::FontTables => match spec_step_font_tables(w).0 {
            Some(v) => Some(TagBodyV::FontTables(v)),
            None => None,
        },
        TagCode::VectorCompositionBlock => match spec_vector_composition_block(w, ctx) {
            Some((v, n)) => Some(TagBodyV::VectorCompositionBlock(v)),
            None => None,
        },
        TagCode::CompositionAttributes => match spec_step_composition_attributes(w).0 {
            Some(v) => Some(TagBodyV::CompositionAttributes(v)),
            None => None,
        },
        TagCode::ImageTables => match spec_step_image_tables(w).0 {
            Some(v) => Some(TagBodyV::ImageTables(v)),
            None => None,
        },
        TagCode::LayerBlock => match spec_layer_block(w, ctx) {
            Some((v, n)) => Some(TagBodyV::LayerBlock(v)),
            None => None,
        },
        TagCode::LayerAttributes => match spec_layer_attributes(w, ctx.parent_code, ctx.layer_type) {
            Ok(v) => Some(TagBodyV::LayerAttributes(v)),
            Err(_) => None,
        },
        TagCode::SolidColor => match spec_step_solid_color(w).0 {
            Some(v) => Some(TagBodyV::SolidColor(v)),
            None => None,
        },
        TagCode::TextSource => match spec_text_source(w) {
            Ok(v) => Some(TagBodyV::TextSource(v)),
            Err(_) => None,
        },
        TagCode::DeprecatedTextPathOption => match spec_text_path_option(w) {
            Ok(v) => Some(TagBodyV::TextPathOption(v)),
            Err(_) => None,
        },
        TagCode::TextMoreOption => match spec_text_more_option(w) {
            Ok(v) => Some(TagBodyV::TextMoreOption(v)),
            Err(_) => None,
        },
        TagCode::ImageReference => match spec_step_image_reference(w).0 {
            Some(v) => Some(TagBodyV::ImageReference(v)),
            None => None,
        },
        TagCode::CompositionReference => match spec_step_composition_reference(w).0 {
            Some(v) => Some(TagBodyV::CompositionReference(v)),
            None => None,
        },
        TagCode::Transform2D => match spec_transform_2d(w) {
            Ok(v) => Some(TagBodyV::Transform2D(v)),
            Err(_) => None,
        },
        TagCode::Mask => match spec_step_mask(w).0 {
            Some(v) => Some(TagBodyV::Mask(v)),
            None => None,
        },
        TagCode::FileAttributes => match spec_step_file_attributes(w).0 {
            Some(v) => Some(TagBodyV::FileAttributes(v)),
            None => None,
        },
        TagCode::ImageBytes => match spec_step_image_bytes(w).0 {
            Some(v) => Some(TagBodyV::ImageBytes(v)),
            None => None,
        },
        TagCode::ImageBytes2 => match spec_step_image_bytes_2(w).0 {
            Some(v) => Some(TagBodyV::ImageBytes2(v)),
            None => None,
        },
        TagCode::ImageBytes3 => match spec_step_image_bytes_3(w).0 {
            Some(v) => Some(TagBodyV::ImageBytes3(v)),
            None => None,
        },
        TagCode::VideoCompositionBlock => match spec_video_composition_block(w, ctx) {
            Some((v, n)) => Some(TagBodyV::VideoCompositionBlock(v)),
            None => None,
        },
        TagCode::VideoSequence => match spec_video_sequence(w, ctx.has_alpha).0 {
            Some(v) => Some(TagBodyV::VideoSequence(v)),
            None => None,
        },
        TagCode::LayerAttributesV2 => match spec_layer_attributes(
            w,
            ctx.parent_code,
            ctx.layer_type,
        ) {
            Ok(v) => Some(TagBodyV::LayerAttributesV2(v)),
            Err(_) => None,
        },
        TagCode::LayerAttributesV3 => match spec_layer_attributes(
            w,
            ctx.parent_code,
            ctx.layer_type,
        ) {
            Ok(v) => Some(TagBodyV::LayerAttributesV3(v)),
            Err(_) => None,
        },
        TagCode::LayerAttributesExtra => match spec_layer_attributes_extra(w, ctx.layer_type) {
            Ok(v) => Some(TagBodyV::LayerAttributesExtra(v)),
            Err(_) => None,
        },
        TagCode::TextPathOption => match spec_text_path_option(w) {
            Ok(v) => Some(TagBodyV::TextPathOption(v)),
            Err(_) => None,
        },
        _ => Some(TagBodyV::Raw(w)),
    }
}

/// The run of tags read from the front of `s` up to and including an
/// `End` tag, which is consumed but not kept.
pub open spec fn spec_tag_block(s: Seq<u8>, ctx: DefaultParseContext) -> Option<(Seq<TagV>, nat)>
    decreases s.len(), 2int,
{
    match spec_tag(s, ctx) {
        None => None,
        Some((t, n)) => {
            if t.header.code == TagCode::End {
                Some((Seq::empty(), n))
            } else if 1 <= n <= s.len() {
                match spec_tag_block(s.skip(n as int), ctx) {
                    None => None,
                    Some((ts, m)) => Some((seq![t] + ts, n + m)),
                }
            } else {
                None
            }
        },
    }
}

/// A layer block: a layer-type byte, a varint id, and a nested tag
/// block decoded with the layer type pushed into the context.
pub open spec fn spec_layer_block(s: Seq<u8>, ctx: DefaultParseContext) -> Option<
    (LayerBlockV, nat),
>
    decreases s.len(), 3int,
{
    let (t, c1) = spec_step_u8(s);
    match t {
        None => None,
        Some(tb) => {
            let lt = LayerType::spec_from_u8(tb);
            let (i, c2) = spec_step_varint_u32(c1);
            match i {
                None => None,
                Some(id) => {
                    if c2.len() < s.len() {
                        match spec_tag_block(
                            c2,
                            DefaultParseContext { layer_type: Some(lt), ..ctx },
                        ) {
                            None => None,
                            Some((ts, m)) => Some(
                                (
                                    LayerBlockV { layer_type: lt, id, tag_block: ts },
                                    ((s.len() - c2.len()) + m) as nat,
                                ),
                            ),
                        }
                    } else {
                        None
                    }
                },
            }
        },
    }
}

/// A vector composition: a varint id and a nested tag block.
pub open spec fn spec_vector_composition_block(s: Seq<u8>, ctx: DefaultParseContext) -> Option<
    (VectorCompositionBlockV, nat),
>
    decreases s.len(), 3int,
{
    let (i, c1) = spec_step_varint_u32(s);
    match i {
        None => None,
        Some(id) => {
            if c1.len() < s.len() {
                match spec_tag_block(c1, ctx) {
                    None => None,
                    Some((ts, m)) => Some(
                        (
                            VectorCompositionBlockV { id, tag_block: ts },
                            ((s.len() - c1.len()) + m) as nat,
                        ),
                    ),
                }
            } else {
                None
            }
        },
    }
}

/// A video composition: a varint id, an alpha flag, and a nested tag
/// block decoded with the alpha flag pushed into the context.
pub open spec fn spec_video_composition_block(s: Seq<u8>, ctx: DefaultParseContext) -> Option<
    (VideoCompositionBlockV, nat),
>
    decreases s.len(), 3int,
{
    let (i, c1) = spec_step_varint_u32(s);
    match i {
        None => None,
        Some(id) => {
            let (a, c2) = spec_step_bool(c1);
            match a {
                None => None,
                Some(has_alpha) => {
                    if c2.len() < s.len() {
                        match spec_tag_block(c2, DefaultParseContext { has_alpha, ..ctx }) {
                            None => None,
                            Some((ts, m)) => Some(
                                (
                                    VideoCompositionBlockV { id, has_alpha, tag_block: ts },
                                    ((s.len() - c2.len()) + m) as nat,
                                ),
                            ),
                        }
                    } else {
                        None
                    }
                },
            }
        },
    }
}

impl Tag {
    /// True of the `End` marker.
    pub fn is_empty(&self) -> (r: bool)
        ensures
            r == (self.header.code == TagCode::End),
    {
        matches!(self.header.code, TagCode::End)
    }

    /// One whole tag: the header, then a body window of exactly the
    /// declared length, dispatched on the code.  After success the
    /// cursor stands exactly `2 + (4 where the packed length was the
    /// escape) + length` bytes further on; unread window bytes are
    /// discarded.
    #[verifier::rlimit(100)]
    #[verifier::spinoff_prover]
    pub fn parse(p: &mut SliceParser, ctx: DefaultParseContext) -> (r: Result<Tag, ParseError>)
        ensures
            match r {
                Ok(t) => {
                    &&& spec_tag(old(p)@, ctx) matches Some((tv, n)) && tag_view(t) == tv
                        && final(p)@ == old(p)@.skip(n as int)
                    &&& final(p)@.len() <= old(p)@.len() - 2
                },
                Err(e) => spec_tag(old(p)@, ctx) is None,
            },
        decreases old(p)@.len(), 3int,
    {
        if ctx.depth >= MAX_DEPTH {
            return Err(ParseError::BadFrame(BadFrameKind::DepthLimit));
        }
        let ghost s = p@;
        let header = TagHeader::parse(p)?;
        let ghost hc = (s.len() - p@.len()) as nat;
        let mut body_cursor = p.new_slice(header.length as usize)?;
        proof {
            assert(body_cursor@ =~= s.subrange(hc as int, (hc + header.length) as int));
            assert(p@ =~= s.skip((hc + header.length) as int));
        }
        let bctx = ctx.descend(header.code);
        let body = Self::parse_body(header.code, &mut body_cursor, bctx)?;
        Ok(Tag { header, body })
    }

    /// The dispatch table: a total map from code to body decoder, with
    /// unrecognized and undispatched codes kept raw.
    #[verifier::rlimit(100)]
    #[verifier::spinoff_prover]
    pub fn parse_body(code: TagCode, p: &mut SliceParser, ctx: DefaultParseContext) -> (r: Result<
        TagBody,
        ParseError,
    >)
        requires
            old(p)@.len() <= u32::MAX,
        ensures
            match r {
                Ok(b) => spec_tag_body(code, old(p)@, ctx) == Some(tag_body_view(b)),
                Err(e) => spec_tag_body(code, old(p)@, ctx) is None,
            },
        decreases old(p)@.len(), 2int,
    {
        proof {
            reveal(spec_tag_body);
        }
        match code {
            TagCode::End => Ok(TagBody::End),
            TagCode::VectorCompositionBlock => Ok(
                TagBody::VectorCompositionBlock(VectorCompositionBlock::parse(p, ctx)?),
            ),
            TagCode::LayerBlock => Ok(TagBody::LayerBlock(LayerBlock::parse(p, ctx)?)),
            TagCode::VideoCompositionBlock => Ok(
                TagBody::VideoCompositionBlock(VideoCompositionBlock::parse(p, ctx)?),
            ),
            _ => Self::parse_body_flat(code, p, ctx),
        }
    }

    /// The non-recursive half of the dispatch table.
    #[verifier::rlimit(100)]
    #[verifier::spinoff_prover]
    fn parse_body_flat(code: TagCode, p: &mut SliceParser, ctx: DefaultParseContext) -> (r: Result<
        TagBody,
        ParseError,
    >)
        requires
            !(code matches TagCode::End),
            !(code matches TagCode::VectorCompositionBlock),
            !(code matches TagCode::LayerBlock),
            !(code matches TagCode::VideoCompositionBlock),
            old(p)@.len() <= u32::MAX,
        ensures
            match r {
                Ok(b) => spec_tag_body(code, old(p)@, ctx) == Some(tag_body_view(b)),
                Err(e) => spec_tag_body(code, old(p)@, ctx) is None,
            },
    {
        proof {
            reveal(spec_tag_body);
        }
        match code {
            TagCode::FontTables => Ok(TagBody::FontTables(FontTables::parse(p)?)),
            TagCode::CompositionAttributes => Ok(
                TagBody::CompositionAttributes(CompositionAttributes::parse(p)?),
            ),
            TagCode::ImageTables => Ok(TagBody::ImageTables(ImageTables::parse(p)?)),
            TagCode::LayerAttributes => Ok(
                TagBody::LayerAttributes(LayerAttributes::parse(p, ctx)?),
            ),
            TagCode::SolidColor => Ok(TagBody::SolidColor(SolidColor::parse(p)?)),
            TagCode::TextSource => Ok(TagBody::TextSource(TextSource::parse(p)?)),
            TagCode::DeprecatedTextPathOption => Ok(
                TagBody::TextPathOption(TextPathOption::parse(p)?),
            ),
            TagCode::TextMoreOption => Ok(TagBody::TextMoreOption(TextMoreOption::parse(p)?)),
            TagCode::ImageReference => Ok(TagBody::ImageReference(ImageReference::parse(p)?)),
            TagCode::CompositionReference => Ok(
                TagBody::CompositionReference(CompositionReference::parse(p)?),
            ),
            TagCode::Transform2D => Ok(TagBody::Transform2D(Transform2D::parse(p)?)),
            TagCode::Mask => Ok(TagBody::Mask(Mask::parse(p)?)),
            _ => Self::parse_body_rest(code, p, ctx),
        }
    }

    /// The tail of the dispatch table: file attributes, media bytes,
    /// sequences, layer-attribute versions, and the raw fallback.
    #[verifier::rlimit(100)]
    #[verifier::spinoff_prover]
    fn parse_body_rest(code: TagCode, p: &mut SliceParser, ctx: DefaultParseContext) -> (r: Result<
        TagBody,
        ParseError,
    >)
        requires
            !(code matches TagCode::End),
            !(code matches TagCode::VectorCompositionBlock),
            !(code matches TagCode::LayerBlock),
            !(code matches TagCode::VideoCompositionBlock),
            !(code matches TagCode::FontTables),
            !(code matches TagCode::CompositionAttributes),
            !(code matches TagCode::ImageTables),
            !(code matches TagCode::LayerAttributes),
            !(code matches TagCode::SolidColor),
            !(code matches TagCode::TextSource),
            !(code matches TagCode::DeprecatedTextPathOption),
            !(code matches TagCode::TextMoreOption),
            !(code matches TagCode::ImageReference),
            !(code matches TagCode::CompositionReference),
            !(code matches TagCode::Transform2D),
            !(code matches TagCode::Mask),
            old(p)@.len() <= u32::MAX,
        ensures
            match r {
                Ok(b) => spec_tag_body(code, old(p)@, ctx) == Some(tag_body_view(b)),
                Err(e) => spec_tag_body(code, old(p)@, ctx) is None,
            },
    {
        proof {
            reveal(spec_tag_body);
        }
        match code {
            TagCode::FileAttributes => Ok(TagBody::FileAttributes(FileAttributes::parse(p)?)),
            TagCode::ImageBytes => Ok(TagBody::ImageBytes(ImageBytes::parse(p)?)),
            TagCode::ImageBytes2 => Ok(TagBody::ImageBytes2(ImageBytes2::parse(p)?)),
            TagCode::ImageBytes3 => Ok(TagBody::ImageBytes3(ImageBytes3::parse(p)?)),
            TagCode::VideoSequence => Ok(
                TagBody::VideoSequence(VideoSequence::parse(p, ctx.has_alpha())?),
            ),
            _ => Self::parse_body_last(code, p, ctx),
        }
    }

    /// The last stretch of the dispatch table: the layer-attribute
    /// versions, path options, and the raw fallback.
    #[verifier::rlimit(100)]
    #[verifier::spinoff_prover]
    fn parse_body_last(code: TagCode, p: &mut SliceParser, ctx: DefaultParseContext) -> (r: Result<
        TagBody,
        ParseError,
    >)
        requires
            !(code matches TagCode::End),
            !(code matches TagCode::VectorCompositionBlock),
            !(code matches TagCode::LayerBlock),
            !(code matches TagCode::VideoCompositionBlock),
            !(code matches TagCode::FontTables),
            !(code matches TagCode::CompositionAttributes),
            !(code matches TagCode::ImageTables),
            !(code matches TagCode::LayerAttributes),
            !(code matches TagCode::SolidColor),
            !(code matches TagCode::TextSource),
            !(code matches TagCode::DeprecatedTextPathOption),
            !(code matches TagCode::TextMoreOption),
            !(code matches TagCode::ImageReference),
            !(code matches TagCode::CompositionReference),
            !(code matches TagCode::Transform2D),
            !(code matches TagCode::Mask),
            !(code matches TagCode::FileAttributes),
            !(code matches TagCode::ImageBytes),
            !(code matches TagCode::ImageBytes2),
            !(code matches TagCode::ImageBytes3),
            !(code matches TagCode::VideoSequence),
            old(p)@.len() <= u32::MAX,
        ensures
            match r {
                Ok(b) => spec_tag_body(code, old(p)@, ctx) == Some(tag_body_view(b)),
                Err(e) => spec_tag_body(code, old(p)@, ctx) is None,
            },
    {
        proof {
            reveal(spec_tag_body);
        }
        match code {
            TagCode::LayerAttributesV2 => Ok(
                TagBody::LayerAttributesV2(LayerAttributes::parse(p, ctx)?),
            ),
            TagCode::LayerAttributesV3 => Ok(
                TagBody::LayerAttributesV3(LayerAttributes::parse(p, ctx)?),
            ),
            TagCode::LayerAttributesExtra => Ok(
                TagBody::LayerAttributesExtra(LayerAttributesExtra::parse(p, ctx)?),
            ),
            TagCode::TextPathOption => Ok(TagBody::TextPathOption(TextPathOption::parse(p)?)),
            _ => {
                let raw = ByteData::from(p.buffer());
                Ok(TagBody::Raw(raw))
            },
        }
    }
}

impl TagBlock {
    /// Append a tag.
    pub fn push(&mut self, tag: Tag)
        ensures
            final(self).tags@ == old(self).tags@.push(tag),
    {
        self.tags.push(tag);
    }

    /// Tags up to the first `End` tag, which is consumed but not kept.
    /// Parsing fails if the buffer runs out before an `End` is seen.
    #[verifier::rlimit(100)]
    #[verifier::spinoff_prover]
    pub fn parse(p: &mut SliceParser, ctx: DefaultParseContext) -> (r: Result<TagBlock, ParseError>)
        ensures
            match r {
                Ok(b) => spec_tag_block(old(p)@, ctx) matches Some((ts, n)) && tag_block_view(b)
                    == ts && final(p)@ == old(p)@.skip(n as int),
                Err(e) => spec_tag_block(old(p)@, ctx) is None,
            },
        decreases old(p)@.len(), 4int,
    {
        let ghost c0 = p@;
        let mut block = TagBlock { tags: Vec::new() };
        proof {
            assert(tags_view_from(block.tags@, 0) =~= Seq::<TagV>::empty());
            assert(c0.skip(0) =~= c0);
        }
        loop
            invariant
                c0 == old(p)@,
                p@.len() <= c0.len(),
                p@ == c0.skip((c0.len() - p@.len()) as int),
                spec_tag_block(c0, ctx) == ({
                    match spec_tag_block(p@, ctx) {
                        None => None::<(Seq<TagV>, nat)>,
                        Some((ts, m)) => Some(
                            (
                                tags_view_from(block.tags@, 0) + ts,
                                ((c0.len() - p@.len()) + m) as nat,
                            ),
                        ),
                    }
                }),
            decreases p@.len(),
        {
            let ghost cprev = p@;
            let ghost prevv = tags_view_from(block.tags@, 0);
            let t = Tag::parse(p, ctx)?;
            proof {
                assert(p@ == c0.skip((c0.len() - p@.len()) as int)) by {
                    assert(c0.skip((c0.len() - p@.len()) as int) =~= p@);
                }
            }
            if t.is_empty() {
                proof {
                    assert(prevv + Seq::<TagV>::empty() =~= prevv);
                }
                return Ok(block);
            }
            proof {
                lemma_tags_view_push(block.tags@, t, 0);
            }
            block.push(t);
            proof {
                assert(tags_view_from(block.tags@, 0) =~= prevv + seq![tag_view(t)]);
                match spec_tag_block(p@, ctx) {
                    None => {},
                    Some((ts, m)) => {
                        assert((prevv + seq![tag_view(t)]) + ts =~= prevv + (seq![tag_view(t)]
                            + ts));
                    },
                }
            }
        }
    }
}

/// A decoded tag block never reports more consumed bytes than its
/// buffer holds.
pub proof fn lemma_tag_block_consumed(s: Seq<u8>, ctx: DefaultParseContext)
    ensures
        spec_tag_block(s, ctx) matches Some((ts, n)) ==> n <= s.len(),
    decreases s.len(),
{
    match spec_tag(s, ctx) {
        None => {},
        Some((t, n)) => {
            if t.header.code == TagCode::End {
            } else if 1 <= n <= s.len() {
                lemma_tag_block_consumed(s.skip(n as int), ctx);
            }
        },
    }
}

/// Cursor progress: a successfully framed tag consumes exactly its
/// two header bytes, four more where the packed length was the escape
/// value, and then exactly the declared body length, whatever the body
/// held.
pub proof fn lemma_tag_progress(s: Seq<u8>, ctx: DefaultParseContext, tv: TagV, n: nat)
    requires
        spec_tag(s, ctx) == Some((tv, n)),
    ensures
        n == 2 + (
            if spec_u16_le(s) % 64 == 63 {
                4int
            } else {
                0int
            }) + tv.header.length,
{
}

/// A tag block holding nothing but a single `End` tag (two zero bytes)
/// decodes to an empty tag list with both bytes, and nothing more,
/// consumed.
pub proof fn lemma_end_only_block(ctx: DefaultParseContext)
    requires
        ctx.depth < MAX_DEPTH,
    ensures
        spec_tag_block(seq![0u8, 0u8], ctx) == Some((Seq::<TagV>::empty(), 2nat)),
{
    let s = seq![0u8, 0u8];
    assert(s.len() == 2);
    assert(s[0] == 0 && s[1] == 0);
    assert(spec_u16_le(s) == 0);
    assert(spec_tag_header(s) == Some((TagHeader { code: TagCode::End, length: 0 }, 2nat)));
    let w = s.subrange(2, 2);
    assert(w.len() == 0);
    let bctx = DefaultParseContext {
        parent_code: Some(TagCode::End),
        depth: (ctx.depth + 1) as u32,
        ..ctx
    };
    assert(spec_tag_body(TagCode::End, w, bctx) == Some(TagBodyV::End)) by {
        reveal(spec_tag_body);
    }
    assert(spec_tag(s, ctx) == Some(
        (TagV { header: TagHeader { code: TagCode::End, length: 0 }, body: TagBodyV::End }, 2nat),
    ));
}

/// A tag with an unrecognized code keeps its body window verbatim: the
/// decoded body is `Raw` over exactly the `length` bytes of the window.
pub proof fn lemma_unknown_tag_raw(s: Seq<u8>, ctx: DefaultParseContext, tv: TagV, n: nat)
    requires
        spec_tag(s, ctx) == Some((tv, n)),
        tv.header.code matches TagCode::Unknown(_),
    ensures
        tv.body matches TagBodyV::Raw(b) && b == s.subrange(
            (n - tv.header.length) as int,
            n as int,
        ) && b.len() == tv.header.length,
{
    reveal(spec_tag_body);
    let (h, hc) = spec_tag_header(s).unwrap();
    assert(tv.header == h);
    assert(n == hc + h.length);
}

} // verus!
