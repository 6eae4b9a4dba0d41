//! Layer-level records: the context-sensitive layer attributes, 2D
//! transforms, masks, and composition references.

use vstd::prelude::*;

use crate::attr::{
    spec_attr_read, AttributeBlock, AttributeFlag, AttributeType, spec_flag_bit_count,
    spec_flag_value,
};
use crate::base::{
    spec_step_point, spec_step_ratio, BlendMode, Color, CompositeOrder, LayerType, MaskMode, Path,
    Point, Ratio, TrackMatteType,
};
use crate::context::DefaultParseContext;
use crate::error::ParseError;
use crate::parser::SliceParser;
use crate::tag::TagCode;
use crate::wire::{
    spec_step_bool, spec_step_f32, spec_step_string, spec_step_u8, spec_step_varint_u32,
    spec_step_varint_u64, Float32,
};

verus! {

/// The value and rest-of-payload of one read whose attribute type
/// cannot raise a key-frames fault (bit-stored, fixed, or plain
/// values): the result of [`spec_attr_read`] with the default standing
/// in for a failed decode.
pub open spec fn spec_attr_read_ok<V>(
    ty: AttributeType,
    f: AttributeFlag,
    d: V,
    bit_result: V,
    c: Seq<u8>,
    step: spec_fn(Seq<u8>) -> (Option<V>, Seq<u8>),
) -> (V, Seq<u8>) {
    let (r, c2) = spec_attr_read(ty, f, d, bit_result, c, step);
    match r {
        Ok(v) => (v, c2),
        Err(_) => (d, c2),
    }
}

/// Whether layer attributes under the given context declare a
/// motion-blur bit: only version 3 of the tag has one, and not for
/// camera layers.
pub open spec fn spec_motion_blur_type(
    parent_code: Option<TagCode>,
    layer_type: Option<LayerType>,
) -> AttributeType {
    if parent_code == Some(TagCode::LayerAttributesV3) && layer_type != Some(LayerType::Camera) {
        AttributeType::BitFlag
    } else {
        AttributeType::NotExisted
    }
}

/// Camera layers have no blend mode or track matte.
pub open spec fn spec_camera_gated_type(layer_type: Option<LayerType>) -> AttributeType {
    if layer_type == Some(LayerType::Camera) {
        AttributeType::NotExisted
    } else {
        AttributeType::Value
    }
}

/// Only versions 2 and 3 of the layer-attributes tag carry a name.
pub open spec fn spec_name_type(parent_code: Option<TagCode>) -> AttributeType {
    if parent_code == Some(TagCode::LayerAttributesV2) || parent_code == Some(
        TagCode::LayerAttributesV3,
    ) {
        AttributeType::Value
    } else {
        AttributeType::NotExisted
    }
}

/// The ghost value of a [`LayerAttributes`] record.
pub struct LayerAttributesV {
    pub is_active: bool,
    pub auto_orientation: bool,
    pub motion_blur: bool,
    pub parent: u32,
    pub stretch: Ratio,
    pub start_time: u64,
    pub blend_mode: BlendMode,
    pub track_matte_type: TrackMatteType,
    pub time_remap: Float32,
    pub duration: u64,
    pub name: Seq<char>,
}

/// The basic properties of a layer, stored as an attribute block whose
/// declaration set depends on the enclosing tag code and layer type.
#[derive(Debug, Clone, PartialEq, Eq)]
pub struct LayerAttributes {
    pub is_active: bool,
    pub auto_orientation: bool,
    pub motion_blur: bool,
    pub parent: u32,
    pub stretch: Ratio,
    pub start_time: u64,
    pub blend_mode: BlendMode,
    pub track_matte_type: TrackMatteType,
    pub time_remap: Float32,
    pub duration: u64,
    pub name: String,
}

impl View for LayerAttributes {
    type V = LayerAttributesV;

    open spec fn view(&self) -> LayerAttributesV {
        LayerAttributesV {
            is_active: self.is_active,
            auto_orientation: self.auto_orientation,
            motion_blur: self.motion_blur,
            parent: self.parent,
            stretch: self.stretch,
            start_time: self.start_time,
            blend_mode: self.blend_mode,
            track_matte_type: self.track_matte_type,
            time_remap: self.time_remap,
            duration: self.duration,
            name: self.name@,
        }
    }
}

/// The layer attributes decoded from window `s` under the given
/// context: eleven declarations' flag bits in order, then the present
/// values in the same order, with a zero duration clamped to one.  The
/// only fault is an animated time remap, whose key-frame layout is not
/// part of this format version.
#[verifier::opaque]
pub open spec fn spec_layer_attributes(
    s: Seq<u8>,
    parent_code: Option<TagCode>,
    layer_type: Option<LayerType>,
) -> Result<LayerAttributesV, ParseError> {
    let t_motion = spec_motion_blur_type(parent_code, layer_type);
    let t_blend = spec_camera_gated_type(layer_type);
    let t_matte = spec_camera_gated_type(layer_type);
    let t_name = spec_name_type(parent_code);
    let f_active = spec_flag_value(AttributeType::BitFlag, s, 0);
    let i1 = spec_flag_bit_count(AttributeType::BitFlag, s, 0);
    let f_auto = spec_flag_value(AttributeType::BitFlag, s, i1);
    let i2 = i1 + spec_flag_bit_count(AttributeType::BitFlag, s, i1);
    let f_motion = spec_flag_value(t_motion, s, i2);
    let i3 = i2 + spec_flag_bit_count(t_motion, s, i2);
    let f_parent = spec_flag_value(AttributeType::Value, s, i3);
    let i4 = i3 + spec_flag_bit_count(AttributeType::Value, s, i3);
    let f_stretch = spec_flag_value(AttributeType::Value, s, i4);
    let i5 = i4 + spec_flag_bit_count(AttributeType::Value, s, i4);
    let f_start = spec_flag_value(AttributeType::Value, s, i5);
    let i6 = i5 + spec_flag_bit_count(AttributeType::Value, s, i5);
    let f_blend = spec_flag_value(t_blend, s, i6);
    let i7 = i6 + spec_flag_bit_count(t_blend, s, i6);
    let f_matte = spec_flag_value(t_matte, s, i7);
    let i8 = i7 + spec_flag_bit_count(t_matte, s, i7);
    let f_remap = spec_flag_value(AttributeType::SimpleProperty, s, i8);
    let i9 = i8 + spec_flag_bit_count(AttributeType::SimpleProperty, s, i8);
    let f_dur = spec_flag_value(AttributeType::FixedValue, s, i9);
    let f_name = spec_flag_value(t_name, s, i9);
    let off = (i9 + spec_flag_bit_count(t_name, s, i9) + 7) / 8;
    if off > s.len() {
        Ok(
            LayerAttributesV {
                is_active: true,
                auto_orientation: false,
                motion_blur: false,
                parent: 0,
                stretch: Ratio { numerator: 1, denominator: 1 },
                start_time: 0,
                blend_mode: BlendMode::Normal,
                track_matte_type: TrackMatteType::NoMatte,
                time_remap: Float32 { bits: 0 },
                duration: 1,
                name: Seq::empty(),
            },
        )
    } else {
        let c0 = s.skip(off as int);
        let (v_active, c1) = spec_attr_read_ok(
            AttributeType::BitFlag,
            f_active,
            true,
            f_active.exist,
            c0,
            (|c: Seq<u8>| spec_step_bool(c)),
        );
        let (v_auto, c2) = spec_attr_read_ok(
            AttributeType::BitFlag,
            f_auto,
            false,
            f_auto.exist,
            c1,
            (|c: Seq<u8>| spec_step_bool(c)),
        );
        let (v_motion, c3) = spec_attr_read_ok(
            t_motion,
            f_motion,
            false,
            f_motion.exist,
            c2,
            (|c: Seq<u8>| spec_step_bool(c)),
        );
        let (v_parent, c4) = spec_attr_read_ok(
            AttributeType::Value,
            f_parent,
            0u32,
            0u32,
            c3,
            (|c: Seq<u8>| spec_step_varint_u32(c)),
        );
        let (v_stretch, c5) = spec_attr_read_ok(
            AttributeType::Value,
            f_stretch,
            Ratio { numerator: 1, denominator: 1 },
            Ratio { numerator: 1, denominator: 1 },
            c4,
            (|c: Seq<u8>| spec_step_ratio(c)),
        );
        let (v_start, c6) = spec_attr_read_ok(
            AttributeType::Value,
            f_start,
            0u64,
            0u64,
            c5,
            (|c: Seq<u8>| spec_step_varint_u64(c)),
        );
        let (v_blend, c7) = spec_attr_read_ok(
            t_blend,
            f_blend,
            0u8,
            0u8,
            c6,
            (|c: Seq<u8>| spec_step_u8(c)),
        );
        let (v_matte, c8) = spec_attr_read_ok(
            t_matte,
            f_matte,
            0u8,
            0u8,
            c7,
            (|c: Seq<u8>| spec_step_u8(c)),
        );
        let (r_remap, c9) = spec_attr_read(
            AttributeType::SimpleProperty,
            f_remap,
            Float32 { bits: 0 },
            Float32 { bits: 0 },
            c8,
            (|c: Seq<u8>| spec_step_f32(c)),
        );
        match r_remap {
            Err(e) => Err(e),
            Ok(v_remap) => {
                let (v_dur, c10) = spec_attr_read_ok(
                    AttributeType::FixedValue,
                    f_dur,
                    0u64,
                    0u64,
                    c9,
                    (|c: Seq<u8>| spec_step_varint_u64(c)),
                );
                let (v_name, c11) = spec_attr_read_ok(
                    t_name,
                    f_name,
                    Seq::<char>::empty(),
                    Seq::<char>::empty(),
                    c10,
                    (|c: Seq<u8>| spec_step_string(c)),
                );
                Ok(
                    LayerAttributesV {
                        is_active: v_active,
                        auto_orientation: v_auto,
                        motion_blur: v_motion,
                        parent: v_parent,
                        stretch: v_stretch,
                        start_time: v_start,
                        blend_mode: BlendMode::spec_from_u8(v_blend),
                        track_matte_type: TrackMatteType::spec_from_u8(v_matte),
                        time_remap: v_remap,
                        duration: if v_dur == 0 {
                            1
                        } else {
                            v_dur
                        },
                        name: v_name,
                    },
                )
            },
        }
    }
}

impl LayerAttributes {
    /// Decode layer attributes from the body window; the window itself
    /// is not consumed (tag framing discards it).
    #[verifier::rlimit(100)]
    #[verifier::spinoff_prover]
    pub fn parse(p: &mut SliceParser, ctx: DefaultParseContext) -> (r: Result<
        LayerAttributes,
        ParseError,
    >)
        ensures
            final(p)@ == old(p)@,
            match r {
                Ok(v) => spec_layer_attributes(old(p)@, ctx.parent_code, ctx.layer_type) == Ok::<
                    LayerAttributesV,
                    ParseError,
                >(v@),
                Err(e) => spec_layer_attributes(old(p)@, ctx.parent_code, ctx.layer_type) == Err::<
                    LayerAttributesV,
                    ParseError,
                >(e),
            },
    {
        proof {
            reveal(spec_layer_attributes);
        }
        let mut block = AttributeBlock::new(p.buffer());
        let is_active = block.flag(AttributeType::BitFlag);
        let auto_orientation = block.flag(AttributeType::BitFlag);
        let motion_blur = if matches!(ctx.parent_code, Some(TagCode::LayerAttributesV3))
            && !matches!(ctx.layer_type, Some(LayerType::Camera)) {
            block.flag(AttributeType::BitFlag)
        } else {
            block.flag(AttributeType::NotExisted)
        };
        let parent = block.flag(AttributeType::Value);
        let stretch = block.flag(AttributeType::Value);
        let start_time = block.flag(AttributeType::Value);
        let blend_mode = if matches!(ctx.layer_type, Some(LayerType::Camera)) {
            block.flag(AttributeType::NotExisted)
        } else {
            block.flag(AttributeType::Value)
        };
        let track_matte_type = if matches!(ctx.layer_type, Some(LayerType::Camera)) {
            block.flag(AttributeType::NotExisted)
        } else {
            block.flag(AttributeType::Value)
        };
        let time_remap = block.flag(AttributeType::SimpleProperty);
        let duration = block.flag(AttributeType::FixedValue);
        let name = if matches!(ctx.parent_code, Some(TagCode::LayerAttributesV2))
            || matches!(ctx.parent_code, Some(TagCode::LayerAttributesV3)) {
            block.flag(AttributeType::Value)
        } else {
            block.flag(AttributeType::NotExisted)
        };

        let v_is_active = block.read_bool(is_active, true)?;
        let v_auto_orientation = block.read_bool(auto_orientation, false)?;
        let v_motion_blur = block.read_bool(motion_blur, false)?;
        let v_parent = block.read_u32(parent, 0)?;
        let v_stretch = block.read_ratio(stretch, Ratio::one())?;
        let v_start_time = block.read_u64(start_time, 0)?;
        let v_blend_mode = block.read_u8(blend_mode, 0)?;
        let v_track_matte = block.read_u8(track_matte_type, 0)?;
        let v_time_remap = block.read_f32(time_remap, Float32::zero())?;
        let v_duration = block.read_u64(duration, 0)?;
        let v_name = block.read_string(name, String::new())?;

        // A duration of zero comes from old files; the format floors it
        // at one frame.
        let v_duration = if v_duration == 0 {
            1
        } else {
            v_duration
        };
        Ok(
            LayerAttributes {
                is_active: v_is_active,
                auto_orientation: v_auto_orientation,
                motion_blur: v_motion_blur,
                parent: v_parent,
                stretch: v_stretch,
                start_time: v_start_time,
                blend_mode: BlendMode::from_u8(v_blend_mode),
                track_matte_type: TrackMatteType::from_u8(v_track_matte),
                time_remap: v_time_remap,
                duration: v_duration,
                name: v_name,
            },
        )
    }
}

/// Whether the extra layer attributes declare a motion-blur bit: only
/// layers of a known non-camera type have one.
pub open spec fn spec_extra_motion_type(layer_type: Option<LayerType>) -> AttributeType {
    match layer_type {
        Some(LayerType::Camera) => AttributeType::NotExisted,
        Some(_) => AttributeType::BitFlag,
        None => AttributeType::NotExisted,
    }
}

/// The ghost value of a [`LayerAttributesExtra`] record.
pub struct LayerAttributesExtraV {
    pub name: Seq<char>,
    pub motion_blur: bool,
}

/// Late additions to the layer attributes: a name and a motion-blur
/// bit.
#[derive(Debug, Clone, PartialEq, Eq)]
pub struct LayerAttributesExtra {
    pub name: String,
    pub motion_blur: bool,
}

impl View for LayerAttributesExtra {
    type V = LayerAttributesExtraV;

    open spec fn view(&self) -> LayerAttributesExtraV {
        LayerAttributesExtraV { name: self.name@, motion_blur: self.motion_blur }
    }
}

/// The extra layer attributes decoded from window `s` under the given
/// layer type.
#[verifier::opaque]
pub open spec fn spec_layer_attributes_extra(
    s: Seq<u8>,
    layer_type: Option<LayerType>,
) -> Result<LayerAttributesExtraV, ParseError> {
    let t_motion = spec_extra_motion_type(layer_type);
    let f_name = spec_flag_value(AttributeType::Value, s, 0);
    let i1 = spec_flag_bit_count(AttributeType::Value, s, 0);
    let f_motion = spec_flag_value(t_motion, s, i1);
    let i2 = i1 + spec_flag_bit_count(t_motion, s, i1);
    let off = (i2 + 7) / 8;
    if off > s.len() {
        Ok(LayerAttributesExtraV { name: Seq::empty(), motion_blur: false })
    } else {
        let c0 = s.skip(off as int);
        let (v_name, c1) = spec_attr_read_ok(
            AttributeType::Value,
            f_name,
            Seq::<char>::empty(),
            Seq::<char>::empty(),
            c0,
            (|c: Seq<u8>| spec_step_string(c)),
        );
        let (v_motion, c2) = spec_attr_read_ok(
            t_motion,
            f_motion,
            false,
            f_motion.exist,
            c1,
            (|c: Seq<u8>| spec_step_bool(c)),
        );
        Ok(LayerAttributesExtraV { name: v_name, motion_blur: v_motion })
    }
}

impl LayerAttributesExtra {
    /// Decode the extra attributes from the body window; the window
    /// itself is not consumed (tag framing discards it).
    #[verifier::rlimit(100)]
    #[verifier::spinoff_prover]
    pub fn parse(p: &mut SliceParser, ctx: DefaultParseContext) -> (r: Result<
        LayerAttributesExtra,
        ParseError,
    >)
        ensures
            final(p)@ == old(p)@,
            match r {
                Ok(v) => spec_layer_attributes_extra(old(p)@, ctx.layer_type) == Ok::<
                    LayerAttributesExtraV,
                    ParseError,
                >(v@),
                Err(e) => spec_layer_attributes_extra(old(p)@, ctx.layer_type) == Err::<
                    LayerAttributesExtraV,
                    ParseError,
                >(e),
            },
    {
        proof {
            reveal(spec_layer_attributes_extra);
        }
        let mut block = AttributeBlock::new(p.buffer());
        let name = block.flag(AttributeType::Value);
        let motion_blur = match ctx.layer_type {
            Some(LayerType::Camera) => block.flag(AttributeType::NotExisted),
            Some(_) => block.flag(AttributeType::BitFlag),
            None => block.flag(AttributeType::NotExisted),
        };
        let v_name = block.read_string(name, String::new())?;
        let v_motion = block.read_bool(motion_blur, false)?;
        Ok(LayerAttributesExtra { name: v_name, motion_blur: v_motion })
    }
}

/// A reference to a composition by its identifier.
#[derive(Debug, Clone, Copy, PartialEq, Eq, Structural)]
pub struct CompositionReference {
    pub id: u32,
    pub composition_start_time: u64,
}

/// A composition reference read from a cursor: a varint id and a
/// varint start time.
pub open spec fn spec_step_composition_reference(c: Seq<u8>) -> (
    Option<CompositionReference>,
    Seq<u8>,
) {
    let (i, c1) = spec_step_varint_u32(c);
    match i {
        None => (None, c1),
        Some(id) => {
            let (t, c2) = spec_step_varint_u64(c1);
            match t {
                None => (None, c2),
                Some(start) => (
                    Some(CompositionReference { id, composition_start_time: start }),
                    c2,
                ),
            }
        },
    }
}

impl CompositionReference {
    /// Identifier, then start time.
    pub fn parse(p: &mut SliceParser) -> (r: Result<CompositionReference, ParseError>)
        ensures
            match r {
                Ok(v) => spec_step_composition_reference(old(p)@).0 == Some(v) && final(p)@
                    == spec_step_composition_reference(old(p)@).1,
                Err(e) => spec_step_composition_reference(old(p)@).0 is None && final(p)@
                    == spec_step_composition_reference(old(p)@).1,
            },
    {
        let id = p.next_encoded_u32()?;
        let composition_start_time = p.next_time()?;
        Ok(CompositionReference { id, composition_start_time })
    }
}

/// The 2D transform of a layer: anchor, position, scale, rotation and
/// opacity, each an animatable property.
#[derive(Debug, Clone, Copy, PartialEq, Eq, Structural)]
pub struct Transform2D {
    pub anchor_point: Point,
    pub position: Point,
    pub x_position: Float32,
    pub y_position: Float32,
    pub scale: Point,
    pub rotation: Float32,
    pub opacity: u8,
}

/// The transform decoded from window `s`: seven property declarations'
/// flags in order, then the present values.  The faults are animated
/// properties, whose key-frame layout is not part of this format
/// version.
pub open spec fn spec_transform_2d(s: Seq<u8>) -> Result<Transform2D, ParseError> {
    let f_anchor = spec_flag_value(AttributeType::SpatialProperty, s, 0);
    let i1 = spec_flag_bit_count(AttributeType::SpatialProperty, s, 0);
    let f_pos = spec_flag_value(AttributeType::SpatialProperty, s, i1);
    let i2 = i1 + spec_flag_bit_count(AttributeType::SpatialProperty, s, i1);
    let f_x = spec_flag_value(AttributeType::SimpleProperty, s, i2);
    let i3 = i2 + spec_flag_bit_count(AttributeType::SimpleProperty, s, i2);
    let f_y = spec_flag_value(AttributeType::SimpleProperty, s, i3);
    let i4 = i3 + spec_flag_bit_count(AttributeType::SimpleProperty, s, i3);
    let f_scale = spec_flag_value(AttributeType::MultiDimensionProperty, s, i4);
    let i5 = i4 + spec_flag_bit_count(AttributeType::MultiDimensionProperty, s, i4);
    let f_rot = spec_flag_value(AttributeType::SimpleProperty, s, i5);
    let i6 = i5 + spec_flag_bit_count(AttributeType::SimpleProperty, s, i5);
    let f_op = spec_flag_value(AttributeType::SimpleProperty, s, i6);
    let i7 = i6 + spec_flag_bit_count(AttributeType::SimpleProperty, s, i6);
    let off = (i7 + 7) / 8;
    if off > s.len() {
        Ok(
            Transform2D {
                anchor_point: Point { x: Float32 { bits: 0 }, y: Float32 { bits: 0 } },
                position: Point { x: Float32 { bits: 0 }, y: Float32 { bits: 0 } },
                x_position: Float32 { bits: 0 },
                y_position: Float32 { bits: 0 },
                scale: Point { x: Float32 { bits: 0x3f80_0000 }, y: Float32 { bits: 0x3f80_0000 } },
                rotation: Float32 { bits: 0 },
                opacity: 0xff,
            },
        )
    } else {
        let c0 = s.skip(off as int);
        let (r_anchor, c1) = spec_attr_read(
            AttributeType::SpatialProperty,
            f_anchor,
            Point { x: Float32 { bits: 0 }, y: Float32 { bits: 0 } },
            Point { x: Float32 { bits: 0 }, y: Float32 { bits: 0 } },
            c0,
            (|c: Seq<u8>| spec_step_point(c)),
        );
        match r_anchor {
            Err(e) => Err(e),
            Ok(v_anchor) => {
                let (r_pos, c2) = spec_attr_read(
                    AttributeType::SpatialProperty,
                    f_pos,
                    Point { x: Float32 { bits: 0 }, y: Float32 { bits: 0 } },
                    Point { x: Float32 { bits: 0 }, y: Float32 { bits: 0 } },
                    c1,
                    (|c: Seq<u8>| spec_step_point(c)),
                );
                match r_pos {
                    Err(e) => Err(e),
                    Ok(v_pos) => {
                        let (r_x, c3) = spec_attr_read(
                            AttributeType::SimpleProperty,
                            f_x,
                            Float32 { bits: 0 },
                            Float32 { bits: 0 },
                            c2,
                            (|c: Seq<u8>| spec_step_f32(c)),
                        );
                        match r_x {
                            Err(e) => Err(e),
                            Ok(v_x) => {
                                let (r_y, c4) = spec_attr_read(
                                    AttributeType::SimpleProperty,
                                    f_y,
                                    Float32 { bits: 0 },
                                    Float32 { bits: 0 },
                                    c3,
                                    (|c: Seq<u8>| spec_step_f32(c)),
                                );
                                match r_y {
                                    Err(e) => Err(e),
                                    Ok(v_y) => {
                                        let (r_scale, c5) = spec_attr_read(
                                            AttributeType::MultiDimensionProperty,
                                            f_scale,
                                            Point {
                                                x: Float32 { bits: 0x3f80_0000 },
                                                y: Float32 { bits: 0x3f80_0000 },
                                            },
                                            Point {
                                                x: Float32 { bits: 0x3f80_0000 },
                                                y: Float32 { bits: 0x3f80_0000 },
                                            },
                                            c4,
                                            (|c: Seq<u8>| spec_step_point(c)),
                                        );
                                        match r_scale {
                                            Err(e) => Err(e),
                                            Ok(v_scale) => {
                                                let (r_rot, c6) = spec_attr_read(
                                                    AttributeType::SimpleProperty,
                                                    f_rot,
                                                    Float32 { bits: 0 },
                                                    Float32 { bits: 0 },
                                                    c5,
                                                    (|c: Seq<u8>| spec_step_f32(c)),
                                                );
                                                match r_rot {
                                                    Err(e) => Err(e),
                                                    Ok(v_rot) => {
                                                        let (r_op, c7) = spec_attr_read(
                                                            AttributeType::SimpleProperty,
                                                            f_op,
                                                            0xffu8,
                                                            0xffu8,
                                                            c6,
                                                            (|c: Seq<u8>| spec_step_u8(c)),
                                                        );
                                                        match r_op {
                                                            Err(e) => Err(e),
                                                            Ok(v_op) => Ok(
                                                                Transform2D {
                                                                    anchor_point: v_anchor,
                                                                    position: v_pos,
                                                                    x_position: v_x,
                                                                    y_position: v_y,
                                                                    scale: v_scale,
                                                                    rotation: v_rot,
                                                                    opacity: v_op,
                                                                },
                                                            ),
                                                        }
                                                    },
                                                }
                                            },
                                        }
                                    },
                                }
                            },
                        }
                    },
                }
            },
        }
    }
}

impl Transform2D {
    /// Decode the transform from the body window; the window itself is
    /// not consumed (tag framing discards it).
    #[verifier::rlimit(100)]
    #[verifier::spinoff_prover]
    pub fn parse(p: &mut SliceParser) -> (r: Result<Transform2D, ParseError>)
        ensures
            final(p)@ == old(p)@,
            match r {
                Ok(v) => spec_transform_2d(old(p)@) == Ok::<Transform2D, ParseError>(v),
                Err(e) => spec_transform_2d(old(p)@) == Err::<Transform2D, ParseError>(e),
            },
    {
        let mut block = AttributeBlock::new(p.buffer());
        let anchor_point = block.flag(AttributeType::SpatialProperty);
        let position = block.flag(AttributeType::SpatialProperty);
        let x_position = block.flag(AttributeType::SimpleProperty);
        let y_position = block.flag(AttributeType::SimpleProperty);
        let scale = block.flag(AttributeType::MultiDimensionProperty);
        let rotation = block.flag(AttributeType::SimpleProperty);
        let opacity = block.flag(AttributeType::SimpleProperty);

        let v_anchor = block.read_point(anchor_point, Point::zero())?;
        let v_pos = block.read_point(position, Point::zero())?;
        let v_x = block.read_f32(x_position, Float32::zero())?;
        let v_y = block.read_f32(y_position, Float32::zero())?;
        let v_scale = block.read_point(scale, Point::one())?;
        let v_rot = block.read_f32(rotation, Float32::zero())?;
        let v_op = block.read_u8(opacity, 0xff)?;
        Ok(
            Transform2D {
                anchor_point: v_anchor,
                position: v_pos,
                x_position: v_x,
                y_position: v_y,
                scale: v_scale,
                rotation: v_rot,
                opacity: v_op,
            },
        )
    }
}

/// A mask over a layer.
#[derive(Debug, Clone, Copy, PartialEq, Eq, Structural)]
pub struct Mask {
    pub id: u32,
    pub inverted: bool,
    pub mask_mode: MaskMode,
    pub mask_path: Path,
    pub mask_opacity: u8,
    pub mask_expansion: Float32,
}

/// A mask read from a cursor: id, inversion, mode, path, opacity,
/// expansion.
pub open spec fn spec_step_mask(c: Seq<u8>) -> (Option<Mask>, Seq<u8>) {
    let (i, c1) = spec_step_varint_u32(c);
    match i {
        None => (None, c1),
        Some(id) => {
            let (inv, c2) = spec_step_bool(c1);
            match inv {
                None => (None, c2),
                Some(inverted) => {
                    let (m, c3) = spec_step_u8(c2);
                    match m {
                        None => (None, c3),
                        Some(mode) => {
                            let (o, c4) = spec_step_u8(c3);
                            match o {
                                None => (None, c4),
                                Some(opacity) => {
                                    let (e, c5) = spec_step_f32(c4);
                                    match e {
                                        None => (None, c5),
                                        Some(expansion) => (
                                            Some(
                                                Mask {
                                                    id,
                                                    inverted,
                                                    mask_mode: MaskMode::spec_from_u8(mode),
                                                    mask_path: Path {},
                                                    mask_opacity: opacity,
                                                    mask_expansion: expansion,
                                                },
                                            ),
                                            c5,
                                        ),
                                    }
                                },
                            }
                        },
                    }
                },
            }
        },
    }
}

impl Mask {
    /// Id, inversion flag, mode byte, path, opacity, expansion.
    pub fn parse(p: &mut SliceParser) -> (r: Result<Mask, ParseError>)
        ensures
            match r {
                Ok(v) => spec_step_mask(old(p)@).0 == Some(v) && final(p)@ == spec_step_mask(
                    old(p)@,
                ).1,
                Err(e) => spec_step_mask(old(p)@).0 is None && final(p)@ == spec_step_mask(
                    old(p)@,
                ).1,
            },
    {
        let id = p.next_id()?;
        let inverted = p.next_bool()?;
        let mode = p.next_u8()?;
        let mask_path = Path::parse(p)?;
        let mask_opacity = p.next_u8()?;
        let mask_expansion = p.next_f32()?;
        Ok(
            Mask {
                id,
                inverted,
                mask_mode: MaskMode::from_u8(mode),
                mask_path,
                mask_opacity,
                mask_expansion,
            },
        )
    }
}

/// A repeater shape modifier.  Data only: no tag in this schema version
/// dispatches to it.
#[derive(Debug, Clone, Copy, PartialEq, Eq, Structural)]
pub struct Repeater {
    pub composite: CompositeOrder,
    pub copies: Float32,
    pub offset: Float32,
    pub anchor_point: Point,
    pub position: Point,
    pub scale: Point,
    pub rotation: Float32,
    pub start_opacity: u8,
    pub end_opacity: u8,
}

/// A drop-shadow layer style.  Data only: no tag in this schema version
/// dispatches to it.
#[derive(Debug, Clone, Copy, PartialEq, Eq, Structural)]
pub struct DropShadowStyle {
    pub blend_mode: BlendMode,
    pub color: Color,
    pub opacity: u8,
    pub angle: Float32,
    pub distance: Float32,
    pub size: Float32,
}

/// A layer: its type, identifier, and nested tag block.
#[derive(Debug)]
pub struct LayerBlock {
    pub layer_type: LayerType,
    pub id: u32,
    pub tag_block: crate::tag::TagBlock,
}

impl LayerBlock {
    /// A layer-type byte, a varint id, then the nested block decoded
    /// with the layer type pushed into the context.
    #[verifier::rlimit(100)]
    #[verifier::spinoff_prover]
    pub fn parse(p: &mut SliceParser, ctx: DefaultParseContext) -> (r: Result<
        LayerBlock,
        ParseError,
    >)
        ensures
            match r {
                Ok(v) => crate::tag::spec_layer_block(old(p)@, ctx) matches Some((lv, n))
                    && lv == (crate::tag::LayerBlockV {
                    layer_type: v.layer_type,
                    id: v.id,
                    tag_block: crate::tag::tag_block_view(v.tag_block),
                }) && final(p)@ == old(p)@.skip(n as int),
                Err(e) => crate::tag::spec_layer_block(old(p)@, ctx) is None,
            },
        decreases old(p)@.len(), 1int,
    {
        let ghost g0 = p@;
        let t = p.next_u8()?;
        let ghost g1 = p@;
        let lt = LayerType::from_u8(t);
        let id = p.next_id()?;
        let ghost c2 = p@;
        let tag_block = crate::tag::TagBlock::parse(p, ctx.with_layer_type(lt))?;
        proof {
            let bctx = crate::context::DefaultParseContext { layer_type: Some(lt), ..ctx };
            match crate::wire::spec_varint_u32(g1) {
                None => {
                    assert(false);
                },
                Some((v2, n1)) => {
                    crate::wire::lemma_varint_rec_consumed(g1, 5);
                    assert(g1 == g0.skip(1));
                    assert(c2 == g1.skip(n1 as int));
                    crate::wire::lemma_skip_skip(g0, 1, n1 as int);
                    assert(c2 == g0.skip((1 + n1) as int));
                    crate::tag::lemma_tag_block_consumed(c2, bctx);
                    match crate::tag::spec_tag_block(c2, bctx) {
                        None => {},
                        Some((ts, m)) => {
                            assert(p@ == c2.skip(m as int));
                            crate::wire::lemma_skip_skip(g0, 1 + n1 as int, m as int);
                            assert(p@ == g0.skip((1 + n1 + m) as int));
                        },
                    }
                },
            }
        }
        Ok(LayerBlock { layer_type: lt, id, tag_block })
    }
}

} // verus!
