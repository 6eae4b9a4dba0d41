//! Byte-level scenarios for the decoder: varint boundaries, string
//! decoding, tag framing, and the attribute block.

use pag::attr::{AttributeBlock, AttributeConfig, AttributeFlag, AttributeType};
use pag::bits::Bits;
use pag::base::{BlendMode, ByteData, GradientColor, LayerType, Point, Ratio, SolidColor, TrackMatteType};
use pag::shape::CompositionAttributes;
use pag::context::DefaultParseContext;
use pag::error::{BadFrameKind, ParseError};
use pag::file::{FileAttributes, FileHeader, PagParser};
use pag::layer::{CompositionReference, LayerAttributes, LayerAttributesExtra, Mask, Transform2D};
use pag::parser::SliceParser;
use pag::tag::{Tag, TagBlock, TagBody, TagCode, TagHeader};
use pag::text::{FontTables, TextDocument, TextMoreOption, TextSource};
use pag::video::VideoSequence;
use pag::image::ImageTables;
use pag::wire::Float32;

#[test]
fn varint_u32_boundaries() {
    let data: [u8; 5] = [0xFF, 0xFF, 0xFF, 0xFF, 0x0F];
    let mut p = SliceParser::new(&data);
    assert_eq!(p.next_encoded_u32(), Ok(0xFFFF_FFFF));
    assert_eq!(p.remain(), 0);

    let data: [u8; 1] = [0x00];
    let mut p = SliceParser::new(&data);
    assert_eq!(p.next_encoded_u32(), Ok(0));

    let data: [u8; 2] = [0x80, 0x01];
    let mut p = SliceParser::new(&data);
    assert_eq!(p.next_encoded_u32(), Ok(128));
    assert_eq!(p.remain(), 0);
}

#[test]
fn varint_incomplete() {
    let data: [u8; 2] = [0x80, 0x80];
    let mut p = SliceParser::new(&data);
    assert_eq!(p.next_encoded_u32(), Err(ParseError::Incomplete(1)));
    assert_eq!(p.remain(), 2);
}

#[test]
fn signed_varint_mapping() {
    let data: [u8; 1] = [0x03];
    let mut p = SliceParser::new(&data);
    assert_eq!(p.next_encoded_i32(), Ok(-1));

    let data: [u8; 1] = [0x04];
    let mut p = SliceParser::new(&data);
    assert_eq!(p.next_encoded_i32(), Ok(2));

    let data: [u8; 1] = [0x01];
    let mut p = SliceParser::new(&data);
    assert_eq!(p.next_encoded_i32(), Ok(0));
}

#[test]
fn string_with_high_byte() {
    let data: [u8; 4] = [0x48, 0x65, 0xFF, 0x00];
    let mut p = SliceParser::new(&data);
    let s = p.next_string().unwrap();
    let chars: Vec<char> = s.chars().collect();
    assert_eq!(chars.len(), 3);
    assert_eq!(chars[0], 'H');
    assert_eq!(chars[1], 'e');
    assert_eq!(chars[2], '\u{FFFD}');
    assert_eq!(p.remain(), 0);
}

#[test]
fn string_without_nul_fails() {
    let data: [u8; 2] = [0x48, 0x65];
    let mut p = SliceParser::new(&data);
    assert_eq!(
        p.next_string(),
        Err(ParseError::BadFrame(BadFrameKind::MissingNul))
    );
    assert_eq!(p.remain(), 2);
}

#[test]
fn fixed_width_incomplete() {
    let data: [u8; 2] = [1, 2];
    let mut p = SliceParser::new(&data);
    assert_eq!(p.next_u32(), Err(ParseError::Incomplete(2)));
    assert_eq!(p.remain(), 2);
}

#[test]
fn bit_cursor_alignment() {
    let data: [u8; 2] = [0b0000_0101, 0xAB];
    let mut bits = Bits::new(&data);
    assert!(bits.next());
    assert!(!bits.next());
    assert!(bits.next());
    let p = bits.finish().unwrap();
    // three bits round up to one byte
    assert_eq!(p.remain(), 1);
    assert_eq!(p.buffer()[0], 0xAB);
}

#[test]
fn bits_past_end_read_false() {
    let data: [u8; 1] = [0xFF];
    let bits = Bits::new(&data);
    assert!(bits.get(7));
    assert!(!bits.get(8));
    assert!(!bits.get(100));
}

#[test]
fn escape_length_header() {
    let data: [u8; 6] = [0x7F, 0x00, 100, 0, 0, 0];
    let mut p = SliceParser::new(&data);
    let h = TagHeader::parse(&mut p).unwrap();
    assert_eq!(h.code, TagCode::FontTables);
    assert_eq!(h.length, 100);
    assert_eq!(p.remain(), 0);
}

#[test]
fn short_length_header() {
    let data: [u8; 2] = [0x42, 0x00];
    let mut p = SliceParser::new(&data);
    let h = TagHeader::parse(&mut p).unwrap();
    assert_eq!(h.code, TagCode::FontTables);
    assert_eq!(h.length, 2);
}

#[test]
fn end_only_tag_block() {
    let data: [u8; 2] = [0x00, 0x00];
    let mut p = SliceParser::new(&data);
    let b = TagBlock::parse(&mut p, DefaultParseContext::new()).unwrap();
    assert_eq!(b.tags.len(), 0);
    assert_eq!(p.remain(), 0);
}

#[test]
fn unknown_tag_preserved_raw() {
    // code 200, length 2: word = (200 << 6) | 2 = 12802 = 0x3202
    let data: [u8; 6] = [0x02, 0x32, 0xDE, 0xAD, 0x00, 0x00];
    let mut p = SliceParser::new(&data);
    let b = TagBlock::parse(&mut p, DefaultParseContext::new()).unwrap();
    assert_eq!(b.tags.len(), 1);
    let t: &Tag = &b.tags[0];
    assert_eq!(t.header.code, TagCode::Unknown(200));
    assert_eq!(t.header.length, 2);
    match &t.body {
        TagBody::Raw(bd) => {
            assert_eq!(bd.data, vec![0xDE, 0xAD]);
            assert_eq!(bd.length, 2);
        }
        other => panic!("{:?}", other),
    }
    assert_eq!(p.remain(), 0);
}

#[test]
fn missing_end_tag_fails() {
    let data: [u8; 0] = [];
    let mut p = SliceParser::new(&data);
    assert!(TagBlock::parse(&mut p, DefaultParseContext::new()).is_err());
}

#[test]
fn file_header_ok() {
    let data: [u8; 9] = [0x50, 0x41, 0x47, 1, 10, 0, 0, 0, 0];
    let mut p = SliceParser::new(&data);
    let h = FileHeader::parse(&mut p).unwrap();
    assert_eq!(h.version, 1);
    assert_eq!(h.length, 10);
    assert_eq!(h.compress_method, 0);
    assert_eq!(p.remain(), 0);
}

#[test]
fn file_header_bad_magic() {
    let data: [u8; 9] = [0x58, 0x41, 0x47, 1, 10, 0, 0, 0, 0];
    let mut p = SliceParser::new(&data);
    assert_eq!(
        FileHeader::parse(&mut p),
        Err(ParseError::BadFrame(BadFrameKind::Term))
    );
}

#[test]
fn layer_attributes_v3_bit_flags() {
    // body: flag byte 0x05 (bits 1,0,1,...), one padding byte so the
    // content phase starts inside the window
    let data: [u8; 2] = [0x05, 0x00];
    let mut p = SliceParser::new(&data);
    let ctx = DefaultParseContext::new()
        .with_tag_code(TagCode::LayerAttributesV3)
        .with_layer_type(LayerType::Shape);
    let a = LayerAttributes::parse(&mut p, ctx).unwrap();
    assert!(a.is_active);
    assert!(!a.auto_orientation);
    assert!(a.motion_blur);
    assert_eq!(a.parent, 0);
    assert_eq!(a.stretch.numerator, 1);
    assert_eq!(a.stretch.denominator, 1);
    assert_eq!(a.start_time, 0);
    assert_eq!(a.blend_mode, BlendMode::Normal);
    assert_eq!(a.track_matte_type, TrackMatteType::NoMatte);
    assert_eq!(a.duration, 1, "a zero duration is clamped to one frame");
    assert_eq!(a.name, "");
}

#[test]
fn animated_property_is_a_key_frames_fault() {
    // transform: anchor point exist+animatable (bits 1,1)
    let data: [u8; 1] = [0x03];
    let mut p = SliceParser::new(&data);
    assert_eq!(
        Transform2D::parse(&mut p),
        Err(ParseError::BadFrame(BadFrameKind::KeyFrames))
    );
}

#[test]
fn attribute_flag_shapes() {
    // bits: 1 (value exists), 0 (simple property absent)
    let data: [u8; 2] = [0b0000_0001, 7];
    let mut block = AttributeBlock::new(&data);
    let v = block.flag(AttributeType::Value);
    assert!(v.1.exist);
    let s = block.flag(AttributeType::SimpleProperty);
    assert!(!s.1.exist);
    let f = block.flag(AttributeType::FixedValue);
    assert!(f.1.exist);
    let n = block.flag(AttributeType::NotExisted);
    assert!(!n.1.exist);
    // first value read flips to content phase at the next whole byte
    let got = block.read_u8((AttributeType::Value, v.1), 0).unwrap();
    assert_eq!(got, 7);
}

#[test]
fn depth_limit_is_enforced() {
    let mut ctx = DefaultParseContext::new();
    for _ in 0..64 {
        ctx = ctx.descend(TagCode::VectorCompositionBlock);
    }
    let data: [u8; 2] = [0x00, 0x00];
    let mut p = SliceParser::new(&data);
    assert!(matches!(
        Tag::parse(&mut p, ctx),
        Err(ParseError::BadFrame(BadFrameKind::DepthLimit))
    ));
}

#[test]
fn minimal_file() {
    // "PAG" | version 1 | length 10 | compress 0 | End tag
    let data: [u8; 11] = [0x50, 0x41, 0x47, 0x01, 0x0A, 0x00, 0x00, 0x00, 0x00, 0x00, 0x00];
    let pag = PagParser::parse_all(&data).unwrap();
    assert_eq!(pag.header.version, 1);
    assert_eq!(pag.header.length, 10);
    assert_eq!(pag.header.compress_method, 0);
    assert_eq!(pag.tag_block.tags.len(), 0);
}

#[test]
fn unsupported_version_is_rejected() {
    let data: [u8; 11] = [0x50, 0x41, 0x47, 0x02, 0x0A, 0x00, 0x00, 0x00, 0x00, 0x00, 0x00];
    assert_eq!(
        PagParser::parse_all(&data).unwrap_err(),
        ParseError::UnsupportPagVersion(2)
    );
    assert!(PagParser::new(&data).is_err());
}

#[test]
fn parse_all_keeps_unknown_tag() {
    // header, then one unknown tag (code 200, body DE AD), then End
    let data: [u8; 15] = [
        0x50, 0x41, 0x47, 0x01, 0x0A, 0x00, 0x00, 0x00, 0x00, 0x02, 0x32, 0xDE, 0xAD, 0x00, 0x00,
    ];
    let pag = PagParser::parse_all(&data).unwrap();
    assert_eq!(pag.tag_block.tags.len(), 1);
    assert_eq!(pag.tag_block.tags[0].header.code, TagCode::Unknown(200));
}

#[test]
fn next_tag_streams_until_drained() {
    let data: [u8; 11] = [0x50, 0x41, 0x47, 0x01, 0x0A, 0x00, 0x00, 0x00, 0x00, 0x00, 0x00];
    let mut parser = PagParser::new(&data).unwrap();
    let t = parser.next_tag().unwrap().unwrap();
    assert!(t.is_empty());
    assert!(parser.next_tag().is_none());
}

#[test]
fn gradient_color_stops() {
    let data: [u8; 20] = [
        1, 0, 0, 0, // one alpha stop
        1, 0, 0, 0, // one color stop
        10, 0, 20, 0, 0xFF, // alpha stop: position 10, midpoint 20, opacity 255
        1, 0, 2, 0, 3, 4, 5, // color stop: position 1, midpoint 2, color (3, 4, 5)
    ];
    let mut p = SliceParser::new(&data);
    let g = GradientColor::parse(&mut p).unwrap();
    assert_eq!(g.alpha_count, 1);
    assert_eq!(g.color_count, 1);
    assert_eq!(g.alpha_stop_list.len(), 1);
    assert_eq!(g.alpha_stop_list[0].position, 10);
    assert_eq!(g.alpha_stop_list[0].midpoint, 20);
    assert_eq!(g.alpha_stop_list[0].opacity, 0xFF);
    assert_eq!(g.color_stop_list.len(), 1);
    assert_eq!(g.color_stop_list[0].position, 1);
    assert_eq!(g.color_stop_list[0].color.red, 3);
    assert_eq!(g.color_stop_list[0].color.green, 4);
    assert_eq!(g.color_stop_list[0].color.blue, 5);
    assert_eq!(p.remain(), 0);
}

#[test]
fn tag_cursor_progress_with_escape_length() {
    // word = (200 << 6) | 63 = 0x323F, escape length 2, body DE AD, then junk
    let data: [u8; 10] = [0x3F, 0x32, 0x02, 0x00, 0x00, 0x00, 0xDE, 0xAD, 0x99, 0x98];
    let mut p = SliceParser::new(&data);
    let t = Tag::parse(&mut p, DefaultParseContext::new()).unwrap();
    assert_eq!(t.header.length, 2);
    // 2 header bytes + 4 escape bytes + 2 body bytes consumed
    assert_eq!(p.remain(), 2);
}

#[test]
fn text_document_flagged_payloads() {
    // 19 flag bits over 3 bytes: font_size (bit 11), text (bit 14),
    // justification (bit 15) -> byte 1 = 0xC8
    let data: [u8; 11] = [
        0x00, 0xC8, 0x00, // flag region
        0x00, 0x00, 0x48, 0x42, // font size, 50.0 as raw bits
        0x48, 0x69, 0x00, // "Hi"
        0x01, // justification
    ];
    let mut p = SliceParser::new(&data);
    let d = TextDocument::parse(&mut p).unwrap();
    assert!(!d.apply_fill_flag);
    assert!(d.font_size_flag);
    assert!(d.text_flag);
    assert!(d.justification_flag);
    assert!(!d.has_font_data_flag);
    assert_eq!(d.font_size, Some(Float32 { bits: 0x4248_0000 }));
    assert_eq!(d.text.as_deref(), Some("Hi"));
    assert_eq!(d.justification, Some(1));
    assert_eq!(d.baseline_shift, None);
    assert_eq!(d.font_id, None);
}

#[test]
fn video_sequence_frames_and_ranges() {
    let data: [u8; 19] = [
        0x08, // width: signed varint 4
        0x04, // height: signed varint 2
        0x00, 0x00, 0x00, 0x00, // frame rate bits
        0x01, 0xAA, // sps data
        0x01, 0xBB, // pps data
        0x01, // frame count 1
        0x01, // key-frame flag region: frame 0 is a key frame
        0x05, // frame time 5
        0x02, 0xCC, 0xDD, // frame bytes
        0x01, // one static range
        0x03, 0x07, // range 3..7
    ];
    let mut p = SliceParser::new(&data);
    let v = VideoSequence::parse(&mut p, false).unwrap();
    assert_eq!(v.width, 4);
    assert_eq!(v.height, 2);
    assert_eq!(v.alpha_start_x, None);
    assert_eq!(v.sps_data.data, vec![0xAA]);
    assert_eq!(v.pps_data.data, vec![0xBB]);
    assert_eq!(v.frame_count, 1);
    assert_eq!(v.is_key_frame_flag, vec![true]);
    assert_eq!(v.video_frames.len(), 1);
    assert!(v.video_frames[0].is_key_frame);
    assert_eq!(v.video_frames[0].frame, 5);
    assert_eq!(v.video_frames[0].file_bytes.data, vec![0xCC, 0xDD]);
    assert_eq!(v.static_time_ranges.len(), 1);
    assert_eq!(v.static_time_ranges[0].start, 3);
    assert_eq!(v.static_time_ranges[0].end, 7);
    assert_eq!(p.remain(), 0);
}

#[test]
fn video_sequence_with_alpha_offsets() {
    let data: [u8; 11] = [
        0x08, 0x04, // width 4, height 2
        0x00, 0x00, 0x00, 0x00, // frame rate bits
        0x02, 0x05, // alpha start x = 1, y = -2
        0x00, // empty sps
        0x00, // empty pps
        0x00, // frame count 0; no flag region, frames, or ranges follow
    ];
    let mut p = SliceParser::new(&data);
    let v = VideoSequence::parse(&mut p, true).unwrap();
    assert_eq!(v.alpha_start_x, Some(1));
    assert_eq!(v.alpha_start_y, Some(-2));
    assert_eq!(v.frame_count, 0);
    assert_eq!(v.video_frames.len(), 0);
    assert_eq!(v.static_time_ranges.len(), 0);
    assert_eq!(p.remain(), 0);
}

#[test]
fn font_tables_lists_fonts() {
    let data: [u8; 9] = [0x02, 0x41, 0x00, 0x42, 0x00, 0x43, 0x00, 0x44, 0x00];
    let mut p = SliceParser::new(&data);
    let t = FontTables::parse(&mut p).unwrap();
    assert_eq!(t.count, 2);
    assert_eq!(t.font_datas.len(), 2);
    assert_eq!(t.font_datas[0].font_family, "A");
    assert_eq!(t.font_datas[0].font_style, "B");
    assert_eq!(t.font_datas[1].font_family, "C");
    assert_eq!(t.font_datas[1].font_style, "D");
    assert_eq!(p.remain(), 0);
}

#[test]
fn file_attributes_with_warnings() {
    let data: [u8; 16] = [
        0x06, // timestamp: signed varint 3
        0x70, 0x00, // plugin version "p"
        0x61, 0x00, // ae version "a"
        0x73, 0x00, // system version "s"
        0x75, 0x00, // author "u"
        0x63, 0x00, // scene "c"
        0x01, // one warning
        0x77, 0x77, 0x77, 0x00, // "www"
    ];
    let mut p = SliceParser::new(&data);
    let a = FileAttributes::parse(&mut p).unwrap();
    assert_eq!(a.timestamp, 3);
    assert_eq!(a.plugin_version, "p");
    assert_eq!(a.ae_version, "a");
    assert_eq!(a.system_version, "s");
    assert_eq!(a.author, "u");
    assert_eq!(a.scene, "c");
    assert_eq!(a.warnings, vec!["www".to_string()]);
    assert_eq!(p.remain(), 0);
}

#[test]
fn image_tables_negative_count_is_empty() {
    // signed varint 3 decodes to -1
    let data: [u8; 1] = [0x03];
    let mut p = SliceParser::new(&data);
    let t = ImageTables::parse(&mut p).unwrap();
    assert_eq!(t.count, -1);
    assert_eq!(t.images.len(), 0);
    assert_eq!(p.remain(), 0);
}

#[test]
fn nested_composition_block() {
    // a vector composition (code 2, body: id 7 + End) inside a block
    let data: [u8; 7] = [0x83, 0x00, 0x07, 0x00, 0x00, 0x00, 0x00];
    let mut p = SliceParser::new(&data);
    let b = TagBlock::parse(&mut p, DefaultParseContext::new()).unwrap();
    assert_eq!(b.tags.len(), 1);
    match &b.tags[0].body {
        TagBody::VectorCompositionBlock(v) => {
            assert_eq!(v.id, 7);
            assert_eq!(v.tag_block.tags.len(), 0);
        }
        other => panic!("{:?}", other),
    }
    assert_eq!(p.remain(), 0);
}

#[test]
fn attribute_config_carries_type_and_default() {
    let cfg = AttributeConfig::Value(9u32);
    assert_eq!(cfg.attribute_type(), AttributeType::Value);
    assert_eq!(cfg.into_default(), 9);
    let cfg = AttributeConfig::BitFlag(true);
    assert_eq!(cfg.attribute_type(), AttributeType::BitFlag);
    assert!(cfg.into_default());
}

#[test]
fn cursor_operations() {
    let data: [u8; 4] = [1, 2, 3, 4];
    let mut p = SliceParser::new(&data);
    assert_eq!(p.peek(2), &[1, 2]);
    assert_eq!(p.peek(9), &[1, 2, 3, 4]);
    let sub = p.new_slice(2).unwrap();
    assert_eq!(sub.buffer(), &[1, 2]);
    assert_eq!(p.remain(), 2);
    assert_eq!(
        p.next_term(&[9]),
        Err(ParseError::BadFrame(BadFrameKind::Term))
    );
    assert_eq!(p.next_term(&[3]).unwrap(), &[3]);
    p.advance(1);
    assert!(p.is_empty());
}

#[test]
fn fixed_width_primitives() {
    let data: [u8; 4] = [0x34, 0x12, 0xFF, 0x02];
    let mut p = SliceParser::new(&data);
    assert_eq!(p.next_u16(), Ok(0x1234));
    assert_eq!(p.next_i8(), Ok(-1));
    assert_eq!(p.next_bool(), Ok(true));

    let data: [u8; 8] = [1, 0, 0, 0, 0, 0, 0, 0x80];
    let mut p = SliceParser::new(&data);
    assert_eq!(p.next_i64(), Ok(i64::MIN + 1));
}

#[test]
fn bit_option_and_flag_constants() {
    let data: [u8; 1] = [0b0000_0010];
    let bits = Bits::new(&data);
    assert_eq!(bits.option(1, 42), Some(42));
    assert_eq!(bits.option(0, 42), None);
    assert!(AttributeFlag::existed().exist);
    assert!(!AttributeFlag::not_existed().exist);
    assert_eq!(AttributeFlag::default(), AttributeFlag::not_existed());
}

#[test]
fn byte_data_copies_out() {
    let data: [u8; 3] = [7, 8, 9];
    let b = ByteData::from(&data);
    assert_eq!(b.length, 3);
    assert_eq!(b.data, vec![7, 8, 9]);
}

#[test]
fn default_value_constructors() {
    assert_eq!(Ratio::one(), Ratio::new(1, 1));
    assert_eq!(Point::zero().x.bits, 0);
    assert_eq!(Point::one().y.bits, 0x3F80_0000);
}

#[test]
fn enum_bytes_round_trip_unknowns() {
    assert_eq!(LayerType::from_u8(7), LayerType::Camera);
    assert_eq!(LayerType::from_u8(99), LayerType::Unknown(99));
    assert_eq!(BlendMode::from_u8(0), BlendMode::Normal);
    assert_eq!(TrackMatteType::from_u8(3), TrackMatteType::Unknown(3));
}

#[test]
fn solid_color_record() {
    let data: [u8; 5] = [1, 2, 3, 0x08, 0x04];
    let mut p = SliceParser::new(&data);
    let s = SolidColor::parse(&mut p).unwrap();
    assert_eq!(s.solid_color.red, 1);
    assert_eq!(s.solid_color.green, 2);
    assert_eq!(s.solid_color.blue, 3);
    assert_eq!(s.width, 4);
    assert_eq!(s.height, 2);
    assert_eq!(p.remain(), 0);
}

#[test]
fn mask_record() {
    let data: [u8; 8] = [0x05, 0x01, 0x09, 0x07, 0, 0, 0, 0];
    let mut p = SliceParser::new(&data);
    let m = Mask::parse(&mut p).unwrap();
    assert_eq!(m.id, 5);
    assert!(m.inverted);
    assert!(matches!(m.mask_mode, pag::base::MaskMode::Unknown(9)));
    assert_eq!(m.mask_opacity, 7);
    assert_eq!(m.mask_expansion.bits, 0);
    assert_eq!(p.remain(), 0);
}

#[test]
fn composition_records() {
    let data: [u8; 10] = [0x08, 0x04, 0x09, 0, 0, 0, 0, 9, 8, 7];
    let mut p = SliceParser::new(&data);
    let a = CompositionAttributes::parse(&mut p).unwrap();
    assert_eq!(a.width, 4);
    assert_eq!(a.height, 2);
    assert_eq!(a.duration, 9);
    assert_eq!(a.background_color.red, 9);
    assert_eq!(p.remain(), 0);

    let data: [u8; 2] = [0x03, 0x64];
    let mut p = SliceParser::new(&data);
    let r = CompositionReference::parse(&mut p).unwrap();
    assert_eq!(r.id, 3);
    assert_eq!(r.composition_start_time, 100);
}

#[test]
fn empty_attribute_block_records_default() {
    let data: [u8; 1] = [0x00];
    let mut p = SliceParser::new(&data);
    let t = TextMoreOption::parse(&mut p).unwrap();
    assert_eq!(
        t.anchor_point_grouping,
        pag::base::ParagraphJustification::LeftJustify
    );
    assert_eq!(t.grouping_alignment, Point::zero());

    let mut p = SliceParser::new(&data);
    let s = TextSource::parse(&mut p).unwrap();
    assert!(!s.source_text.text_flag);
    assert_eq!(s.source_text.text, None);
}

#[test]
fn layer_attributes_extra_with_name() {
    let data: [u8; 3] = [0x03, 0x4E, 0x00];
    let mut p = SliceParser::new(&data);
    let ctx = DefaultParseContext::new().with_layer_type(LayerType::Shape);
    let e = LayerAttributesExtra::parse(&mut p, ctx).unwrap();
    assert_eq!(e.name, "N");
    assert!(e.motion_blur);
}
