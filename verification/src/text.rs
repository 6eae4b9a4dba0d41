//! Text records: fonts, the bit-array text document, and the
//! attribute-block text options.

use vstd::prelude::*;

use crate::attr::{
    spec_attr_read, spec_attr_read_post, AttributeBlock, AttributeBlockState, AttributeFlag,
    AttributeType, spec_flag_bit_count, spec_flag_value,
};
use crate::base::{
    spec_step_color, spec_step_point, Color, ParagraphJustification, Point,
};
use crate::error::{BadFrameKind, ParseError};
use crate::layer::spec_attr_read_ok;
use crate::parser::SliceParser;
use crate::bits::Bits;
use crate::wire::{
    spec_bit, spec_opt_step, spec_step_bool, spec_step_f32, spec_step_many, spec_step_string,
    spec_step_u8, spec_step_varint_u32, Float32,
};

verus! {

/// The ghost value of a [`FontData`] record.
pub struct FontDataV {
    pub font_family: Seq<char>,
    pub font_style: Seq<char>,
}

/// One font: family and style names.
#[derive(Debug, Clone, PartialEq, Eq)]
pub struct FontData {
    pub font_family: String,
    pub font_style: String,
}

impl View for FontData {
    type V = FontDataV;

    open spec fn view(&self) -> FontDataV {
        FontDataV { font_family: self.font_family@, font_style: self.font_style@ }
    }
}

/// A font read from a cursor: two NUL-terminated strings.
pub open spec fn spec_step_font_data(c: Seq<u8>) -> (Option<FontDataV>, Seq<u8>) {
    let (fam, c1) = spec_step_string(c);
    match fam {
        None => (None, c1),
        Some(family) => {
            let (st, c2) = spec_step_string(c1);
            match st {
                None => (None, c2),
                Some(style) => (Some(FontDataV { font_family: family, font_style: style }), c2),
            }
        },
    }
}

impl FontData {
    /// Family, then style.
    pub fn parse(p: &mut SliceParser) -> (r: Result<FontData, ParseError>)
        ensures
            match r {
                Ok(v) => spec_step_font_data(old(p)@).0 == Some(v@) && final(p)@
                    == spec_step_font_data(old(p)@).1,
                Err(e) => spec_step_font_data(old(p)@).0 is None && final(p)@
                    == spec_step_font_data(old(p)@).1,
            },
    {
        let font_family = p.next_string()?;
        let font_style = p.next_string()?;
        Ok(FontData { font_family, font_style })
    }
}

/// The ghost value of a [`FontTables`] record.
pub struct FontTablesV {
    pub count: u32,
    pub font_datas: Seq<FontDataV>,
}

/// The fonts a file embeds.
#[derive(Debug, Clone, PartialEq, Eq)]
pub struct FontTables {
    pub count: u32,
    pub font_datas: Vec<FontData>,
}

impl View for FontTables {
    type V = FontTablesV;

    open spec fn view(&self) -> FontTablesV {
        FontTablesV {
            count: self.count,
            font_datas: self.font_datas@.map_values(|fd: FontData| fd@),
        }
    }
}

/// Font tables read from a cursor: a varint count, then that many
/// fonts.
pub open spec fn spec_step_font_tables(c: Seq<u8>) -> (Option<FontTablesV>, Seq<u8>) {
    let (n, c1) = spec_step_varint_u32(c);
    match n {
        None => (None, c1),
        Some(count) => {
            let (fs, c2) = spec_step_many(c1, count as nat, (|cc: Seq<u8>| spec_step_font_data(cc)));
            match fs {
                None => (None, c2),
                Some(fonts) => (Some(FontTablesV { count, font_datas: fonts }), c2),
            }
        },
    }
}

impl FontTables {
    /// A varint count, then the fonts.
    pub fn parse(p: &mut SliceParser) -> (r: Result<FontTables, ParseError>)
        ensures
            match r {
                Ok(v) => spec_step_font_tables(old(p)@).0 == Some(v@) && final(p)@
                    == spec_step_font_tables(old(p)@).1,
                Err(e) => spec_step_font_tables(old(p)@).0 is None,
            },
    {
        let count = p.next_encoded_u32()?;
        let ghost c1 = p@;
        let mut font_datas: Vec<FontData> = Vec::new();
        let mut i: u32 = 0;
        proof {
            assert(font_datas@.map_values(|fd: FontData| fd@) =~= Seq::<FontDataV>::empty());
            assert(Seq::<FontDataV>::empty() + spec_step_many(
                c1,
                count as nat,
                (|cc: Seq<u8>| spec_step_font_data(cc)),
            ).0.unwrap() =~= spec_step_many(
                c1,
                count as nat,
                (|cc: Seq<u8>| spec_step_font_data(cc)),
            ).0.unwrap());
        }
        while i < count
            invariant
                i <= count,
                spec_step_font_tables(old(p)@) == ({
                    let (o, cf) = spec_step_many(
                        c1,
                        count as nat,
                        (|cc: Seq<u8>| spec_step_font_data(cc)),
                    );
                    match o {
                        None => (None::<FontTablesV>, cf),
                        Some(fonts) => (
                            Some(FontTablesV { count, font_datas: fonts }),
                            cf,
                        ),
                    }
                }),
                spec_step_many(c1, count as nat, (|cc: Seq<u8>| spec_step_font_data(cc))) == ({
                    let (o, cf) = spec_step_many(
                        p@,
                        (count - i) as nat,
                        (|cc: Seq<u8>| spec_step_font_data(cc)),
                    );
                    match o {
                        None => (None::<Seq<FontDataV>>, cf),
                        Some(vs) => (
                            Some(font_datas@.map_values(|fd: FontData| fd@) + vs),
                            cf,
                        ),
                    }
                }),
            decreases count - i,
        {
            let ghost cprev = p@;
            let ghost prevm = font_datas@.map_values(|fd: FontData| fd@);
            let fd = FontData::parse(p)?;
            font_datas.push(fd);
            i = i + 1;
            proof {
                let stepf = (|cc: Seq<u8>| spec_step_font_data(cc));
                assert(stepf(cprev) == spec_step_font_data(cprev));
                assert(font_datas@.map_values(|fd2: FontData| fd2@) =~= prevm + seq![fd@]);
                let (o2, cf2) = spec_step_many(p@, (count - i) as nat, stepf);
                match o2 {
                    None => {},
                    Some(vs) => {
                        assert((prevm + seq![fd@]) + vs =~= prevm + (seq![fd@] + vs));
                    },
                }
            }
        }
        proof {
            let stepf = (|cc: Seq<u8>| spec_step_font_data(cc));
            assert(spec_step_many(p@, 0, stepf) == (Some(Seq::<FontDataV>::empty()), p@));
            assert(font_datas@.map_values(|fd: FontData| fd@) + Seq::<FontDataV>::empty()
                =~= font_datas@.map_values(|fd: FontData| fd@));
        }
        Ok(FontTables { count, font_datas })
    }
}

/// The ghost value of a [`TextDocument`] record.
pub struct TextDocumentV {
    pub apply_fill_flag: bool,
    pub apply_stroke_flag: bool,
    pub box_text_flag: bool,
    pub faux_bold_flag: bool,
    pub faux_italic_flag: bool,
    pub stroke_over_fill_flag: bool,
    pub baseline_shift_flag: bool,
    pub first_baseline_flag: bool,
    pub box_text_pos_flag: bool,
    pub box_text_size_flag: bool,
    pub fill_color_flag: bool,
    pub font_size_flag: bool,
    pub stroke_color_flag: bool,
    pub stroke_width_flag: bool,
    pub text_flag: bool,
    pub justification_flag: bool,
    pub leading_flag: bool,
    pub tracking_flag: bool,
    pub has_font_data_flag: bool,
    pub baseline_shift: Option<Float32>,
    pub first_baseline: Option<Float32>,
    pub box_text_pos: Option<Point>,
    pub box_text_size: Option<Point>,
    pub fill_color: Option<Color>,
    pub font_size: Option<Float32>,
    pub stroke_color: Option<Color>,
    pub stroke_width: Option<Float32>,
    pub text: Option<Seq<char>>,
    pub justification: Option<u8>,
    pub leading: Option<Float32>,
    pub tracking: Option<Float32>,
    pub font_id: Option<u32>,
}

/// The text content and styling of a text layer: a 19-bit flag region,
/// rounded up to a whole byte, followed by the payloads of exactly the
/// flagged fields in declaration order.
#[derive(Debug, Clone, PartialEq, Eq)]
pub struct TextDocument {
    pub apply_fill_flag: bool,
    pub apply_stroke_flag: bool,
    pub box_text_flag: bool,
    pub faux_bold_flag: bool,
    pub faux_italic_flag: bool,
    pub stroke_over_fill_flag: bool,
    pub baseline_shift_flag: bool,
    pub first_baseline_flag: bool,
    pub box_text_pos_flag: bool,
    pub box_text_size_flag: bool,
    pub fill_color_flag: bool,
    pub font_size_flag: bool,
    pub stroke_color_flag: bool,
    pub stroke_width_flag: bool,
    pub text_flag: bool,
    pub justification_flag: bool,
    pub leading_flag: bool,
    pub tracking_flag: bool,
    pub has_font_data_flag: bool,
    pub baseline_shift: Option<Float32>,
    pub first_baseline: Option<Float32>,
    pub box_text_pos: Option<Point>,
    pub box_text_size: Option<Point>,
    pub fill_color: Option<Color>,
    pub font_size: Option<Float32>,
    pub stroke_color: Option<Color>,
    pub stroke_width: Option<Float32>,
    pub text: Option<String>,
    pub justification: Option<u8>,
    pub leading: Option<Float32>,
    pub tracking: Option<Float32>,
    pub font_id: Option<u32>,
}

impl View for TextDocument {
    type V = TextDocumentV;

    open spec fn view(&self) -> TextDocumentV {
        TextDocumentV {
            apply_fill_flag: self.apply_fill_flag,
            apply_stroke_flag: self.apply_stroke_flag,
            box_text_flag: self.box_text_flag,
            faux_bold_flag: self.faux_bold_flag,
            faux_italic_flag: self.faux_italic_flag,
            stroke_over_fill_flag: self.stroke_over_fill_flag,
            baseline_shift_flag: self.baseline_shift_flag,
            first_baseline_flag: self.first_baseline_flag,
            box_text_pos_flag: self.box_text_pos_flag,
            box_text_size_flag: self.box_text_size_flag,
            fill_color_flag: self.fill_color_flag,
            font_size_flag: self.font_size_flag,
            stroke_color_flag: self.stroke_color_flag,
            stroke_width_flag: self.stroke_width_flag,
            text_flag: self.text_flag,
            justification_flag: self.justification_flag,
            leading_flag: self.leading_flag,
            tracking_flag: self.tracking_flag,
            has_font_data_flag: self.has_font_data_flag,
            baseline_shift: self.baseline_shift,
            first_baseline: self.first_baseline,
            box_text_pos: self.box_text_pos,
            box_text_size: self.box_text_size,
            fill_color: self.fill_color,
            font_size: self.font_size,
            stroke_color: self.stroke_color,
            stroke_width: self.stroke_width,
            text: match self.text {
                Some(ref s) => Some(s@),
                None => None,
            },
            justification: self.justification,
            leading: self.leading,
            tracking: self.tracking,
            font_id: self.font_id,
        }
    }
}

impl Default for TextDocument {
    /// All flags clear and every payload absent.
    fn default() -> (r: TextDocument)
        ensures
            r@ == spec_text_document_default(),
    {
        TextDocument {
            apply_fill_flag: false,
            apply_stroke_flag: false,
            box_text_flag: false,
            faux_bold_flag: false,
            faux_italic_flag: false,
            stroke_over_fill_flag: false,
            baseline_shift_flag: false,
            first_baseline_flag: false,
            box_text_pos_flag: false,
            box_text_size_flag: false,
            fill_color_flag: false,
            font_size_flag: false,
            stroke_color_flag: false,
            stroke_width_flag: false,
            text_flag: false,
            justification_flag: false,
            leading_flag: false,
            tracking_flag: false,
            has_font_data_flag: false,
            baseline_shift: None,
            first_baseline: None,
            box_text_pos: None,
            box_text_size: None,
            fill_color: None,
            font_size: None,
            stroke_color: None,
            stroke_width: None,
            text: None,
            justification: None,
            leading: None,
            tracking: None,
            font_id: None,
        }
    }
}

/// The document every flag of which is clear and every payload absent.
pub open spec fn spec_text_document_default() -> TextDocumentV {
    TextDocumentV {
        apply_fill_flag: false,
        apply_stroke_flag: false,
        box_text_flag: false,
        faux_bold_flag: false,
        faux_italic_flag: false,
        stroke_over_fill_flag: false,
        baseline_shift_flag: false,
        first_baseline_flag: false,
        box_text_pos_flag: false,
        box_text_size_flag: false,
        fill_color_flag: false,
        font_size_flag: false,
        stroke_color_flag: false,
        stroke_width_flag: false,
        text_flag: false,
        justification_flag: false,
        leading_flag: false,
        tracking_flag: false,
        has_font_data_flag: false,
        baseline_shift: None,
        first_baseline: None,
        box_text_pos: None,
        box_text_size: None,
        fill_color: None,
        font_size: None,
        stroke_color: None,
        stroke_width: None,
        text: None,
        justification: None,
        leading: None,
        tracking: None,
        font_id: None,
    }
}

/// The flag region of a text document: nineteen bits, with every
/// payload still absent.
pub open spec fn spec_text_flags(s: Seq<u8>) -> TextDocumentV {
    TextDocumentV {
        apply_fill_flag: spec_bit(s, 0),
        apply_stroke_flag: spec_bit(s, 1),
        box_text_flag: spec_bit(s, 2),
        faux_bold_flag: spec_bit(s, 3),
        faux_italic_flag: spec_bit(s, 4),
        stroke_over_fill_flag: spec_bit(s, 5),
        baseline_shift_flag: spec_bit(s, 6),
        first_baseline_flag: spec_bit(s, 7),
        box_text_pos_flag: spec_bit(s, 8),
        box_text_size_flag: spec_bit(s, 9),
        fill_color_flag: spec_bit(s, 10),
        font_size_flag: spec_bit(s, 11),
        stroke_color_flag: spec_bit(s, 12),
        stroke_width_flag: spec_bit(s, 13),
        text_flag: spec_bit(s, 14),
        justification_flag: spec_bit(s, 15),
        leading_flag: spec_bit(s, 16),
        tracking_flag: spec_bit(s, 17),
        has_font_data_flag: spec_bit(s, 18),
        baseline_shift: None,
        first_baseline: None,
        box_text_pos: None,
        box_text_size: None,
        fill_color: None,
        font_size: None,
        stroke_color: None,
        stroke_width: None,
        text: None,
        justification: None,
        leading: None,
        tracking: None,
        font_id: None,
    }
}

/// The text document held in window `s`: nineteen flag bits, then the
/// flagged payloads in order.  `None` when the window cannot hold the
/// flag region or a flagged payload is cut short.
pub open spec fn spec_text_document(s: Seq<u8>) -> Option<TextDocumentV> {
    if 3 > s.len() {
        None
    } else {
        let (o1, c1) = spec_text_payload_style(spec_text_flags(s), s.skip(3));
        match o1 {
            None => None,
            Some(d1) => {
                let (o2, c2) = spec_text_payload_content(d1, c1);
                match o2 {
                    None => None,
                    Some(d2) => Some(d2),
                }
            },
        }
    }
}

#[verifier::opaque]
pub open spec fn spec_text_payload_style(d: TextDocumentV, c0: Seq<u8>) -> (Option<TextDocumentV>, Seq<u8>) {
    let (o_baseline_shift, c1) = spec_opt_step(d.baseline_shift_flag, c0, (|cc: Seq<u8>| spec_step_f32(cc)));
    match o_baseline_shift {
        None => (None, c1),
        Some(v_baseline_shift) => {
            let (o_first_baseline, c2) = spec_opt_step(d.first_baseline_flag, c1, (|cc: Seq<u8>| spec_step_f32(cc)));
            match o_first_baseline {
                None => (None, c2),
                Some(v_first_baseline) => {
                    let (o_box_text_pos, c3) = spec_opt_step(d.box_text_pos_flag, c2, (|cc: Seq<u8>| spec_step_point(cc)));
                    match o_box_text_pos {
                        None => (None, c3),
                        Some(v_box_text_pos) => {
                            let (o_box_text_size, c4) = spec_opt_step(d.box_text_size_flag, c3, (|cc: Seq<u8>| spec_step_point(cc)));
                            match o_box_text_size {
                                None => (None, c4),
                                Some(v_box_text_size) => {
                                    let (o_fill_color, c5) = spec_opt_step(d.fill_color_flag, c4, (|cc: Seq<u8>| spec_step_color(cc)));
                                    match o_fill_color {
                                        None => (None, c5),
                                        Some(v_fill_color) => {
                                            let (o_font_size, c6) = spec_opt_step(d.font_size_flag, c5, (|cc: Seq<u8>| spec_step_f32(cc)));
                                            match o_font_size {
                                                None => (None, c6),
                                                Some(v_font_size) => {
                                                    let (o_stroke_color, c7) = spec_opt_step(d.stroke_color_flag, c6, (|cc: Seq<u8>| spec_step_color(cc)));
                                                    match o_stroke_color {
                                                        None => (None, c7),
                                                        Some(v_stroke_color) => {
                                                            (Some(TextDocumentV { baseline_shift: v_baseline_shift, first_baseline: v_first_baseline, box_text_pos: v_box_text_pos, box_text_size: v_box_text_size, fill_color: v_fill_color, font_size: v_font_size, stroke_color: v_stroke_color, ..d }), c7)
                                                            },
                                                    }
                                                    },
                                            }
                                            },
                                    }
                                    },
                            }
                            },
                    }
                    },
            }
            },
    }
}

/// The second half of a text document's payload region: stroke,
/// text, justification, spacing, and the font reference.
#[verifier::opaque]
pub open spec fn spec_text_payload_content(d: TextDocumentV, c0: Seq<u8>) -> (Option<TextDocumentV>, Seq<u8>) {
    let (o_stroke_width, c1) = spec_opt_step(d.stroke_width_flag, c0, (|cc: Seq<u8>| spec_step_f32(cc)));
    match o_stroke_width {
        None => (None, c1),
        Some(v_stroke_width) => {
            let (o_text, c2) = spec_opt_step(d.text_flag, c1, (|cc: Seq<u8>| spec_step_string(cc)));
            match o_text {
                None => (None, c2),
                Some(v_text) => {
                    let (o_justification, c3) = spec_opt_step(d.justification_flag, c2, (|cc: Seq<u8>| spec_step_u8(cc)));
                    match o_justification {
                        None => (None, c3),
                        Some(v_justification) => {
                            let (o_leading, c4) = spec_opt_step(d.leading_flag, c3, (|cc: Seq<u8>| spec_step_f32(cc)));
                            match o_leading {
                                None => (None, c4),
                                Some(v_leading) => {
                                    let (o_tracking, c5) = spec_opt_step(d.tracking_flag, c4, (|cc: Seq<u8>| spec_step_f32(cc)));
                                    match o_tracking {
                                        None => (None, c5),
                                        Some(v_tracking) => {
                                            let (o_font_id, c6) = spec_opt_step(d.has_font_data_flag, c5, (|cc: Seq<u8>| spec_step_varint_u32(cc)));
                                            match o_font_id {
                                                None => (None, c6),
                                                Some(v_font_id) => {
                                                    (Some(TextDocumentV { stroke_width: v_stroke_width, text: v_text, justification: v_justification, leading: v_leading, tracking: v_tracking, font_id: v_font_id, ..d }), c6)
                                                    },
                                            }
                                            },
                                    }
                                    },
                            }
                            },
                    }
                    },
            }
            },
    }
}

impl TextDocument {
    /// An empty document.
    pub fn new() -> (r: TextDocument)
        ensures
            r@ == spec_text_document_default(),
    {
        TextDocument::default()
    }

    /// Nineteen flag bits, then the flagged payloads in order.  The
    /// window itself is not consumed (tag framing discards it).
    pub fn parse(p: &mut SliceParser) -> (r: Result<TextDocument, ParseError>)
        ensures
            final(p)@ == old(p)@,
            match r {
                Ok(v) => spec_text_document(old(p)@) == Some(v@),
                Err(e) => spec_text_document(old(p)@) is None,
            },
    {
        let d0 = Self::read_flags(p);
        let region = Bits { buffer: p.buffer(), index: 19 };
        let mut c = region.finish()?;
        let d1 = Self::read_style_payloads(d0, &mut c)?;
        let d2 = Self::read_content_payloads(d1, &mut c)?;
        Ok(d2)
    }

    /// The flag region: nineteen bits into a document whose payloads
    /// are still absent.
    #[verifier::rlimit(100)]
    #[verifier::spinoff_prover]
    fn read_flags(p: &SliceParser) -> (d: TextDocument)
        ensures
            d@ == spec_text_flags(p@),
    {
        let bits = Bits::new(p.buffer());
        let apply_fill_flag = bits.get(0);
        let apply_stroke_flag = bits.get(1);
        let box_text_flag = bits.get(2);
        let faux_bold_flag = bits.get(3);
        let faux_italic_flag = bits.get(4);
        let stroke_over_fill_flag = bits.get(5);
        let baseline_shift_flag = bits.get(6);
        let first_baseline_flag = bits.get(7);
        let box_text_pos_flag = bits.get(8);
        let box_text_size_flag = bits.get(9);
        let fill_color_flag = bits.get(10);
        let font_size_flag = bits.get(11);
        let stroke_color_flag = bits.get(12);
        let stroke_width_flag = bits.get(13);
        let text_flag = bits.get(14);
        let justification_flag = bits.get(15);
        let leading_flag = bits.get(16);
        let tracking_flag = bits.get(17);
        let has_font_data_flag = bits.get(18);
        TextDocument {
                apply_fill_flag,
                apply_stroke_flag,
                box_text_flag,
                faux_bold_flag,
                faux_italic_flag,
                stroke_over_fill_flag,
                baseline_shift_flag,
                first_baseline_flag,
                box_text_pos_flag,
                box_text_size_flag,
                fill_color_flag,
                font_size_flag,
                stroke_color_flag,
                stroke_width_flag,
                text_flag,
                justification_flag,
                leading_flag,
                tracking_flag,
                has_font_data_flag,
                baseline_shift: None,
                first_baseline: None,
                box_text_pos: None,
                box_text_size: None,
                fill_color: None,
                font_size: None,
                stroke_color: None,
                stroke_width: None,
                text: None,
                justification: None,
                leading: None,
                tracking: None,
                font_id: None,
        }
    }

    /// Read the first half of the payload region into the document.
    #[verifier::rlimit(100)]
    #[verifier::spinoff_prover]
    fn read_style_payloads(d: TextDocument, c: &mut SliceParser) -> (r: Result<TextDocument, ParseError>)
        ensures
            match r {
                Ok(v) => spec_text_payload_style(d@, old(c)@).0 == Some(v@) && final(c)@ == spec_text_payload_style(
                    d@,
                    old(c)@,
                ).1,
                Err(e) => spec_text_payload_style(d@, old(c)@).0 is None,
            },
    {
        proof {
            reveal(spec_text_payload_style);
        }
        let ghost g_baseline_shift = c@;
        let v_baseline_shift: Option<Float32> = if d.baseline_shift_flag {
            Some(c.next_f32()?)
        } else {
            None
        };
        proof {
            assert(spec_opt_step(d.baseline_shift_flag, g_baseline_shift, (|cc: Seq<u8>| spec_step_f32(cc)))
                == ((Some(v_baseline_shift)), c@));
        }
        let ghost g_first_baseline = c@;
        let v_first_baseline: Option<Float32> = if d.first_baseline_flag {
            Some(c.next_f32()?)
        } else {
            None
        };
        proof {
            assert(spec_opt_step(d.first_baseline_flag, g_first_baseline, (|cc: Seq<u8>| spec_step_f32(cc)))
                == ((Some(v_first_baseline)), c@));
        }
        let ghost g_box_text_pos = c@;
        let v_box_text_pos: Option<Point> = if d.box_text_pos_flag {
            Some(Point::parse(c)?)
        } else {
            None
        };
        proof {
            assert(spec_opt_step(d.box_text_pos_flag, g_box_text_pos, (|cc: Seq<u8>| spec_step_point(cc)))
                == ((Some(v_box_text_pos)), c@));
        }
        let ghost g_box_text_size = c@;
        let v_box_text_size: Option<Point> = if d.box_text_size_flag {
            Some(Point::parse(c)?)
        } else {
            None
        };
        proof {
            assert(spec_opt_step(d.box_text_size_flag, g_box_text_size, (|cc: Seq<u8>| spec_step_point(cc)))
                == ((Some(v_box_text_size)), c@));
        }
        let ghost g_fill_color = c@;
        let v_fill_color: Option<Color> = if d.fill_color_flag {
            Some(Color::parse(c)?)
        } else {
            None
        };
        proof {
            assert(spec_opt_step(d.fill_color_flag, g_fill_color, (|cc: Seq<u8>| spec_step_color(cc)))
                == ((Some(v_fill_color)), c@));
        }
        let ghost g_font_size = c@;
        let v_font_size: Option<Float32> = if d.font_size_flag {
            Some(c.next_f32()?)
        } else {
            None
        };
        proof {
            assert(spec_opt_step(d.font_size_flag, g_font_size, (|cc: Seq<u8>| spec_step_f32(cc)))
                == ((Some(v_font_size)), c@));
        }
        let ghost g_stroke_color = c@;
        let v_stroke_color: Option<Color> = if d.stroke_color_flag {
            Some(Color::parse(c)?)
        } else {
            None
        };
        proof {
            assert(spec_opt_step(d.stroke_color_flag, g_stroke_color, (|cc: Seq<u8>| spec_step_color(cc)))
                == ((Some(v_stroke_color)), c@));
        }
        Ok(TextDocument {
            baseline_shift: v_baseline_shift,
            first_baseline: v_first_baseline,
            box_text_pos: v_box_text_pos,
            box_text_size: v_box_text_size,
            fill_color: v_fill_color,
            font_size: v_font_size,
            stroke_color: v_stroke_color,
            ..d
        })
    }

    /// Read the second half of the payload region into the document.
    #[verifier::rlimit(100)]
    #[verifier::spinoff_prover]
    fn read_content_payloads(d: TextDocument, c: &mut SliceParser) -> (r: Result<TextDocument, ParseError>)
        ensures
            match r {
                Ok(v) => spec_text_payload_content(d@, old(c)@).0 == Some(v@) && final(c)@ == spec_text_payload_content(
                    d@,
                    old(c)@,
                ).1,
                Err(e) => spec_text_payload_content(d@, old(c)@).0 is None,
            },
    {
        proof {
            reveal(spec_text_payload_content);
        }
        let ghost g_stroke_width = c@;
        let v_stroke_width: Option<Float32> = if d.stroke_width_flag {
            Some(c.next_f32()?)
        } else {
            None
        };
        proof {
            assert(spec_opt_step(d.stroke_width_flag, g_stroke_width, (|cc: Seq<u8>| spec_step_f32(cc)))
                == ((Some(v_stroke_width)), c@));
        }
        let ghost g_text = c@;
        let v_text: Option<String> = if d.text_flag {
            Some(c.next_string()?)
        } else {
            None
        };
        proof {
            assert(spec_opt_step(d.text_flag, g_text, (|cc: Seq<u8>| spec_step_string(cc)))
                == ((Some(match v_text { Some(ref t) => Some(t@), None => None })), c@));
        }
        let ghost g_justification = c@;
        let v_justification: Option<u8> = if d.justification_flag {
            Some(c.next_u8()?)
        } else {
            None
        };
        proof {
            assert(spec_opt_step(d.justification_flag, g_justification, (|cc: Seq<u8>| spec_step_u8(cc)))
                == ((Some(v_justification)), c@));
        }
        let ghost g_leading = c@;
        let v_leading: Option<Float32> = if d.leading_flag {
            Some(c.next_f32()?)
        } else {
            None
        };
        proof {
            assert(spec_opt_step(d.leading_flag, g_leading, (|cc: Seq<u8>| spec_step_f32(cc)))
                == ((Some(v_leading)), c@));
        }
        let ghost g_tracking = c@;
        let v_tracking: Option<Float32> = if d.tracking_flag {
            Some(c.next_f32()?)
        } else {
            None
        };
        proof {
            assert(spec_opt_step(d.tracking_flag, g_tracking, (|cc: Seq<u8>| spec_step_f32(cc)))
                == ((Some(v_tracking)), c@));
        }
        let ghost g_font_id = c@;
        let v_font_id: Option<u32> = if d.has_font_data_flag {
            Some(c.next_encoded_u32()?)
        } else {
            None
        };
        proof {
            assert(spec_opt_step(d.has_font_data_flag, g_font_id, (|cc: Seq<u8>| spec_step_varint_u32(cc)))
                == ((Some(v_font_id)), c@));
        }
        Ok(TextDocument {
            stroke_width: v_stroke_width,
            text: v_text,
            justification: v_justification,
            leading: v_leading,
            tracking: v_tracking,
            font_id: v_font_id,
            ..d
        })
    }
}

/// A text document read as an attribute-block value: the decode never
/// consumes from the payload cursor, because the document reads through
/// its own bit cursor over the window.
pub open spec fn spec_step_text_document(c: Seq<u8>) -> (Option<TextDocumentV>, Seq<u8>) {
    (spec_text_document(c), c)
}

impl<'a> AttributeBlock<'a> {
    /// One text-document property.
    pub fn read_text_document(
        &mut self,
        tf: (AttributeType, AttributeFlag),
        default: TextDocument,
    ) -> (r: Result<TextDocument, ParseError>)
        requires
            match old(self).state {
                AttributeBlockState::Flag(b) => b.index + 7 <= usize::MAX,
                AttributeBlockState::Content(_) => true,
            },
        ensures
            spec_attr_read_post(
                old(self).state,
                final(self).state,
                tf.0,
                tf.1,
                default@,
                default@,
                match r {
                    Ok(d) => Ok::<TextDocumentV, ParseError>(d@),
                    Err(e) => Err(e),
                },
                (|c: Seq<u8>| spec_step_text_document(c)),
            ),
    {
        if !self.ensure_content() {
            return Ok(default);
        }
        let p = match &mut self.state {
            AttributeBlockState::Content(p) => p,
            AttributeBlockState::Flag(_) => {
                return Ok(default);
            },
        };
        match tf.0 {
            AttributeType::NotExisted => Ok(default),
            AttributeType::BitFlag => Ok(default),
            AttributeType::FixedValue | AttributeType::Value => {
                if tf.1.exist {
                    match TextDocument::parse(p) {
                        Ok(v) => Ok(v),
                        Err(_) => Ok(default),
                    }
                } else {
                    Ok(default)
                }
            },
            _ => {
                if tf.1.exist && tf.1.animatable {
                    Err(ParseError::BadFrame(BadFrameKind::KeyFrames))
                } else if tf.1.exist {
                    match TextDocument::parse(p) {
                        Ok(v) => Ok(v),
                        Err(_) => Ok(default),
                    }
                } else {
                    Ok(default)
                }
            },
        }
    }
}

/// How text is drawn along a path.
#[derive(Debug, Clone, Copy, PartialEq, Eq, Structural)]
pub struct TextPathOption {
    pub path: u32,
    pub reversed_path: bool,
    pub perpendicular_to_path: bool,
    pub force_alignment: bool,
    pub first_margin: Float32,
    pub last_margin: Float32,
}

/// The path options decoded from window `s`: six declarations' flags in
/// order, then the present values.  The faults are animated properties,
/// whose key-frame layout is not part of this format version.
#[verifier::opaque]
pub open spec fn spec_text_path_option(s: Seq<u8>) -> Result<TextPathOption, ParseError> {
    let f_path = spec_flag_value(AttributeType::Value, s, 0);
    let i1 = spec_flag_bit_count(AttributeType::Value, s, 0);
    let f_rev = spec_flag_value(AttributeType::DiscreteProperty, s, i1);
    let i2 = i1 + spec_flag_bit_count(AttributeType::DiscreteProperty, s, i1);
    let f_perp = spec_flag_value(AttributeType::DiscreteProperty, s, i2);
    let i3 = i2 + spec_flag_bit_count(AttributeType::DiscreteProperty, s, i2);
    let f_force = spec_flag_value(AttributeType::DiscreteProperty, s, i3);
    let i4 = i3 + spec_flag_bit_count(AttributeType::DiscreteProperty, s, i3);
    let f_first = spec_flag_value(AttributeType::SimpleProperty, s, i4);
    let i5 = i4 + spec_flag_bit_count(AttributeType::SimpleProperty, s, i4);
    let f_last = spec_flag_value(AttributeType::SimpleProperty, s, i5);
    let i6 = i5 + spec_flag_bit_count(AttributeType::SimpleProperty, s, i5);
    let off = (i6 + 7) / 8;
    if off > s.len() {
        Ok(
            TextPathOption {
                path: 0,
                reversed_path: false,
                perpendicular_to_path: false,
                force_alignment: false,
                first_margin: Float32 { bits: 0 },
                last_margin: Float32 { bits: 0 },
            },
        )
    } else {
        let c0 = s.skip(off as int);
        let (v_path, c1) = spec_attr_read_ok(
            AttributeType::Value,
            f_path,
            0u32,
            0u32,
            c0,
            (|c: Seq<u8>| spec_step_varint_u32(c)),
        );
        let (r_rev, c2) = spec_attr_read(
            AttributeType::DiscreteProperty,
            f_rev,
            false,
            false,
            c1,
            (|c: Seq<u8>| spec_step_bool(c)),
        );
        match r_rev {
            Err(e) => Err(e),
            Ok(v_rev) => {
                let (r_perp, c3) = spec_attr_read(
                    AttributeType::DiscreteProperty,
                    f_perp,
                    false,
                    false,
                    c2,
                    (|c: Seq<u8>| spec_step_bool(c)),
                );
                match r_perp {
                    Err(e) => Err(e),
                    Ok(v_perp) => {
                        let (r_force, c4) = spec_attr_read(
                            AttributeType::DiscreteProperty,
                            f_force,
                            false,
                            false,
                            c3,
                            (|c: Seq<u8>| spec_step_bool(c)),
                        );
                        match r_force {
                            Err(e) => Err(e),
                            Ok(v_force) => {
                                let (r_first, c5) = spec_attr_read(
                                    AttributeType::SimpleProperty,
                                    f_first,
                                    Float32 { bits: 0 },
                                    Float32 { bits: 0 },
                                    c4,
                                    (|c: Seq<u8>| spec_step_f32(c)),
                                );
                                match r_first {
                                    Err(e) => Err(e),
                                    Ok(v_first) => {
                                        let (r_last, c6) = spec_attr_read(
                                            AttributeType::SimpleProperty,
                                            f_last,
                                            Float32 { bits: 0 },
                                            Float32 { bits: 0 },
                                            c5,
                                            (|c: Seq<u8>| spec_step_f32(c)),
                                        );
                                        match r_last {
                                            Err(e) => Err(e),
                                            Ok(v_last) => Ok(
                                                TextPathOption {
                                                    path: v_path,
                                                    reversed_path: v_rev,
                                                    perpendicular_to_path: v_perp,
                                                    force_alignment: v_force,
                                                    first_margin: v_first,
                                                    last_margin: v_last,
                                                },
                                            ),
                                        }
                                    },
                                }
                            },
                        }
                    },
                }
            },
        }
    }
}

impl TextPathOption {
    /// Decode the path options from the body window; the window itself
    /// is not consumed (tag framing discards it).
    #[verifier::rlimit(100)]
    #[verifier::spinoff_prover]
    pub fn parse(p: &mut SliceParser) -> (r: Result<TextPathOption, ParseError>)
        ensures
            final(p)@ == old(p)@,
            match r {
                Ok(v) => spec_text_path_option(old(p)@) == Ok::<TextPathOption, ParseError>(v),
                Err(e) => spec_text_path_option(old(p)@) == Err::<TextPathOption, ParseError>(e),
            },
    {
        proof {
            reveal(spec_text_path_option);
        }
        let mut block = AttributeBlock::new(p.buffer());
        let path = block.flag(AttributeType::Value);
        let reversed_path = block.flag(AttributeType::DiscreteProperty);
        let perpendicular_to_path = block.flag(AttributeType::DiscreteProperty);
        let force_alignment = block.flag(AttributeType::DiscreteProperty);
        let first_margin = block.flag(AttributeType::SimpleProperty);
        let last_margin = block.flag(AttributeType::SimpleProperty);

        let v_path = block.read_u32(path, 0)?;
        let v_reversed = block.read_bool(reversed_path, false)?;
        let v_perpendicular = block.read_bool(perpendicular_to_path, false)?;
        let v_force = block.read_bool(force_alignment, false)?;
        let v_first = block.read_f32(first_margin, Float32::zero())?;
        let v_last = block.read_f32(last_margin, Float32::zero())?;
        Ok(
            TextPathOption {
                path: v_path,
                reversed_path: v_reversed,
                perpendicular_to_path: v_perpendicular,
                force_alignment: v_force,
                first_margin: v_first,
                last_margin: v_last,
            },
        )
    }
}

/// Grouping options for text animators.
#[derive(Debug, Clone, Copy, PartialEq, Eq, Structural)]
pub struct TextMoreOption {
    pub anchor_point_grouping: ParagraphJustification,
    pub grouping_alignment: Point,
}

/// The extra text options decoded from window `s`.
pub open spec fn spec_text_more_option(s: Seq<u8>) -> Result<TextMoreOption, ParseError> {
    let f_anchor = spec_flag_value(AttributeType::Value, s, 0);
    let i1 = spec_flag_bit_count(AttributeType::Value, s, 0);
    let f_align = spec_flag_value(AttributeType::MultiDimensionProperty, s, i1);
    let i2 = i1 + spec_flag_bit_count(AttributeType::MultiDimensionProperty, s, i1);
    let off = (i2 + 7) / 8;
    if off > s.len() {
        Ok(
            TextMoreOption {
                anchor_point_grouping: ParagraphJustification::LeftJustify,
                grouping_alignment: Point { x: Float32 { bits: 0 }, y: Float32 { bits: 0 } },
            },
        )
    } else {
        let c0 = s.skip(off as int);
        let (v_anchor, c1) = spec_attr_read_ok(
            AttributeType::Value,
            f_anchor,
            0u8,
            0u8,
            c0,
            (|c: Seq<u8>| spec_step_u8(c)),
        );
        let (r_align, c2) = spec_attr_read(
            AttributeType::MultiDimensionProperty,
            f_align,
            Point { x: Float32 { bits: 0 }, y: Float32 { bits: 0 } },
            Point { x: Float32 { bits: 0 }, y: Float32 { bits: 0 } },
            c1,
            (|c: Seq<u8>| spec_step_point(c)),
        );
        match r_align {
            Err(e) => Err(e),
            Ok(v_align) => Ok(
                TextMoreOption {
                    anchor_point_grouping: ParagraphJustification::spec_from_u8(v_anchor),
                    grouping_alignment: v_align,
                },
            ),
        }
    }
}

impl TextMoreOption {
    /// Decode the extra text options from the body window; the window
    /// itself is not consumed (tag framing discards it).
    #[verifier::rlimit(100)]
    #[verifier::spinoff_prover]
    pub fn parse(p: &mut SliceParser) -> (r: Result<TextMoreOption, ParseError>)
        ensures
            final(p)@ == old(p)@,
            match r {
                Ok(v) => spec_text_more_option(old(p)@) == Ok::<TextMoreOption, ParseError>(v),
                Err(e) => spec_text_more_option(old(p)@) == Err::<TextMoreOption, ParseError>(e),
            },
    {
        let mut block = AttributeBlock::new(p.buffer());
        let anchor_point_grouping = block.flag(AttributeType::Value);
        let grouping_alignment = block.flag(AttributeType::MultiDimensionProperty);

        let v_anchor = block.read_u8(anchor_point_grouping, 0)?;
        let v_align = block.read_point(grouping_alignment, Point::zero())?;
        Ok(
            TextMoreOption {
                anchor_point_grouping: ParagraphJustification::from_u8(v_anchor),
                grouping_alignment: v_align,
            },
        )
    }
}

/// The ghost value of a [`TextSource`] record.
pub struct TextSourceV {
    pub source_text: TextDocumentV,
}

/// The source text of a text layer, stored as a single discrete
/// text-document property.
#[derive(Debug, Clone, PartialEq, Eq)]
pub struct TextSource {
    pub source_text: TextDocument,
}

impl View for TextSource {
    type V = TextSourceV;

    open spec fn view(&self) -> TextSourceV {
        TextSourceV { source_text: self.source_text@ }
    }
}

/// The text source decoded from window `s`: one discrete text-document
/// declaration.
pub open spec fn spec_text_source(s: Seq<u8>) -> Result<TextSourceV, ParseError> {
    let f_doc = spec_flag_value(AttributeType::DiscreteProperty, s, 0);
    let i1 = spec_flag_bit_count(AttributeType::DiscreteProperty, s, 0);
    let off = (i1 + 7) / 8;
    if off > s.len() {
        Ok(TextSourceV { source_text: spec_text_document_default() })
    } else {
        let c0 = s.skip(off as int);
        let (r_doc, c1) = spec_attr_read(
            AttributeType::DiscreteProperty,
            f_doc,
            spec_text_document_default(),
            spec_text_document_default(),
            c0,
            (|c: Seq<u8>| spec_step_text_document(c)),
        );
        match r_doc {
            Err(e) => Err(e),
            Ok(v_doc) => Ok(TextSourceV { source_text: v_doc }),
        }
    }
}

impl TextSource {
    /// Decode the text source from the body window; the window itself
    /// is not consumed (tag framing discards it).
    #[verifier::rlimit(100)]
    #[verifier::spinoff_prover]
    pub fn parse(p: &mut SliceParser) -> (r: Result<TextSource, ParseError>)
        ensures
            final(p)@ == old(p)@,
            match r {
                Ok(v) => spec_text_source(old(p)@) == Ok::<TextSourceV, ParseError>(v@),
                Err(e) => spec_text_source(old(p)@) == Err::<TextSourceV, ParseError>(e),
            },
    {
        let mut block = AttributeBlock::new(p.buffer());
        let source_text = block.flag(AttributeType::DiscreteProperty);
        let v_doc = block.read_text_document(source_text, TextDocument::new())?;
        Ok(TextSource { source_text: v_doc })
    }
}

} // verus!
