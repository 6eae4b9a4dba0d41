//! Video records: frame sequences with key-frame flags, and time
//! ranges.

use vstd::prelude::*;

use crate::base::{spec_step_byte_data, ByteData};
use crate::bits::Bits;
use crate::error::ParseError;
use crate::parser::SliceParser;
use crate::wire::{
    spec_bit, spec_step_f32, spec_step_many, spec_step_varint_i32, spec_step_varint_u32,
    spec_step_varint_u64, Float32,
};

verus! {

/// A time interval during which a video is static.
#[derive(Debug, Clone, Copy, PartialEq, Eq, Structural)]
pub struct TimeRange {
    pub start: u64,
    pub end: u64,
}

/// A time range read from a cursor: two varint times.
pub open spec fn spec_step_time_range(c: Seq<u8>) -> (Option<TimeRange>, Seq<u8>) {
    let (s, c1) = spec_step_varint_u64(c);
    match s {
        None => (None, c1),
        Some(start) => {
            let (e, c2) = spec_step_varint_u64(c1);
            match e {
                None => (None, c2),
                Some(end) => (Some(TimeRange { start, end }), c2),
            }
        },
    }
}

impl TimeRange {
    /// Start, then end.
    pub fn parse(p: &mut SliceParser) -> (r: Result<TimeRange, ParseError>)
        ensures
            match r {
                Ok(v) => spec_step_time_range(old(p)@).0 == Some(v) && final(p)@
                    == spec_step_time_range(old(p)@).1,
                Err(e) => spec_step_time_range(old(p)@).0 is None && final(p)@
                    == spec_step_time_range(old(p)@).1,
            },
    {
        let start = p.next_time()?;
        let end = p.next_time()?;
        Ok(TimeRange { start, end })
    }
}

/// The ghost value of a [`VideoFrame`] record.
pub struct VideoFrameV {
    pub is_key_frame: bool,
    pub frame: u64,
    pub file_bytes: Seq<u8>,
}

/// One encoded video frame.  The key-frame flag is not part of the
/// frame's own wire layout; the surrounding sequence copies it in from
/// its flag region.
#[derive(Debug, Clone, PartialEq, Eq)]
pub struct VideoFrame {
    pub is_key_frame: bool,
    pub frame: u64,
    pub file_bytes: ByteData,
}

impl View for VideoFrame {
    type V = VideoFrameV;

    open spec fn view(&self) -> VideoFrameV {
        VideoFrameV {
            is_key_frame: self.is_key_frame,
            frame: self.frame,
            file_bytes: self.file_bytes@,
        }
    }
}

/// A frame read from a cursor: a varint time and byte data; the
/// key-frame flag starts out clear.
pub open spec fn spec_step_video_frame(c: Seq<u8>) -> (Option<VideoFrameV>, Seq<u8>) {
    let (f, c1) = spec_step_varint_u64(c);
    match f {
        None => (None, c1),
        Some(frame) => {
            let (d, c2) = spec_step_byte_data(c1);
            match d {
                None => (None, c2),
                Some(data) => (
                    Some(VideoFrameV { is_key_frame: false, frame, file_bytes: data }),
                    c2,
                ),
            }
        },
    }
}

impl VideoFrame {
    /// Time, then the frame's bytes.
    pub fn parse(p: &mut SliceParser) -> (r: Result<VideoFrame, ParseError>)
        ensures
            match r {
                Ok(v) => spec_step_video_frame(old(p)@).0 == Some(v@) && final(p)@
                    == spec_step_video_frame(old(p)@).1,
                Err(e) => spec_step_video_frame(old(p)@).0 is None,
            },
    {
        let frame = p.next_time()?;
        let file_bytes = ByteData::parse(p)?;
        Ok(VideoFrame { is_key_frame: false, frame, file_bytes })
    }
}

/// `n` frames read in order, each given the key-frame flag held at its
/// index in the flag region `flags_src`.
pub open spec fn spec_video_frames(c: Seq<u8>, n: nat, flags_src: Seq<u8>) -> (
    Option<Seq<VideoFrameV>>,
    Seq<u8>,
) {
    let (o, cf) = spec_step_many(c, n, (|cc: Seq<u8>| spec_step_video_frame(cc)));
    match o {
        None => (None, cf),
        Some(bare) => (
            Some(
                Seq::new(
                    bare.len(),
                    |i: int|
                        VideoFrameV {
                            is_key_frame: spec_bit(flags_src, i as nat),
                            frame: bare[i].frame,
                            file_bytes: bare[i].file_bytes,
                        },
                ),
            ),
            cf,
        ),
    }
}

/// The static time ranges that may trail a video sequence: nothing if
/// the window is spent, else a varint count and that many ranges.
pub open spec fn spec_trailing_time_ranges(c: Seq<u8>) -> (Option<Seq<TimeRange>>, Seq<u8>) {
    if c.len() == 0 {
        (Some(Seq::empty()), c)
    } else {
        let (n, c1) = spec_step_varint_u32(c);
        match n {
            None => (None, c1),
            Some(count) => spec_step_many(c1, count as nat, (|cc: Seq<u8>| spec_step_time_range(cc))),
        }
    }
}

/// The ghost value of a [`VideoSequence`] record.
pub struct VideoSequenceV {
    pub width: i32,
    pub height: i32,
    pub frame_rate: Float32,
    pub alpha_start_x: Option<i32>,
    pub alpha_start_y: Option<i32>,
    pub sps_data: Seq<u8>,
    pub pps_data: Seq<u8>,
    pub frame_count: u32,
    pub is_key_frame_flag: Seq<bool>,
    pub video_frames: Seq<VideoFrameV>,
    pub static_time_ranges: Seq<TimeRange>,
}

/// One version of a video sequence: size, frame rate, codec headers,
/// per-frame key-frame flags, the frames, and optional static ranges.
#[derive(Debug, Clone, PartialEq, Eq)]
pub struct VideoSequence {
    pub width: i32,
    pub height: i32,
    pub frame_rate: Float32,
    pub alpha_start_x: Option<i32>,
    pub alpha_start_y: Option<i32>,
    pub sps_data: ByteData,
    pub pps_data: ByteData,
    pub frame_count: u32,
    pub is_key_frame_flag: Vec<bool>,
    pub video_frames: Vec<VideoFrame>,
    pub static_time_ranges: Vec<TimeRange>,
}

impl View for VideoSequence {
    type V = VideoSequenceV;

    open spec fn view(&self) -> VideoSequenceV {
        VideoSequenceV {
            width: self.width,
            height: self.height,
            frame_rate: self.frame_rate,
            alpha_start_x: self.alpha_start_x,
            alpha_start_y: self.alpha_start_y,
            sps_data: self.sps_data@,
            pps_data: self.pps_data@,
            frame_count: self.frame_count,
            is_key_frame_flag: self.is_key_frame_flag@,
            video_frames: self.video_frames@.map_values(|f: VideoFrame| f@),
            static_time_ranges: self.static_time_ranges@,
        }
    }
}

/// The ghost value of a video sequence's fixed header.
pub struct VideoHeaderV {
    pub width: i32,
    pub height: i32,
    pub frame_rate: Float32,
    pub alpha_start_x: Option<i32>,
    pub alpha_start_y: Option<i32>,
    pub sps_data: Seq<u8>,
    pub pps_data: Seq<u8>,
    pub frame_count: u32,
}

/// The fixed leading fields of a video sequence: size, frame rate,
/// alpha offsets only when the context says so, the codec headers, and
/// the frame count.
pub open spec fn spec_video_header(c: Seq<u8>, has_alpha: bool) -> (
    Option<VideoHeaderV>,
    Seq<u8>,
) {
    let (w, c1) = spec_step_varint_i32(c);
    match w {
        None => (None, c1),
        Some(width) => {
            let (h, c2) = spec_step_varint_i32(c1);
            match h {
                None => (None, c2),
                Some(height) => {
                    let (fr, c3) = spec_step_f32(c2);
                    match fr {
                        None => (None, c3),
                        Some(frame_rate) => {
                            if has_alpha {
                                let (x, c4) = spec_step_varint_i32(c3);
                                match x {
                                    None => (None, c4),
                                    Some(xv) => {
                                        let (y, c5) = spec_step_varint_i32(c4);
                                        match y {
                                            None => (None, c5),
                                            Some(yv) => spec_video_header_tail(
                                                width,
                                                height,
                                                frame_rate,
                                                Some(xv),
                                                Some(yv),
                                                c5,
                                            ),
                                        }
                                    },
                                }
                            } else {
                                spec_video_header_tail(width, height, frame_rate, None, None, c3)
                            }
                        },
                    }
                },
            }
        },
    }
}

/// The codec headers and frame count that end the fixed header.
pub open spec fn spec_video_header_tail(
    width: i32,
    height: i32,
    frame_rate: Float32,
    ax: Option<i32>,
    ay: Option<i32>,
    c: Seq<u8>,
) -> (Option<VideoHeaderV>, Seq<u8>) {
    let (sps, c1) = spec_step_byte_data(c);
    match sps {
        None => (None, c1),
        Some(sps_data) => {
            let (pps, c2) = spec_step_byte_data(c1);
            match pps {
                None => (None, c2),
                Some(pps_data) => {
                    let (fc, c3) = spec_step_varint_u32(c2);
                    match fc {
                        None => (None, c3),
                        Some(frame_count) => (
                            Some(
                                VideoHeaderV {
                                    width,
                                    height,
                                    frame_rate,
                                    alpha_start_x: ax,
                                    alpha_start_y: ay,
                                    sps_data,
                                    pps_data,
                                    frame_count,
                                },
                            ),
                            c3,
                        ),
                    }
                },
            }
        },
    }
}

/// The video sequence held in window `c` under the given alpha flag:
/// the fixed header, then one key-frame bit per frame rounded up to a
/// byte, the frames, and the trailing static ranges.
pub open spec fn spec_video_sequence(c: Seq<u8>, has_alpha: bool) -> (
    Option<VideoSequenceV>,
    Seq<u8>,
) {
    let (hd, c8) = spec_video_header(c, has_alpha);
    match hd {
        None => (None, c8),
        Some(h) => {
            let off = (h.frame_count + 7) / 8;
            if off > c8.len() {
                (None, c8)
            } else {
                let flags = Seq::new(h.frame_count as nat, |i: int| spec_bit(c8, i as nat));
                let c9 = c8.skip(off as int);
                let (fs, c10) = spec_video_frames(c9, h.frame_count as nat, c8);
                match fs {
                    None => (None, c10),
                    Some(frames) => {
                        let (tr, c11) = spec_trailing_time_ranges(c10);
                        match tr {
                            None => (None, c11),
                            Some(ranges) => (
                                Some(
                                    VideoSequenceV {
                                        width: h.width,
                                        height: h.height,
                                        frame_rate: h.frame_rate,
                                        alpha_start_x: h.alpha_start_x,
                                        alpha_start_y: h.alpha_start_y,
                                        sps_data: h.sps_data,
                                        pps_data: h.pps_data,
                                        frame_count: h.frame_count,
                                        is_key_frame_flag: flags,
                                        video_frames: frames,
                                        static_time_ranges: ranges,
                                    },
                                ),
                                c11,
                            ),
                        }
                    },
                }
            }
        },
    }
}

/// The fixed header, as the exec decoder hands it around.
#[derive(Debug, Clone, PartialEq, Eq)]
pub struct VideoHeader {
    pub width: i32,
    pub height: i32,
    pub frame_rate: Float32,
    pub alpha_start_x: Option<i32>,
    pub alpha_start_y: Option<i32>,
    pub sps_data: ByteData,
    pub pps_data: ByteData,
    pub frame_count: u32,
}

impl View for VideoHeader {
    type V = VideoHeaderV;

    open spec fn view(&self) -> VideoHeaderV {
        VideoHeaderV {
            width: self.width,
            height: self.height,
            frame_rate: self.frame_rate,
            alpha_start_x: self.alpha_start_x,
            alpha_start_y: self.alpha_start_y,
            sps_data: self.sps_data@,
            pps_data: self.pps_data@,
            frame_count: self.frame_count,
        }
    }
}

impl VideoSequence {
    /// Read `n` frames, patching in the key-frame flags.
    #[verifier::rlimit(100)]
    #[verifier::spinoff_prover]
    fn read_frames(
        p: &mut SliceParser,
        n: u32,
        flags: &Vec<bool>,
        Ghost(flags_src): Ghost<Seq<u8>>,
    ) -> (r: Result<Vec<VideoFrame>, ParseError>)
        requires
            flags@.len() == n,
            forall|j: int| 0 <= j < n ==> flags@[j] == spec_bit(flags_src, j as nat),
        ensures
            match r {
                Ok(v) => spec_video_frames(old(p)@, n as nat, flags_src).0 == Some(
                    v@.map_values(|f: VideoFrame| f@),
                ) && final(p)@ == spec_video_frames(old(p)@, n as nat, flags_src).1,
                Err(e) => spec_video_frames(old(p)@, n as nat, flags_src).0 is None,
            },
    {
        let ghost c0 = p@;
        let mut video_frames: Vec<VideoFrame> = Vec::new();
        let mut i: u32 = 0;
        proof {
            assert(video_frames@.map_values(
                |f: VideoFrame|
                    VideoFrameV { is_key_frame: false, frame: f.frame, file_bytes: f.file_bytes@ },
            ) =~= Seq::<VideoFrameV>::empty());
            assert(Seq::<VideoFrameV>::empty() + spec_step_many(
                c0,
                n as nat,
                (|cc: Seq<u8>| spec_step_video_frame(cc)),
            ).0.unwrap() =~= spec_step_many(
                c0,
                n as nat,
                (|cc: Seq<u8>| spec_step_video_frame(cc)),
            ).0.unwrap());
        }
        while i < n
            invariant
                c0 == old(p)@,
                i <= n,
                video_frames@.len() == i,
                flags@.len() == n,
                forall|j: int| 0 <= j < n ==> flags@[j] == spec_bit(flags_src, j as nat),
                forall|j: int|
                    0 <= j < i ==> video_frames@[j].is_key_frame == spec_bit(flags_src, j as nat),
                spec_step_many(c0, n as nat, (|cc: Seq<u8>| spec_step_video_frame(cc))) == ({
                    let (o, cf) = spec_step_many(
                        p@,
                        (n - i) as nat,
                        (|cc: Seq<u8>| spec_step_video_frame(cc)),
                    );
                    match o {
                        None => (None::<Seq<VideoFrameV>>, cf),
                        Some(vs) => (
                            Some(
                                video_frames@.map_values(
                                    |f: VideoFrame|
                                        VideoFrameV {
                                            is_key_frame: false,
                                            frame: f.frame,
                                            file_bytes: f.file_bytes@,
                                        },
                                ) + vs,
                            ),
                            cf,
                        ),
                    }
                }),
            decreases n - i,
        {
            let ghost cprev = p@;
            let ghost prevm = video_frames@.map_values(
                |f: VideoFrame|
                    VideoFrameV { is_key_frame: false, frame: f.frame, file_bytes: f.file_bytes@ },
            );
            let mut fr = VideoFrame::parse(p)?;
            let ghost bare = fr@;
            fr.is_key_frame = *vstd::slice::slice_index_get(flags.as_slice(), i as usize);
            video_frames.push(fr);
            i = i + 1;
            proof {
                let stepf = (|cc: Seq<u8>| spec_step_video_frame(cc));
                assert(stepf(cprev) == spec_step_video_frame(cprev));
                assert(video_frames@.map_values(
                    |f: VideoFrame|
                        VideoFrameV {
                            is_key_frame: false,
                            frame: f.frame,
                            file_bytes: f.file_bytes@,
                        },
                ) =~= prevm + seq![bare]);
                let (o2, cf2) = spec_step_many(p@, (n - i) as nat, stepf);
                match o2 {
                    None => {},
                    Some(vs) => {
                        assert((prevm + seq![bare]) + vs =~= prevm + (seq![bare] + vs));
                    },
                }
            }
        }
        proof {
            let stepf = (|cc: Seq<u8>| spec_step_video_frame(cc));
            assert(spec_step_many(p@, 0, stepf) == (Some(Seq::<VideoFrameV>::empty()), p@));
            let barem = video_frames@.map_values(
                |f: VideoFrame|
                    VideoFrameV { is_key_frame: false, frame: f.frame, file_bytes: f.file_bytes@ },
            );
            assert(barem + Seq::<VideoFrameV>::empty() =~= barem);
            assert(video_frames@.map_values(|f: VideoFrame| f@) =~= Seq::new(
                barem.len(),
                |i: int|
                    VideoFrameV {
                        is_key_frame: spec_bit(flags_src, i as nat),
                        frame: barem[i].frame,
                        file_bytes: barem[i].file_bytes,
                    },
            ));
        }
        Ok(video_frames)
    }

    /// Read the trailing static time ranges, if the window still holds
    /// any bytes.
    #[verifier::rlimit(100)]
    #[verifier::spinoff_prover]
    fn read_static_time_ranges(p: &mut SliceParser) -> (r: Result<Vec<TimeRange>, ParseError>)
        ensures
            match r {
                Ok(v) => spec_trailing_time_ranges(old(p)@).0 == Some(v@) && final(p)@
                    == spec_trailing_time_ranges(old(p)@).1,
                Err(e) => spec_trailing_time_ranges(old(p)@).0 is None,
            },
    {
        let mut ranges: Vec<TimeRange> = Vec::new();
        if p.is_empty() {
            proof {
                assert(ranges@ =~= Seq::<TimeRange>::empty());
            }
            return Ok(ranges);
        }
        let count = p.next_encoded_u32()?;
        let ghost c1 = p@;
        let mut i: u32 = 0;
        proof {
            assert(ranges@ =~= Seq::<TimeRange>::empty());
            assert(Seq::<TimeRange>::empty() + spec_step_many(
                c1,
                count as nat,
                (|cc: Seq<u8>| spec_step_time_range(cc)),
            ).0.unwrap() =~= spec_step_many(
                c1,
                count as nat,
                (|cc: Seq<u8>| spec_step_time_range(cc)),
            ).0.unwrap());
        }
        while i < count
            invariant
                i <= count,
                old(p)@.len() > 0,
                crate::wire::spec_varint_u32(old(p)@) matches Some((count2, nn)) && count2 == count
                    && c1 == old(p)@.skip(nn as int),
                spec_trailing_time_ranges(old(p)@) == ({
                    let (o, cf) = spec_step_many(
                        c1,
                        count as nat,
                        (|cc: Seq<u8>| spec_step_time_range(cc)),
                    );
                    (o, cf)
                }),
                spec_step_many(c1, count as nat, (|cc: Seq<u8>| spec_step_time_range(cc))) == ({
                    let (o, cf) = spec_step_many(
                        p@,
                        (count - i) as nat,
                        (|cc: Seq<u8>| spec_step_time_range(cc)),
                    );
                    match o {
                        None => (None::<Seq<TimeRange>>, cf),
                        Some(vs) => (Some(ranges@ + vs), cf),
                    }
                }),
            decreases count - i,
        {
            let ghost cprev = p@;
            let ghost prevm = ranges@;
            let tr = TimeRange::parse(p)?;
            ranges.push(tr);
            i = i + 1;
            proof {
                let stepf = (|cc: Seq<u8>| spec_step_time_range(cc));
                assert(stepf(cprev) == spec_step_time_range(cprev));
                assert(ranges@ =~= prevm + seq![tr]);
                let (o2, cf2) = spec_step_many(p@, (count - i) as nat, stepf);
                match o2 {
                    None => {},
                    Some(vs) => {
                        assert((prevm + seq![tr]) + vs =~= prevm + (seq![tr] + vs));
                    },
                }
            }
        }
        proof {
            let stepf = (|cc: Seq<u8>| spec_step_time_range(cc));
            assert(spec_step_many(p@, 0, stepf) == (Some(Seq::<TimeRange>::empty()), p@));
            assert(ranges@ + Seq::<TimeRange>::empty() =~= ranges@);
        }
        Ok(ranges)
    }

    /// The fixed header fields.
    #[verifier::rlimit(100)]
    #[verifier::spinoff_prover]
    fn read_header(p: &mut SliceParser, has_alpha: bool) -> (r: Result<VideoHeader, ParseError>)
        ensures
            match r {
                Ok(v) => spec_video_header(old(p)@, has_alpha).0 == Some(v@) && final(p)@
                    == spec_video_header(old(p)@, has_alpha).1,
                Err(e) => spec_video_header(old(p)@, has_alpha).0 is None,
            },
    {
        let width = p.next_encoded_i32()?;
        let height = p.next_encoded_i32()?;
        let frame_rate = p.next_f32()?;
        let (alpha_start_x, alpha_start_y) = if has_alpha {
            let x = p.next_encoded_i32()?;
            let y = p.next_encoded_i32()?;
            (Some(x), Some(y))
        } else {
            (None, None)
        };
        let sps_data = ByteData::parse(p)?;
        let pps_data = ByteData::parse(p)?;
        let frame_count = p.next_encoded_u32()?;
        Ok(
            VideoHeader {
                width,
                height,
                frame_rate,
                alpha_start_x,
                alpha_start_y,
                sps_data,
                pps_data,
                frame_count,
            },
        )
    }

    /// Decode a video sequence from the body window, consuming what it
    /// reads.
    #[verifier::rlimit(100)]
    #[verifier::spinoff_prover]
    pub fn parse(p: &mut SliceParser, has_alpha: bool) -> (r: Result<VideoSequence, ParseError>)
        ensures
            match r {
                Ok(v) => spec_video_sequence(old(p)@, has_alpha).0 == Some(v@) && final(p)@
                    == spec_video_sequence(old(p)@, has_alpha).1,
                Err(e) => spec_video_sequence(old(p)@, has_alpha).0 is None,
            },
    {
        let h = Self::read_header(p, has_alpha)?;
        let frame_count = h.frame_count;

        let ghost flags_src = p@;
        let off64: u64 = (frame_count as u64 + 7) / 8;
        if off64 > p.remain() as u64 {
            return Err(ParseError::Incomplete((off64 - p.remain() as u64) as usize));
        }
        let bits = Bits::new(p.buffer());
        let mut is_key_frame_flag: Vec<bool> = Vec::new();
        let mut i: u32 = 0;
        while i < frame_count
            invariant
                i <= frame_count,
                is_key_frame_flag@.len() == i,
                bits.buffer@ == flags_src,
                forall|j: int| 0 <= j < i ==> is_key_frame_flag@[j] == spec_bit(flags_src, j as nat),
            decreases frame_count - i,
        {
            let b = bits.get(i as usize);
            is_key_frame_flag.push(b);
            i = i + 1;
        }
        p.advance(off64 as usize);

        let video_frames = Self::read_frames(
            p,
            frame_count,
            &is_key_frame_flag,
            Ghost(flags_src),
        )?;
        let static_time_ranges = Self::read_static_time_ranges(p)?;
        proof {
            assert(is_key_frame_flag@ =~= Seq::new(
                frame_count as nat,
                |j: int| spec_bit(flags_src, j as nat),
            ));
        }
        Ok(
            VideoSequence {
                width: h.width,
                height: h.height,
                frame_rate: h.frame_rate,
                alpha_start_x: h.alpha_start_x,
                alpha_start_y: h.alpha_start_y,
                sps_data: h.sps_data,
                pps_data: h.pps_data,
                frame_count,
                is_key_frame_flag,
                video_frames,
                static_time_ranges,
            },
        )
    }
}

/// A video composition: an identifier, an alpha flag, and a nested tag
/// block.
#[derive(Debug)]
pub struct VideoCompositionBlock {
    pub id: u32,
    pub has_alpha: bool,
    pub tag_block: crate::tag::TagBlock,
}

impl VideoCompositionBlock {
    /// A varint id, the alpha flag, then the nested block decoded with
    /// the flag pushed into the context.
    #[verifier::rlimit(100)]
    #[verifier::spinoff_prover]
    pub fn parse(p: &mut SliceParser, ctx: crate::context::DefaultParseContext) -> (r: Result<
        VideoCompositionBlock,
        ParseError,
    >)
        ensures
            match r {
                Ok(v) => crate::tag::spec_video_composition_block(old(p)@, ctx) matches Some(
                    (lv, n),
                ) && lv == (crate::tag::VideoCompositionBlockV {
                    id: v.id,
                    has_alpha: v.has_alpha,
                    tag_block: crate::tag::tag_block_view(v.tag_block),
                }) && final(p)@ == old(p)@.skip(n as int),
                Err(e) => crate::tag::spec_video_composition_block(old(p)@, ctx) is None,
            },
        decreases old(p)@.len(), 1int,
    {
        let ghost g0 = p@;
        let id = p.next_id()?;
        let ghost g1 = p@;
        let has_alpha = p.next_bool()?;
        let ghost c2 = p@;
        let tag_block = crate::tag::TagBlock::parse(p, ctx.with_alpha(has_alpha))?;
        proof {
            let bctx = crate::context::DefaultParseContext { has_alpha, ..ctx };
            match crate::wire::spec_varint_u32(g0) {
                None => {
                    assert(false);
                },
                Some((v2, n1)) => {
                    crate::wire::lemma_varint_rec_consumed(g0, 5);
                    assert(g1 == g0.skip(n1 as int));
                    assert(c2 == g1.skip(1));
                    crate::wire::lemma_skip_skip(g0, n1 as int, 1);
                    assert(c2 == g0.skip(n1 as int + 1));
                    crate::tag::lemma_tag_block_consumed(c2, bctx);
                    match crate::tag::spec_tag_block(c2, bctx) {
                        None => {},
                        Some((ts, m)) => {
                            assert(p@ == c2.skip(m as int));
                            crate::wire::lemma_skip_skip(g0, n1 as int + 1, m as int);
                            assert(p@ == g0.skip(n1 as int + 1 + m));
                        },
                    }
                },
            }
        }
        Ok(VideoCompositionBlock { id, has_alpha, tag_block })
    }
}

} // verus!
