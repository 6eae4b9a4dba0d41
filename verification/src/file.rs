//! The file header, file attributes, and the top-level driver types.

use vstd::prelude::*;

use crate::context::DefaultParseContext;
use crate::error::ParseError;
use crate::parser::SliceParser;
use crate::tag::{
    lemma_tags_view_push, spec_tag, tag_block_view, tag_view, Tag, TagBlock, TagCode, TagV,
};
use crate::wire::{
    spec_i8_of, spec_step_many, spec_step_string, spec_step_varint_i64, spec_step_varint_u32,
    spec_u32_le,
};

verus! {

/// The fixed preamble of a file: the `PAG` sentinel, a version byte, a
/// declared length, and the compression method.
#[derive(Debug, Clone, Copy, PartialEq, Eq, Structural)]
pub struct FileHeader {
    pub version: u8,
    pub length: u32,
    pub compress_method: i8,
}

/// The header read from the front of a file: the three sentinel bytes
/// `PAG`, then version, length and compression method — nine bytes in
/// all.
pub open spec fn spec_file_header(s: Seq<u8>) -> Option<(FileHeader, nat)> {
    if s.len() >= 3 && s[0] == 0x50 && s[1] == 0x41 && s[2] == 0x47 {
        if s.len() >= 9 {
            Some(
                (
                    FileHeader {
                        version: s[3],
                        length: spec_u32_le(s.skip(4)),
                        compress_method: spec_i8_of(s[8]),
                    },
                    9,
                ),
            )
        } else {
            None
        }
    } else {
        None
    }
}

impl FileHeader {
    /// The sentinel, then version, length, compression method.
    pub fn parse(p: &mut SliceParser) -> (r: Result<FileHeader, ParseError>)
        ensures
            match r {
                Ok(h) => spec_file_header(old(p)@) matches Some((h2, n)) && h == h2 && final(p)@
                    == old(p)@.skip(n as int),
                Err(e) => spec_file_header(old(p)@) is None,
            },
    {
        let m0 = p.next_u8()?;
        let m1 = p.next_u8()?;
        let m2 = p.next_u8()?;
        if !(m0 == 0x50 && m1 == 0x41 && m2 == 0x47) {
            return Err(ParseError::BadFrame(crate::error::BadFrameKind::Term));
        }
        let version = p.next_u8()?;
        let length = p.next_u32()?;
        let compress_method = p.next_i8()?;
        Ok(FileHeader { version, length, compress_method })
    }
}

/// The ghost value of a [`FileAttributes`] record.
pub struct FileAttributesV {
    pub timestamp: i64,
    pub plugin_version: Seq<char>,
    pub ae_version: Seq<char>,
    pub system_version: Seq<char>,
    pub author: Seq<char>,
    pub scene: Seq<char>,
    pub warnings: Seq<Seq<char>>,
}

/// Provenance of a file: tool versions, author, scene, and exporter
/// warnings.
#[derive(Debug, Clone, PartialEq, Eq)]
pub struct FileAttributes {
    pub timestamp: i64,
    pub plugin_version: String,
    pub ae_version: String,
    pub system_version: String,
    pub author: String,
    pub scene: String,
    pub warnings: Vec<String>,
}

impl View for FileAttributes {
    type V = FileAttributesV;

    open spec fn view(&self) -> FileAttributesV {
        FileAttributesV {
            timestamp: self.timestamp,
            plugin_version: self.plugin_version@,
            ae_version: self.ae_version@,
            system_version: self.system_version@,
            author: self.author@,
            scene: self.scene@,
            warnings: self.warnings@.map_values(|w: String| w@),
        }
    }
}

/// File attributes read from a cursor: a signed varint timestamp, five
/// strings, then a varint-counted list of warning strings.
pub open spec fn spec_step_file_attributes(c: Seq<u8>) -> (Option<FileAttributesV>, Seq<u8>) {
    let (t, c1) = spec_step_varint_i64(c);
    match t {
        None => (None, c1),
        Some(timestamp) => {
            let (pv, c2) = spec_step_string(c1);
            match pv {
                None => (None, c2),
                Some(plugin_version) => {
                    let (av, c3) = spec_step_string(c2);
                    match av {
                        None => (None, c3),
                        Some(ae_version) => {
                            let (sv, c4) = spec_step_string(c3);
                            match sv {
                                None => (None, c4),
                                Some(system_version) => {
                                    let (au, c5) = spec_step_string(c4);
                                    match au {
                                        None => (None, c5),
                                        Some(author) => {
                                            let (sc, c6) = spec_step_string(c5);
                                            match sc {
                                                None => (None, c6),
                                                Some(scene) => {
                                                    let (n, c7) = spec_step_varint_u32(c6);
                                                    match n {
                                                        None => (None, c7),
                                                        Some(count) => {
                                                            let (ws, c8) = spec_step_many(
                                                                c7,
                                                                count as nat,
                                                                (|cc: Seq<u8>| spec_step_string(
                                                                    cc,
                                                                )),
                                                            );
                                                            match ws {
                                                                None => (None, c8),
                                                                Some(warnings) => (
                                                                    Some(
                                                                        FileAttributesV {
                                                                            timestamp,
                                                                            plugin_version,
                                                                            ae_version,
                                                                            system_version,
                                                                            author,
                                                                            scene,
                                                                            warnings,
                                                                        },
                                                                    ),
                                                                    c8,
                                                                ),
                                                            }
                                                        },
                                                    }
                                                },
                                            }
                                        },
                                    }
                                },
                            }
                        },
                    }
                },
            }
        },
    }
}

impl FileAttributes {
    /// Timestamp, five strings, then the warnings.
    #[verifier::rlimit(100)]
    #[verifier::spinoff_prover]
    pub fn parse(p: &mut SliceParser) -> (r: Result<FileAttributes, ParseError>)
        ensures
            match r {
                Ok(v) => spec_step_file_attributes(old(p)@).0 == Some(v@) && final(p)@
                    == spec_step_file_attributes(old(p)@).1,
                Err(e) => spec_step_file_attributes(old(p)@).0 is None,
            },
    {
        let timestamp = p.next_encoded_i64()?;
        let plugin_version = p.next_string()?;
        let ae_version = p.next_string()?;
        let system_version = p.next_string()?;
        let author = p.next_string()?;
        let scene = p.next_string()?;
        let warning_count = p.next_encoded_u32()?;
        let ghost c7 = p@;
        let mut warnings: Vec<String> = Vec::new();
        let mut i: u32 = 0;
        proof {
            assert(warnings@.map_values(|w: String| w@) =~= Seq::<Seq<char>>::empty());
            assert(Seq::<Seq<char>>::empty() + spec_step_many(
                c7,
                warning_count as nat,
                (|cc: Seq<u8>| spec_step_string(cc)),
            ).0.unwrap() =~= spec_step_many(
                c7,
                warning_count as nat,
                (|cc: Seq<u8>| spec_step_string(cc)),
            ).0.unwrap());
        }
        while i < warning_count
            invariant
                i <= warning_count,
                spec_step_file_attributes(old(p)@) == ({
                    let (o, cf) = spec_step_many(
                        c7,
                        warning_count as nat,
                        (|cc: Seq<u8>| spec_step_string(cc)),
                    );
                    match o {
                        None => (None::<FileAttributesV>, cf),
                        Some(ws) => (
                            Some(
                                FileAttributesV {
                                    timestamp,
                                    plugin_version: plugin_version@,
                                    ae_version: ae_version@,
                                    system_version: system_version@,
                                    author: author@,
                                    scene: scene@,
                                    warnings: ws,
                                },
                            ),
                            cf,
                        ),
                    }
                }),
                spec_step_many(
                    c7,
                    warning_count as nat,
                    (|cc: Seq<u8>| spec_step_string(cc)),
                ) == ({
                    let (o, cf) = spec_step_many(
                        p@,
                        (warning_count - i) as nat,
                        (|cc: Seq<u8>| spec_step_string(cc)),
                    );
                    match o {
                        None => (None::<Seq<Seq<char>>>, cf),
                        Some(vs) => (
                            Some(warnings@.map_values(|w: String| w@) + vs),
                            cf,
                        ),
                    }
                }),
            decreases warning_count - i,
        {
            let ghost cprev = p@;
            let ghost prevm = warnings@.map_values(|w: String| w@);
            let w = p.next_string()?;
            proof {
                let stepf = (|cc: Seq<u8>| spec_step_string(cc));
                assert(stepf(cprev) == spec_step_string(cprev));
            }
            warnings.push(w);
            i = i + 1;
            proof {
                let stepf = (|cc: Seq<u8>| spec_step_string(cc));
                assert(warnings@.map_values(|w2: String| w2@) =~= prevm + seq![w@]);
                let (o2, cf2) = spec_step_many(p@, (warning_count - i) as nat, stepf);
                match o2 {
                    None => {},
                    Some(vs) => {
                        assert((prevm + seq![w@]) + vs =~= prevm + (seq![w@] + vs));
                    },
                }
            }
        }
        proof {
            let stepf = (|cc: Seq<u8>| spec_step_string(cc));
            assert(spec_step_many(p@, 0, stepf) == (Some(Seq::<Seq<char>>::empty()), p@));
            assert(warnings@.map_values(|w: String| w@) + Seq::<Seq<char>>::empty()
                =~= warnings@.map_values(|w: String| w@));
        }
        Ok(
            FileAttributes {
                timestamp,
                plugin_version,
                ae_version,
                system_version,
                author,
                scene,
                warnings,
            },
        )
    }
}

/// The one container version this crate decodes.
pub const DEFAULT_PAG_VERSION: u8 = 1;

/// The context every top-level tag is decoded under: nothing set, no
/// alpha, depth zero.
pub open spec fn spec_top_context() -> DefaultParseContext {
    DefaultParseContext { parent_code: None, layer_type: None, has_alpha: false, depth: 0 }
}

/// The top-level tags of the stream `s`: tags read one after another
/// until the buffer is drained or an `End` tag is seen; the `End` is
/// consumed but not retained.
pub open spec fn spec_top_tags(s: Seq<u8>) -> Option<Seq<TagV>>
    decreases s.len(),
{
    if s.len() == 0 {
        Some(Seq::empty())
    } else {
        match spec_tag(s, spec_top_context()) {
            None => None,
            Some((t, n)) => {
                if t.header.code == TagCode::End {
                    Some(Seq::empty())
                } else if 1 <= n <= s.len() {
                    match spec_top_tags(s.skip(n as int)) {
                        None => None,
                        Some(ts) => Some(seq![t] + ts),
                    }
                } else {
                    None
                }
            },
        }
    }
}

/// A whole decoded file: the header and the top-level tags.
#[derive(Debug)]
pub struct Pag {
    pub header: FileHeader,
    pub tag_block: TagBlock,
}

impl Pag {
    /// A file with the given header and no tags yet.
    pub fn new(header: FileHeader) -> (r: Pag)
        ensures
            r.header == header,
            r.tag_block.tags@.len() == 0,
    {
        Pag { header, tag_block: TagBlock { tags: Vec::new() } }
    }

    /// Append a top-level tag.
    pub fn push_tag(&mut self, tag: Tag)
        ensures
            final(self).header == old(self).header,
            final(self).tag_block.tags@ == old(self).tag_block.tags@.push(tag),
    {
        self.tag_block.push(tag);
    }
}

/// The streaming driver: it validates the file header once and then
/// hands out one decoded tag per call.
#[derive(Debug)]
pub struct PagParser<'a> {
    pub header: FileHeader,
    pub inner: SliceParser<'a>,
}

impl<'a> PagParser<'a> {
    /// Validate the header of `input` and stand ready to stream its
    /// tags.  A version other than one is rejected as unsupported.
    pub fn new(input: &'a [u8]) -> (r: Result<Self, ParseError>)
        ensures
            match r {
                Ok(pp) => spec_file_header(input@) matches Some((h, n)) && h.version
                    == DEFAULT_PAG_VERSION && pp.header == h && pp.inner@ == input@.skip(n as int),
                Err(e) => match spec_file_header(input@) {
                    Some((h, n)) => h.version != DEFAULT_PAG_VERSION && e
                        == ParseError::UnsupportPagVersion(h.version),
                    None => true,
                },
            },
    {
        let mut parser = SliceParser::new(input);
        let header = FileHeader::parse(&mut parser)?;
        if header.version != DEFAULT_PAG_VERSION {
            return Err(ParseError::UnsupportPagVersion(header.version));
        }
        Ok(PagParser { header, inner: parser })
    }

    /// The next tag of the stream: `None` once the buffer is drained,
    /// otherwise the decoded tag or the terminal error.
    pub fn next_tag(&mut self) -> (r: Option<Result<Tag, ParseError>>)
        ensures
            final(self).header == old(self).header,
            match r {
                None => old(self).inner@.len() == 0 && final(self).inner@ == old(self).inner@,
                Some(rr) => old(self).inner@.len() > 0 && (match rr {
                    Ok(t) => {
                        &&& spec_tag(old(self).inner@, spec_top_context()) matches Some((tv, n))
                            && tag_view(t) == tv && final(self).inner@ == old(self).inner@.skip(
                            n as int,
                        )
                        &&& final(self).inner@.len() <= old(self).inner@.len() - 2
                    },
                    Err(e) => spec_tag(old(self).inner@, spec_top_context()) is None,
                }),
            },
    {
        if self.inner.is_empty() {
            None
        } else {
            Some(Tag::parse(&mut self.inner, DefaultParseContext::new()))
        }
    }

    /// Decode the whole of `input` eagerly: the header, then every
    /// top-level tag up to a terminal `End` (not retained) or the end
    /// of the buffer.  The first malformed frame aborts the parse.
    #[verifier::rlimit(100)]
    #[verifier::spinoff_prover]
    pub fn parse_all(input: &'a [u8]) -> (r: Result<Pag, ParseError>)
        ensures
            match r {
                Ok(pag) => spec_file_header(input@) matches Some((h, n)) && h.version
                    == DEFAULT_PAG_VERSION && pag.header == h && spec_top_tags(
                    input@.skip(n as int),
                ) == Some(tag_block_view(pag.tag_block)),
                Err(e) => match spec_file_header(input@) {
                    None => true,
                    Some((h, n)) => if h.version != DEFAULT_PAG_VERSION {
                        e == ParseError::UnsupportPagVersion(h.version)
                    } else {
                        spec_top_tags(input@.skip(n as int)) is None
                    },
                },
            },
    {
        let mut parser = Self::new(input)?;
        let mut pag = Pag::new(parser.header);
        let ghost c0 = parser.inner@;
        proof {
            assert(tag_block_view(pag.tag_block) =~= Seq::<TagV>::empty());
        }
        loop
            invariant
                spec_file_header(input@) matches Some((h2, n2)) && h2.version
                    == DEFAULT_PAG_VERSION && pag.header == h2 && parser.header == h2 && c0
                    == input@.skip(n2 as int),
                spec_top_tags(c0) == ({
                    match spec_top_tags(parser.inner@) {
                        None => None::<Seq<TagV>>,
                        Some(ts) => Some(tag_block_view(pag.tag_block) + ts),
                    }
                }),
            decreases parser.inner@.len(),
        {
            let ghost cprev = parser.inner@;
            let ghost prevv = tag_block_view(pag.tag_block);
            match parser.next_tag() {
                None => {
                    proof {
                        assert(prevv + Seq::<TagV>::empty() =~= prevv);
                    }
                    return Ok(pag);
                },
                Some(tr) => {
                    let t = tr?;
                    if t.is_empty() {
                        proof {
                            assert(prevv + Seq::<TagV>::empty() =~= prevv);
                        }
                        return Ok(pag);
                    }
                    proof {
                        lemma_tags_view_push(pag.tag_block.tags@, t, 0);
                    }
                    pag.push_tag(t);
                    proof {
                        assert(tag_block_view(pag.tag_block) =~= prevv + seq![tag_view(t)]);
                        match spec_top_tags(parser.inner@) {
                            None => {},
                            Some(ts) => {
                                assert((prevv + seq![tag_view(t)]) + ts =~= prevv + (seq![
                                    tag_view(t),
                                ] + ts));
                            },
                        }
                    }
                },
            }
        }
    }
}

} // verus!
