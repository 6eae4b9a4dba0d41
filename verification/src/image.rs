//! Image records: embedded image bytes in their three versions, image
//! references, and the image table.

use vstd::prelude::*;

use crate::base::{spec_step_byte_data, ByteData};
use crate::error::ParseError;
use crate::parser::SliceParser;
use crate::wire::{spec_step_f32, spec_step_many, spec_step_varint_i32, spec_step_varint_u32, Float32};

verus! {

/// The ghost value of an [`ImageBytes`] record.
pub struct ImageBytesV {
    pub id: u32,
    pub file_bytes: Seq<u8>,
}

/// A compressed image and its identifier.
#[derive(Debug, Clone, PartialEq, Eq)]
pub struct ImageBytes {
    pub id: u32,
    pub file_bytes: ByteData,
}

impl View for ImageBytes {
    type V = ImageBytesV;

    open spec fn view(&self) -> ImageBytesV {
        ImageBytesV { id: self.id, file_bytes: self.file_bytes@ }
    }
}

/// Image bytes read from a cursor: a varint id, then byte data.
pub open spec fn spec_step_image_bytes(c: Seq<u8>) -> (Option<ImageBytesV>, Seq<u8>) {
    let (i, c1) = spec_step_varint_u32(c);
    match i {
        None => (None, c1),
        Some(id) => {
            let (d, c2) = spec_step_byte_data(c1);
            match d {
                None => (None, c2),
                Some(data) => (Some(ImageBytesV { id, file_bytes: data }), c2),
            }
        },
    }
}

impl ImageBytes {
    /// Identifier, then the image's bytes.
    pub fn parse(p: &mut SliceParser) -> (r: Result<ImageBytes, ParseError>)
        ensures
            match r {
                Ok(v) => spec_step_image_bytes(old(p)@).0 == Some(v@) && final(p)@
                    == spec_step_image_bytes(old(p)@).1,
                Err(e) => spec_step_image_bytes(old(p)@).0 is None,
            },
    {
        let id = p.next_encoded_u32()?;
        let file_bytes = ByteData::parse(p)?;
        Ok(ImageBytes { id, file_bytes })
    }
}

/// The ghost value of an [`ImageBytes2`] record.
pub struct ImageBytes2V {
    pub id: u32,
    pub file_bytes: Seq<u8>,
    pub scale_factor: Float32,
}

/// A compressed image with a scale factor.
#[derive(Debug, Clone, PartialEq, Eq)]
pub struct ImageBytes2 {
    pub id: u32,
    pub file_bytes: ByteData,
    pub scale_factor: Float32,
}

impl View for ImageBytes2 {
    type V = ImageBytes2V;

    open spec fn view(&self) -> ImageBytes2V {
        ImageBytes2V { id: self.id, file_bytes: self.file_bytes@, scale_factor: self.scale_factor }
    }
}

/// Version-2 image bytes read from a cursor.
pub open spec fn spec_step_image_bytes_2(c: Seq<u8>) -> (Option<ImageBytes2V>, Seq<u8>) {
    let (i, c1) = spec_step_varint_u32(c);
    match i {
        None => (None, c1),
        Some(id) => {
            let (d, c2) = spec_step_byte_data(c1);
            match d {
                None => (None, c2),
                Some(data) => {
                    let (f, c3) = spec_step_f32(c2);
                    match f {
                        None => (None, c3),
                        Some(scale) => (
                            Some(ImageBytes2V { id, file_bytes: data, scale_factor: scale }),
                            c3,
                        ),
                    }
                },
            }
        },
    }
}

impl ImageBytes2 {
    /// Identifier, bytes, scale factor.
    pub fn parse(p: &mut SliceParser) -> (r: Result<ImageBytes2, ParseError>)
        ensures
            match r {
                Ok(v) => spec_step_image_bytes_2(old(p)@).0 == Some(v@) && final(p)@
                    == spec_step_image_bytes_2(old(p)@).1,
                Err(e) => spec_step_image_bytes_2(old(p)@).0 is None,
            },
    {
        let id = p.next_encoded_u32()?;
        let file_bytes = ByteData::parse(p)?;
        let scale_factor = p.next_f32()?;
        Ok(ImageBytes2 { id, file_bytes, scale_factor })
    }
}

/// The ghost value of an [`ImageBytes3`] record.
pub struct ImageBytes3V {
    pub id: u32,
    pub file_bytes: Seq<u8>,
    pub scale_factor: Float32,
    pub width: i32,
    pub height: i32,
    pub anchor_x: i32,
    pub anchor_y: i32,
}

/// A compressed image with its transparent border trimmed off.
#[derive(Debug, Clone, PartialEq, Eq)]
pub struct ImageBytes3 {
    pub id: u32,
    pub file_bytes: ByteData,
    pub scale_factor: Float32,
    pub width: i32,
    pub height: i32,
    pub anchor_x: i32,
    pub anchor_y: i32,
}

impl View for ImageBytes3 {
    type V = ImageBytes3V;

    open spec fn view(&self) -> ImageBytes3V {
        ImageBytes3V {
            id: self.id,
            file_bytes: self.file_bytes@,
            scale_factor: self.scale_factor,
            width: self.width,
            height: self.height,
            anchor_x: self.anchor_x,
            anchor_y: self.anchor_y,
        }
    }
}

/// Version-3 image bytes read from a cursor.
pub open spec fn spec_step_image_bytes_3(c: Seq<u8>) -> (Option<ImageBytes3V>, Seq<u8>) {
    let (i, c1) = spec_step_varint_u32(c);
    match i {
        None => (None, c1),
        Some(id) => {
            let (d, c2) = spec_step_byte_data(c1);
            match d {
                None => (None, c2),
                Some(data) => {
                    let (f, c3) = spec_step_f32(c2);
                    match f {
                        None => (None, c3),
                        Some(scale) => {
                            let (w, c4) = spec_step_varint_i32(c3);
                            match w {
                                None => (None, c4),
                                Some(width) => {
                                    let (h, c5) = spec_step_varint_i32(c4);
                                    match h {
                                        None => (None, c5),
                                        Some(height) => {
                                            let (ax, c6) = spec_step_varint_i32(c5);
                                            match ax {
                                                None => (None, c6),
                                                Some(anchor_x) => {
                                                    let (ay, c7) = spec_step_varint_i32(c6);
                                                    match ay {
                                                        None => (None, c7),
                                                        Some(anchor_y) => (
                                                            Some(
                                                                ImageBytes3V {
                                                                    id,
                                                                    file_bytes: data,
                                                                    scale_factor: scale,
                                                                    width,
                                                                    height,
                                                                    anchor_x,
                                                                    anchor_y,
                                                                },
                                                            ),
                                                            c7,
                                                        ),
                                                    }
                                                },
                                            }
                                        },
                                    }
                                },
                            }
                        },
                    }
                },
            }
        },
    }
}

impl ImageBytes3 {
    /// Identifier, bytes, scale factor, trimmed size and anchor.
    pub fn parse(p: &mut SliceParser) -> (r: Result<ImageBytes3, ParseError>)
        ensures
            match r {
                Ok(v) => spec_step_image_bytes_3(old(p)@).0 == Some(v@) && final(p)@
                    == spec_step_image_bytes_3(old(p)@).1,
                Err(e) => spec_step_image_bytes_3(old(p)@).0 is None,
            },
    {
        let id = p.next_encoded_u32()?;
        let file_bytes = ByteData::parse(p)?;
        let scale_factor = p.next_f32()?;
        let width = p.next_encoded_i32()?;
        let height = p.next_encoded_i32()?;
        let anchor_x = p.next_encoded_i32()?;
        let anchor_y = p.next_encoded_i32()?;
        Ok(ImageBytes3 { id, file_bytes, scale_factor, width, height, anchor_x, anchor_y })
    }
}

/// A reference to an image by its identifier.
#[derive(Debug, Clone, Copy, PartialEq, Eq, Structural)]
pub struct ImageReference {
    pub id: u32,
}

/// An image reference read from a cursor: a single varint id.
pub open spec fn spec_step_image_reference(c: Seq<u8>) -> (Option<ImageReference>, Seq<u8>) {
    let (i, c1) = spec_step_varint_u32(c);
    match i {
        None => (None, c1),
        Some(id) => (Some(ImageReference { id }), c1),
    }
}

impl ImageReference {
    /// One varint identifier.
    pub fn parse(p: &mut SliceParser) -> (r: Result<ImageReference, ParseError>)
        ensures
            match r {
                Ok(v) => spec_step_image_reference(old(p)@).0 == Some(v) && final(p)@
                    == spec_step_image_reference(old(p)@).1,
                Err(e) => spec_step_image_reference(old(p)@).0 is None && final(p)@
                    == spec_step_image_reference(old(p)@).1,
            },
    {
        let id = p.next_id()?;
        Ok(ImageReference { id })
    }
}

/// The ghost value of an [`ImageTables`] record.
pub struct ImageTablesV {
    pub count: i32,
    pub images: Seq<ImageBytesV>,
}

/// The images a file embeds.
#[derive(Debug, Clone, PartialEq, Eq)]
pub struct ImageTables {
    pub count: i32,
    pub images: Vec<ImageBytes>,
}

impl View for ImageTables {
    type V = ImageTablesV;

    open spec fn view(&self) -> ImageTablesV {
        ImageTablesV { count: self.count, images: self.images@.map_values(|ib: ImageBytes| ib@) }
    }
}

/// Image tables read from a cursor: a signed varint count, then that
/// many images (none when the count is negative).
pub open spec fn spec_step_image_tables(c: Seq<u8>) -> (Option<ImageTablesV>, Seq<u8>) {
    let (n, c1) = spec_step_varint_i32(c);
    match n {
        None => (None, c1),
        Some(count) => {
            let m = if count > 0 {
                count as nat
            } else {
                0
            };
            let (is, c2) = spec_step_many(c1, m, (|cc: Seq<u8>| spec_step_image_bytes(cc)));
            match is {
                None => (None, c2),
                Some(images) => (Some(ImageTablesV { count, images }), c2),
            }
        },
    }
}

impl ImageTables {
    /// A signed varint count, then the images.
    pub fn parse(p: &mut SliceParser) -> (r: Result<ImageTables, ParseError>)
        ensures
            match r {
                Ok(v) => spec_step_image_tables(old(p)@).0 == Some(v@) && final(p)@
                    == spec_step_image_tables(old(p)@).1,
                Err(e) => spec_step_image_tables(old(p)@).0 is None,
            },
    {
        let count = p.next_encoded_i32()?;
        let n: u32 = if count > 0 {
            count as u32
        } else {
            0
        };
        let ghost c1 = p@;
        let mut images: Vec<ImageBytes> = Vec::new();
        let mut i: u32 = 0;
        proof {
            assert(images@.map_values(|ib: ImageBytes| ib@) =~= Seq::<ImageBytesV>::empty());
            assert(Seq::<ImageBytesV>::empty() + spec_step_many(
                c1,
                n as nat,
                (|cc: Seq<u8>| spec_step_image_bytes(cc)),
            ).0.unwrap() =~= spec_step_many(
                c1,
                n as nat,
                (|cc: Seq<u8>| spec_step_image_bytes(cc)),
            ).0.unwrap());
        }
        while i < n
            invariant
                i <= n,
                spec_step_image_tables(old(p)@) == ({
                    let (o, cf) = spec_step_many(
                        c1,
                        n as nat,
                        (|cc: Seq<u8>| spec_step_image_bytes(cc)),
                    );
                    match o {
                        None => (None::<ImageTablesV>, cf),
                        Some(images2) => (
                            Some(ImageTablesV { count, images: images2 }),
                            cf,
                        ),
                    }
                }),
                spec_step_many(c1, n as nat, (|cc: Seq<u8>| spec_step_image_bytes(cc))) == ({
                    let (o, cf) = spec_step_many(
                        p@,
                        (n - i) as nat,
                        (|cc: Seq<u8>| spec_step_image_bytes(cc)),
                    );
                    match o {
                        None => (None::<Seq<ImageBytesV>>, cf),
                        Some(vs) => (
                            Some(images@.map_values(|ib: ImageBytes| ib@) + vs),
                            cf,
                        ),
                    }
                }),
            decreases n - i,
        {
            let ghost cprev = p@;
            let ghost prevm = images@.map_values(|ib: ImageBytes| ib@);
            let ib = ImageBytes::parse(p)?;
            images.push(ib);
            i = i + 1;
            proof {
                let stepf = (|cc: Seq<u8>| spec_step_image_bytes(cc));
                assert(stepf(cprev) == spec_step_image_bytes(cprev));
                assert(images@.map_values(|ib2: ImageBytes| ib2@) =~= prevm + seq![ib@]);
                let (o2, cf2) = spec_step_many(p@, (n - i) as nat, stepf);
                match o2 {
                    None => {},
                    Some(vs) => {
                        assert((prevm + seq![ib@]) + vs =~= prevm + (seq![ib@] + vs));
                    },
                }
            }
        }
        proof {
            let stepf = (|cc: Seq<u8>| spec_step_image_bytes(cc));
            assert(spec_step_many(p@, 0, stepf) == (Some(Seq::<ImageBytesV>::empty()), p@));
            assert(images@.map_values(|ib: ImageBytes| ib@) + Seq::<ImageBytesV>::empty()
                =~= images@.map_values(|ib: ImageBytes| ib@));
        }
        Ok(ImageTables { count, images })
    }
}

/// One frame's placement within a bitmap sequence.  Data only: its wire
/// layout carries no fields in this version of the schema.
#[derive(Debug, Clone, Copy, PartialEq, Eq, Structural)]
pub struct BitmapRect {}

} // verus!
