//! A decoder for the PAG (Portable Animated Graphics) binary container:
//! a streaming parser that turns a little-endian byte stream into a typed
//! tree of animation tags.

pub mod wire;
pub mod error;
pub mod parser;
pub mod bits;
pub mod base;
pub mod tag;
pub mod context;
pub mod attr;
pub mod layer;
pub mod text;
pub mod image;
pub mod video;
pub mod shape;
pub mod file;
