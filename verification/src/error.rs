//! Error type shared by every decoder in the crate.

use vstd::prelude::*;

verus! {

/// A structural fault inside an otherwise well-framed byte stream.
#[derive(Debug, Clone, Copy, PartialEq, Eq, Structural)]
pub enum BadFrameKind {
    /// A fixed terminal (such as the file magic) did not match.
    Term,
    /// A string field reached the end of its window without a NUL byte.
    MissingNul,
    /// An attribute flag announced an animatable (key-framed) property;
    /// the key-frame wire layout is not part of this format version.
    KeyFrames,
    /// Composition tags were nested deeper than [`crate::context::MAX_DEPTH`].
    DepthLimit,
}

/// Everything a decode can fail with.
///
/// Decoders never panic: every failure surfaces as one of these values.
#[derive(Debug, Clone, Copy, PartialEq, Eq, Structural)]
pub enum ParseError {
    /// The file header carried a version other than 1.
    UnsupportPagVersion(u8),
    /// More bytes were required than remain; the payload counts the
    /// missing bytes.
    Incomplete(usize),
    /// A structural invariant was violated.
    BadFrame(BadFrameKind),
    /// The input was exhausted where a tag was expected.
    Eof,
}

} // verus!
