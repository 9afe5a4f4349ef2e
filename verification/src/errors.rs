use vstd::prelude::*;
use crate::vertex::VertexFormat;

verus! {

/// Everything that can go wrong while decoding or encoding a render-block
/// model.
///
/// Decoding reports the first failure in stream order and consumes nothing
/// past it; encoding reports the first value that the format cannot
/// represent. The codec never panics: every failure is one of these.
#[derive(Clone, Copy, PartialEq, Eq, Structural, Debug)]
pub enum RenderBlockError {
    /// The endianness marker or the magic signature is not one of the legal
    /// patterns.
    MalformedHeader,
    /// The container's version triple is not `(1, 13, _)`.
    UnsupportedVersion { major: u32, minor: u32, patch: u32 },
    /// A block kind tag that is not in the enumerated set. The stream cannot
    /// be resynchronized past it, so the whole decode fails.
    UnsupportedBlock { tag: u8 },
    /// A block's attribute version tag that no supported layout matches.
    UnsupportedBlockVersion { tag: u8 },
    /// A primitive topology tag outside the enumerated set.
    UnsupportedPrimitive { tag: u8 },
    /// A vertex-layout tag outside the enumerated set.
    UnsupportedVertexFormat { tag: u8 },
    /// A general block declared a vertex layout other than the one its
    /// vertex buffer is stored in.
    InvalidVertexFormat { expected: VertexFormat, found: VertexFormat },
    /// A fixed-size list (the eight texture slots) has the wrong length in
    /// memory, so it cannot be written.
    InvalidArrayLength,
    /// A sequence is longer than the format's 32-bit count field can say.
    LengthOverflow,
    /// An index buffer entry at `position` holds `index`, which is not below
    /// the owning vertex count `bound`.
    IndexOutOfBounds { index: u16, position: u64, bound: u64 },
    /// The stream ended before the field that was being read.
    Truncated,
}

} // verus!
