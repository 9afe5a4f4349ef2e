use vstd::prelude::*;
use crate::math::{Vec2, Vec3, Vec4};

verus! {

/// Physical vertex layout selector carried in a general block's vertex info.
/// The tag lives outside the vertex records themselves: a record's bytes are
/// not self-describing, so the enclosing attributes pick the layout.
#[derive(Clone, Copy, PartialEq, Eq, Structural, Debug)]
pub enum VertexFormat {
    Simple,
    General,
    Skinned,
    Deformable,
}

/// Eight bone-weight slots, one byte each. A weight byte `w` stands for the
/// fraction `w / 255`; the codec keeps the quantized byte and leaves the
/// division to consumers.
#[derive(Clone, Copy, PartialEq, Eq, Structural, Debug)]
pub struct BoneWeights {
    pub w0: u8,
    pub w1: u8,
    pub w2: u8,
    pub w3: u8,
    pub w4: u8,
    pub w5: u8,
    pub w6: u8,
    pub w7: u8,
}

/// Eight bone-index slots as stored physically, one byte each.
#[derive(Clone, Copy, PartialEq, Eq, Structural, Debug)]
pub struct BoneIndices {
    pub i0: u8,
    pub i1: u8,
    pub i2: u8,
    pub i3: u8,
    pub i4: u8,
    pub i5: u8,
    pub i6: u8,
    pub i7: u8,
}

/// Eight bone-index slots widened to `u32`, the shape the canonical vertex
/// offers to consumers.
#[derive(Clone, Copy, PartialEq, Eq, Structural, Debug)]
pub struct BoneIndicesWide {
    pub i0: u32,
    pub i1: u32,
    pub i2: u32,
    pub i3: u32,
    pub i4: u32,
    pub i5: u32,
    pub i6: u32,
    pub i7: u32,
}

impl BoneWeights {
    pub open spec fn zero_spec() -> BoneWeights {
        BoneWeights { w0: 0, w1: 0, w2: 0, w3: 0, w4: 0, w5: 0, w6: 0, w7: 0 }
    }

    pub fn zero() -> (r: BoneWeights)
        ensures
            r == BoneWeights::zero_spec(),
    {
        BoneWeights { w0: 0, w1: 0, w2: 0, w3: 0, w4: 0, w5: 0, w6: 0, w7: 0 }
    }
}

impl BoneIndices {
    pub open spec fn zero_spec() -> BoneIndices {
        BoneIndices { i0: 0, i1: 0, i2: 0, i3: 0, i4: 0, i5: 0, i6: 0, i7: 0 }
    }

    pub fn zero() -> (r: BoneIndices)
        ensures
            r == BoneIndices::zero_spec(),
    {
        BoneIndices { i0: 0, i1: 0, i2: 0, i3: 0, i4: 0, i5: 0, i6: 0, i7: 0 }
    }
}

impl BoneIndicesWide {
    pub open spec fn zero_spec() -> BoneIndicesWide {
        BoneIndicesWide { i0: 0, i1: 0, i2: 0, i3: 0, i4: 0, i5: 0, i6: 0, i7: 0 }
    }

    pub fn zero() -> (r: BoneIndicesWide)
        ensures
            r == BoneIndicesWide::zero_spec(),
    {
        BoneIndicesWide { i0: 0, i1: 0, i2: 0, i3: 0, i4: 0, i5: 0, i6: 0, i7: 0 }
    }
}

/// Four bytes packed into one word, first byte lowest. The wire groups bone
/// slots this way so that the whole group swaps under the stream's byte
/// order like any other 32-bit field.
pub open spec fn pack4(b0: u8, b1: u8, b2: u8, b3: u8) -> u32 {
    (b0 as u32) | ((b1 as u32) << 8) | ((b2 as u32) << 16) | ((b3 as u32) << 24)
}

pub open spec fn byte0(n: u32) -> u8 {
    (n & 0xFF) as u8
}

pub open spec fn byte1(n: u32) -> u8 {
    ((n >> 8) & 0xFF) as u8
}

pub open spec fn byte2(n: u32) -> u8 {
    ((n >> 16) & 0xFF) as u8
}

pub open spec fn byte3(n: u32) -> u8 {
    ((n >> 24) & 0xFF) as u8
}

/// Packing four bytes and taking them out again is exact, and so is the
/// other way round.
pub proof fn lemma_pack4_bytes(b0: u8, b1: u8, b2: u8, b3: u8)
    ensures
        byte0(pack4(b0, b1, b2, b3)) == b0,
        byte1(pack4(b0, b1, b2, b3)) == b1,
        byte2(pack4(b0, b1, b2, b3)) == b2,
        byte3(pack4(b0, b1, b2, b3)) == b3,
{
    assert((((b0 as u32) | ((b1 as u32) << 8) | ((b2 as u32) << 16) | ((b3 as u32) << 24)) & 0xFF)
        as u8 == b0) by (bit_vector);
    assert(((((b0 as u32) | ((b1 as u32) << 8) | ((b2 as u32) << 16) | ((b3 as u32) << 24)) >> 8)
        & 0xFF) as u8 == b1) by (bit_vector);
    assert(((((b0 as u32) | ((b1 as u32) << 8) | ((b2 as u32) << 16) | ((b3 as u32) << 24)) >> 16)
        & 0xFF) as u8 == b2) by (bit_vector);
    assert(((((b0 as u32) | ((b1 as u32) << 8) | ((b2 as u32) << 16) | ((b3 as u32) << 24)) >> 24)
        & 0xFF) as u8 == b3) by (bit_vector);
}

pub proof fn lemma_bytes_pack4(n: u32)
    ensures
        pack4(byte0(n), byte1(n), byte2(n), byte3(n)) == n,
{
    assert((((n & 0xFF) as u8) as u32) | ((((n >> 8) & 0xFF) as u8 as u32) << 8) | ((((n >> 16)
        & 0xFF) as u8 as u32) << 16) | ((((n >> 24) & 0xFF) as u8 as u32) << 24) == n)
        by (bit_vector);
}

pub fn pack4_exec(b0: u8, b1: u8, b2: u8, b3: u8) -> (r: u32)
    ensures
        r == pack4(b0, b1, b2, b3),
{
    (b0 as u32) | ((b1 as u32) << 8u32) | ((b2 as u32) << 16u32) | ((b3 as u32) << 24u32)
}

impl BoneWeights {
    /// The first four slots as one packed word.
    pub open spec fn lo(self) -> u32 {
        pack4(self.w0, self.w1, self.w2, self.w3)
    }

    /// The last four slots as one packed word.
    pub open spec fn hi(self) -> u32 {
        pack4(self.w4, self.w5, self.w6, self.w7)
    }

    pub open spec fn of_words(lo: u32, hi: u32) -> BoneWeights {
        BoneWeights {
            w0: byte0(lo),
            w1: byte1(lo),
            w2: byte2(lo),
            w3: byte3(lo),
            w4: byte0(hi),
            w5: byte1(hi),
            w6: byte2(hi),
            w7: byte3(hi),
        }
    }

    /// Splitting into two packed words and regrouping is exact.
    pub proof fn lemma_words_roundtrip(self)
        ensures
            BoneWeights::of_words(self.lo(), self.hi()) == self,
    {
        lemma_pack4_bytes(self.w0, self.w1, self.w2, self.w3);
        lemma_pack4_bytes(self.w4, self.w5, self.w6, self.w7);
    }
}

impl BoneIndices {
    pub open spec fn lo(self) -> u32 {
        pack4(self.i0, self.i1, self.i2, self.i3)
    }

    pub open spec fn hi(self) -> u32 {
        pack4(self.i4, self.i5, self.i6, self.i7)
    }

    pub open spec fn of_words(lo: u32, hi: u32) -> BoneIndices {
        BoneIndices {
            i0: byte0(lo),
            i1: byte1(lo),
            i2: byte2(lo),
            i3: byte3(lo),
            i4: byte0(hi),
            i5: byte1(hi),
            i6: byte2(hi),
            i7: byte3(hi),
        }
    }

    /// Splitting into two packed words and regrouping is exact.
    pub proof fn lemma_words_roundtrip(self)
        ensures
            BoneIndices::of_words(self.lo(), self.hi()) == self,
    {
        lemma_pack4_bytes(self.i0, self.i1, self.i2, self.i3);
        lemma_pack4_bytes(self.i4, self.i5, self.i6, self.i7);
    }

    /// The canonical widened form of the eight byte slots.
    pub open spec fn widened(self) -> BoneIndicesWide {
        BoneIndicesWide {
            i0: self.i0 as u32,
            i1: self.i1 as u32,
            i2: self.i2 as u32,
            i3: self.i3 as u32,
            i4: self.i4 as u32,
            i5: self.i5 as u32,
            i6: self.i6 as u32,
            i7: self.i7 as u32,
        }
    }
}

impl BoneIndicesWide {
    /// Back to byte slots; slots above 255 lose their high bits, which the
    /// physical layouts cannot carry.
    pub open spec fn narrowed(self) -> BoneIndices {
        BoneIndices {
            i0: self.i0 as u8,
            i1: self.i1 as u8,
            i2: self.i2 as u8,
            i3: self.i3 as u8,
            i4: self.i4 as u8,
            i5: self.i5 as u8,
            i6: self.i6 as u8,
            i7: self.i7 as u8,
        }
    }
}

/// The canonical in-memory vertex. Every physical layout converts into this
/// one shape so that consumers can walk any block's vertices uniformly.
///
/// Vector components are IEEE 754 single-precision bit patterns (`u32`).
/// A layout that does not store a channel leaves it at the zero pattern;
/// converting back into that layout simply drops the channel again, so only
/// the channels a layout stores are promised to survive a round trip.
#[derive(Clone, Copy, PartialEq, Eq, Structural, Debug)]
pub struct GenericVertex {
    pub position: Vec3<u32>,
    pub normal: Vec3<u32>,
    pub tangent: Vec3<u32>,
    pub binormal: Vec3<u32>,
    pub uv0: Vec2<u32>,
    pub uv1: Vec2<u32>,
    pub color: Vec4<u32>,
    pub bone_weights: BoneWeights,
    pub bone_indices: BoneIndicesWide,
}

impl GenericVertex {
    /// The all-defaulted vertex: every channel at the zero bit pattern.
    pub open spec fn zero_spec() -> GenericVertex {
        GenericVertex {
            position: Vec3 { x: 0, y: 0, z: 0 },
            normal: Vec3 { x: 0, y: 0, z: 0 },
            tangent: Vec3 { x: 0, y: 0, z: 0 },
            binormal: Vec3 { x: 0, y: 0, z: 0 },
            uv0: Vec2 { x: 0, y: 0 },
            uv1: Vec2 { x: 0, y: 0 },
            color: Vec4 { x: 0, y: 0, z: 0, w: 0 },
            bone_weights: BoneWeights::zero_spec(),
            bone_indices: BoneIndicesWide::zero_spec(),
        }
    }

    pub fn zero() -> (r: GenericVertex)
        ensures
            r == GenericVertex::zero_spec(),
    {
        GenericVertex {
            position: Vec3 { x: 0, y: 0, z: 0 },
            normal: Vec3 { x: 0, y: 0, z: 0 },
            tangent: Vec3 { x: 0, y: 0, z: 0 },
            binormal: Vec3 { x: 0, y: 0, z: 0 },
            uv0: Vec2 { x: 0, y: 0 },
            uv1: Vec2 { x: 0, y: 0 },
            color: Vec4 { x: 0, y: 0, z: 0, w: 0 },
            bone_weights: BoneWeights::zero(),
            bone_indices: BoneIndicesWide::zero(),
        }
    }
}

} // verus!
