use vstd::prelude::*;
use crate::buffers::Vertex;
use crate::errors::RenderBlockError;
use crate::math::{Vec2, Vec3, Vec4};
use crate::packed::PackedNormalU32;
use crate::vertex::{BoneIndices, BoneIndicesWide, BoneWeights, GenericVertex};
use crate::wire::{agrees, enc_u32, enc_vec2, enc_vec3, lemma_rd_enc_u32, lemma_rd_enc_vec2,
    lemma_rd_enc_vec3, rd_u32, rd_vec2, rd_vec3, read_u32, read_vec2, read_vec3, write_u32,
    write_vec2, write_vec3, Endian};

verus! {

/// A skinned position record: a position plus eight bone-weight and eight
/// bone-index byte slots. The wire groups the slots into packed 32-bit
/// words, and a switch carried from the enclosing block's flags — not from
/// the record's own bytes — selects between the four-bone form (one word
/// per group, twenty bytes) and the eight-bone form (two words per group,
/// twenty-eight bytes). The four-bone form leaves the upper four slots
/// zero-filled on decode and has no room for them on encode.
#[derive(Clone, Copy, PartialEq, Eq, Structural, Debug)]
pub struct SkinnedVertexPosition {
    pub position: Vec3<u32>,
    pub bone_weights: BoneWeights,
    pub bone_indices: BoneIndices,
}

impl Vertex for SkinnedVertexPosition {
    type Args = bool;

    /// The four-bone wire form cannot carry the upper four slots, so they
    /// must be clear; the eight-bone form carries every value.
    open spec fn wf(self, eight: bool) -> bool {
        eight || (self.bone_weights.hi() == 0 && self.bone_indices.hi() == 0)
    }

    open spec fn enc(self, e: Endian, eight: bool) -> Seq<u8> {
        if eight {
            enc_vec3(e, self.position) + enc_u32(e, self.bone_weights.lo()) + enc_u32(
                e,
                self.bone_weights.hi(),
            ) + enc_u32(e, self.bone_indices.lo()) + enc_u32(e, self.bone_indices.hi())
        } else {
            enc_vec3(e, self.position) + enc_u32(e, self.bone_weights.lo()) + enc_u32(
                e,
                self.bone_indices.lo(),
            )
        }
    }

    open spec fn rd(b: Seq<u8>, i: int, e: Endian, eight: bool) -> Result<
        (Self, int),
        RenderBlockError,
    > {
        if eight {
            match rd_vec3(b, i, e) {
                Ok((position, i1)) => match rd_u32(b, i1, e) {
                    Ok((wlo, i2)) => match rd_u32(b, i2, e) {
                        Ok((whi, i3)) => match rd_u32(b, i3, e) {
                            Ok((ilo, i4)) => match rd_u32(b, i4, e) {
                                Ok((ihi, i5)) => Ok(
                                    (
                                        SkinnedVertexPosition {
                                            position,
                                            bone_weights: BoneWeights::of_words(wlo, whi),
                                            bone_indices: BoneIndices::of_words(ilo, ihi),
                                        },
                                        i5,
                                    ),
                                ),
                                Err(er) => Err(er),
                            },
                            Err(er) => Err(er),
                        },
                        Err(er) => Err(er),
                    },
                    Err(er) => Err(er),
                },
                Err(er) => Err(er),
            }
        } else {
            match rd_vec3(b, i, e) {
                Ok((position, i1)) => match rd_u32(b, i1, e) {
                    Ok((wlo, i2)) => match rd_u32(b, i2, e) {
                        Ok((ilo, i3)) => Ok(
                            (
                                SkinnedVertexPosition {
                                    position,
                                    bone_weights: BoneWeights::of_words(wlo, 0),
                                    bone_indices: BoneIndices::of_words(ilo, 0),
                                },
                                i3,
                            ),
                        ),
                        Err(er) => Err(er),
                    },
                    Err(er) => Err(er),
                },
                Err(er) => Err(er),
            }
        }
    }

    proof fn lemma_rd_enc(self, p: Seq<u8>, s: Seq<u8>, e: Endian, eight: bool) {
        if eight {
            lemma_skinned_position_eight(self, p, s, e);
        } else {
            lemma_skinned_position_four(self, p, s, e);
        }
    }

    fn read(b: &Vec<u8>, i: usize, e: Endian, eight: bool) -> (r: Result<
        (Self, usize),
        RenderBlockError,
    >) {
        let (position, i1) = match read_vec3(b, i, e) {
            Ok(p) => p,
            Err(er) => { return Err(er) },
        };
        let (wlo, i2) = match read_u32(b, i1, e) {
            Ok(p) => p,
            Err(er) => { return Err(er) },
        };
        if eight {
            let (whi, i3) = match read_u32(b, i2, e) {
                Ok(p) => p,
                Err(er) => { return Err(er) },
            };
            let (ilo, i4) = match read_u32(b, i3, e) {
                Ok(p) => p,
                Err(er) => { return Err(er) },
            };
            let (ihi, i5) = match read_u32(b, i4, e) {
                Ok(p) => p,
                Err(er) => { return Err(er) },
            };
            Ok(
                (
                    SkinnedVertexPosition {
                        position,
                        bone_weights: weights_of_words_exec(wlo, whi),
                        bone_indices: indices_of_words_exec(ilo, ihi),
                    },
                    i5,
                ),
            )
        } else {
            let (ilo, i3) = match read_u32(b, i2, e) {
                Ok(p) => p,
                Err(er) => { return Err(er) },
            };
            Ok(
                (
                    SkinnedVertexPosition {
                        position,
                        bone_weights: weights_of_words_exec(wlo, 0),
                        bone_indices: indices_of_words_exec(ilo, 0),
                    },
                    i3,
                ),
            )
        }
    }

    fn write(&self, out: &mut Vec<u8>, e: Endian, eight: bool) {
        write_vec3(out, e, self.position);
        write_u32(out, e, weights_lo_exec(self.bone_weights));
        if eight {
            write_u32(out, e, weights_hi_exec(self.bone_weights));
            write_u32(out, e, indices_lo_exec(self.bone_indices));
            write_u32(out, e, indices_hi_exec(self.bone_indices));
        } else {
            write_u32(out, e, indices_lo_exec(self.bone_indices));
        }
        assert(out@ =~= old(out)@ + self.enc(e, eight));
    }
}

fn weights_lo_exec(w: BoneWeights) -> (r: u32)
    ensures
        r == w.lo(),
{
    crate::vertex::pack4_exec(w.w0, w.w1, w.w2, w.w3)
}

fn weights_hi_exec(w: BoneWeights) -> (r: u32)
    ensures
        r == w.hi(),
{
    crate::vertex::pack4_exec(w.w4, w.w5, w.w6, w.w7)
}

fn indices_lo_exec(x: BoneIndices) -> (r: u32)
    ensures
        r == x.lo(),
{
    crate::vertex::pack4_exec(x.i0, x.i1, x.i2, x.i3)
}

fn indices_hi_exec(x: BoneIndices) -> (r: u32)
    ensures
        r == x.hi(),
{
    crate::vertex::pack4_exec(x.i4, x.i5, x.i6, x.i7)
}

fn weights_of_words_exec(lo: u32, hi: u32) -> (r: BoneWeights)
    ensures
        r == BoneWeights::of_words(lo, hi),
{
    BoneWeights {
        w0: (lo & 0xFF) as u8,
        w1: ((lo >> 8u32) & 0xFF) as u8,
        w2: ((lo >> 16u32) & 0xFF) as u8,
        w3: ((lo >> 24u32) & 0xFF) as u8,
        w4: (hi & 0xFF) as u8,
        w5: ((hi >> 8u32) & 0xFF) as u8,
        w6: ((hi >> 16u32) & 0xFF) as u8,
        w7: ((hi >> 24u32) & 0xFF) as u8,
    }
}

fn indices_of_words_exec(lo: u32, hi: u32) -> (r: BoneIndices)
    ensures
        r == BoneIndices::of_words(lo, hi),
{
    BoneIndices {
        i0: (lo & 0xFF) as u8,
        i1: ((lo >> 8u32) & 0xFF) as u8,
        i2: ((lo >> 16u32) & 0xFF) as u8,
        i3: ((lo >> 24u32) & 0xFF) as u8,
        i4: (hi & 0xFF) as u8,
        i5: ((hi >> 8u32) & 0xFF) as u8,
        i6: ((hi >> 16u32) & 0xFF) as u8,
        i7: ((hi >> 24u32) & 0xFF) as u8,
    }
}

/// Decode facts for the eight-bone wire form.
#[verifier::spinoff_prover]
#[verifier::rlimit(100)]
proof fn lemma_skinned_position_eight(v: SkinnedVertexPosition, p: Seq<u8>, s: Seq<u8>, e: Endian)
    ensures
        SkinnedVertexPosition::rd(p + v.enc(e, true) + s, p.len() as int, e, true) == Ok::<
            (SkinnedVertexPosition, int),
            RenderBlockError,
        >((v, (p.len() + v.enc(e, true).len()) as int)),
{
    let e1 = enc_vec3(e, v.position);
    let e2 = enc_u32(e, v.bone_weights.lo());
    let e3 = enc_u32(e, v.bone_weights.hi());
    let e4 = enc_u32(e, v.bone_indices.lo());
    let e5 = enc_u32(e, v.bone_indices.hi());
    assert(e1.len() == 12);
    crate::wire::lemma_chain5(p, e1, e2, e3, e4, e5, s);
    lemma_rd_enc_vec3(p, e2 + (e3 + (e4 + (e5 + s))), e, v.position);
    lemma_rd_enc_u32(p + e1, e3 + (e4 + (e5 + s)), e, v.bone_weights.lo());
    lemma_rd_enc_u32(p + e1 + e2, e4 + (e5 + s), e, v.bone_weights.hi());
    lemma_rd_enc_u32(p + e1 + e2 + e3, e5 + s, e, v.bone_indices.lo());
    lemma_rd_enc_u32(p + e1 + e2 + e3 + e4, s, e, v.bone_indices.hi());
    v.bone_weights.lemma_words_roundtrip();
    v.bone_indices.lemma_words_roundtrip();
}

/// Decode facts for the four-bone wire form; the upper slots must be clear.
#[verifier::spinoff_prover]
#[verifier::rlimit(100)]
proof fn lemma_skinned_position_four(v: SkinnedVertexPosition, p: Seq<u8>, s: Seq<u8>, e: Endian)
    requires
        v.bone_weights.hi() == 0,
        v.bone_indices.hi() == 0,
    ensures
        SkinnedVertexPosition::rd(p + v.enc(e, false) + s, p.len() as int, e, false) == Ok::<
            (SkinnedVertexPosition, int),
            RenderBlockError,
        >((v, (p.len() + v.enc(e, false).len()) as int)),
{
    let e1 = enc_vec3(e, v.position);
    let e2 = enc_u32(e, v.bone_weights.lo());
    let e3 = enc_u32(e, v.bone_indices.lo());
    assert(e1.len() == 12);
    crate::wire::lemma_chain3(p, e1, e2, e3, s);
    lemma_rd_enc_vec3(p, e2 + (e3 + s), e, v.position);
    lemma_rd_enc_u32(p + e1, e3 + s, e, v.bone_weights.lo());
    lemma_rd_enc_u32(p + e1 + e2, s, e, v.bone_indices.lo());
    v.bone_weights.lemma_words_roundtrip();
    v.bone_indices.lemma_words_roundtrip();
}

impl SkinnedVertexPosition {
    /// The canonical view: weights stay quantized bytes, indices widen.
    pub open spec fn into_generic_spec(self) -> GenericVertex {
        GenericVertex {
            position: self.position,
            normal: Vec3 { x: 0, y: 0, z: 0 },
            tangent: Vec3 { x: 0, y: 0, z: 0 },
            binormal: Vec3 { x: 0, y: 0, z: 0 },
            uv0: Vec2 { x: 0, y: 0 },
            uv1: Vec2 { x: 0, y: 0 },
            color: Vec4 { x: 0, y: 0, z: 0, w: 0 },
            bone_weights: self.bone_weights,
            bone_indices: self.bone_indices.widened(),
        }
    }

    pub fn into_generic(&self) -> (r: GenericVertex)
        ensures
            r == self.into_generic_spec(),
    {
        let x = self.bone_indices;
        GenericVertex {
            position: self.position,
            normal: Vec3 { x: 0, y: 0, z: 0 },
            tangent: Vec3 { x: 0, y: 0, z: 0 },
            binormal: Vec3 { x: 0, y: 0, z: 0 },
            uv0: Vec2 { x: 0, y: 0 },
            uv1: Vec2 { x: 0, y: 0 },
            color: Vec4 { x: 0, y: 0, z: 0, w: 0 },
            bone_weights: self.bone_weights,
            bone_indices: BoneIndicesWide {
                i0: x.i0 as u32,
                i1: x.i1 as u32,
                i2: x.i2 as u32,
                i3: x.i3 as u32,
                i4: x.i4 as u32,
                i5: x.i5 as u32,
                i6: x.i6 as u32,
                i7: x.i7 as u32,
            },
        }
    }

    /// Back from the canonical view: indices narrow to bytes (slots above
    /// 255 lose their high bits); the other channels are dropped.
    pub open spec fn from_generic_spec(g: GenericVertex) -> SkinnedVertexPosition {
        SkinnedVertexPosition {
            position: g.position,
            bone_weights: g.bone_weights,
            bone_indices: g.bone_indices.narrowed(),
        }
    }

    pub fn from_generic(g: &GenericVertex) -> (r: SkinnedVertexPosition)
        ensures
            r == SkinnedVertexPosition::from_generic_spec(*g),
    {
        let x = g.bone_indices;
        SkinnedVertexPosition {
            position: g.position,
            bone_weights: g.bone_weights,
            bone_indices: BoneIndices {
                i0: x.i0 as u8,
                i1: x.i1 as u8,
                i2: x.i2 as u8,
                i3: x.i3 as u8,
                i4: x.i4 as u8,
                i5: x.i5 as u8,
                i6: x.i6 as u8,
                i7: x.i7 as u8,
            },
        }
    }
}

/// Converting a skinned position record to the canonical shape and back
/// reproduces it exactly, with no condition: bytes widen and narrow without
/// loss.
pub proof fn lemma_skinned_position_conversion_closure(v: SkinnedVertexPosition)
    ensures
        SkinnedVertexPosition::from_generic_spec(v.into_generic_spec()) == v,
{
}

/// The per-vertex shading data that accompanies skinned positions: a packed
/// tangent frame and one set of texture coordinates. Twenty bytes on the
/// wire.
#[derive(Clone, Copy, PartialEq, Eq, Structural, Debug)]
pub struct SkinnedVertexData {
    pub normal: PackedNormalU32,
    pub tangent: PackedNormalU32,
    pub binormal: PackedNormalU32,
    pub uv0: Vec2<u32>,
}

impl Vertex for SkinnedVertexData {
    type Args = bool;

    open spec fn wf(self, a: bool) -> bool {
        true
    }

    open spec fn enc(self, e: Endian, a: bool) -> Seq<u8> {
        enc_u32(e, self.normal.0) + enc_u32(e, self.tangent.0) + enc_u32(e, self.binormal.0)
            + enc_vec2(e, self.uv0)
    }

    open spec fn rd(b: Seq<u8>, i: int, e: Endian, a: bool) -> Result<
        (Self, int),
        RenderBlockError,
    > {
        match rd_u32(b, i, e) {
            Ok((n, i1)) => match rd_u32(b, i1, e) {
                Ok((t, i2)) => match rd_u32(b, i2, e) {
                    Ok((bn, i3)) => match rd_vec2(b, i3, e) {
                        Ok((uv0, i4)) => Ok(
                            (
                                SkinnedVertexData {
                                    normal: PackedNormalU32(n),
                                    tangent: PackedNormalU32(t),
                                    binormal: PackedNormalU32(bn),
                                    uv0,
                                },
                                i4,
                            ),
                        ),
                        Err(er) => Err(er),
                    },
                    Err(er) => Err(er),
                },
                Err(er) => Err(er),
            },
            Err(er) => Err(er),
        }
    }

    #[verifier::spinoff_prover]
    #[verifier::rlimit(100)]
    proof fn lemma_rd_enc(self, p: Seq<u8>, s: Seq<u8>, e: Endian, a: bool) {
        let e1 = enc_u32(e, self.normal.0);
        let e2 = enc_u32(e, self.tangent.0);
        let e3 = enc_u32(e, self.binormal.0);
        let e4 = enc_vec2(e, self.uv0);
        crate::wire::lemma_chain4(p, e1, e2, e3, e4, s);
        lemma_rd_enc_u32(p, e2 + (e3 + (e4 + s)), e, self.normal.0);
        lemma_rd_enc_u32(p + e1, e3 + (e4 + s), e, self.tangent.0);
        lemma_rd_enc_u32(p + e1 + e2, e4 + s, e, self.binormal.0);
        lemma_rd_enc_vec2(p + e1 + e2 + e3, s, e, self.uv0);
    }

    fn read(b: &Vec<u8>, i: usize, e: Endian, a: bool) -> (r: Result<
        (Self, usize),
        RenderBlockError,
    >) {
        let (n, i1) = match read_u32(b, i, e) {
            Ok(p) => p,
            Err(er) => { return Err(er) },
        };
        let (t, i2) = match read_u32(b, i1, e) {
            Ok(p) => p,
            Err(er) => { return Err(er) },
        };
        let (bn, i3) = match read_u32(b, i2, e) {
            Ok(p) => p,
            Err(er) => { return Err(er) },
        };
        let (uv0, i4) = match read_vec2(b, i3, e) {
            Ok(p) => p,
            Err(er) => { return Err(er) },
        };
        Ok(
            (
                SkinnedVertexData {
                    normal: PackedNormalU32(n),
                    tangent: PackedNormalU32(t),
                    binormal: PackedNormalU32(bn),
                    uv0,
                },
                i4,
            ),
        )
    }

    fn write(&self, out: &mut Vec<u8>, e: Endian, a: bool) {
        write_u32(out, e, self.normal.0);
        write_u32(out, e, self.tangent.0);
        write_u32(out, e, self.binormal.0);
        write_vec2(out, e, self.uv0);
        assert(out@ =~= old(out)@ + self.enc(e, a));
    }
}

impl SkinnedVertexData {
    /// The canonical view: the packed tangent frame is unpacked; position,
    /// bones, second texture channel and color stay at their defaults.
    pub open spec fn into_generic_spec(self) -> GenericVertex {
        GenericVertex {
            position: Vec3 { x: 0, y: 0, z: 0 },
            normal: self.normal.unpack_spec(),
            tangent: self.tangent.unpack_spec(),
            binormal: self.binormal.unpack_spec(),
            uv0: self.uv0,
            uv1: Vec2 { x: 0, y: 0 },
            color: Vec4 { x: 0, y: 0, z: 0, w: 0 },
            bone_weights: BoneWeights::zero_spec(),
            bone_indices: BoneIndicesWide::zero_spec(),
        }
    }

    pub fn into_generic(&self) -> (r: GenericVertex)
        ensures
            r == self.into_generic_spec(),
    {
        GenericVertex {
            position: Vec3 { x: 0, y: 0, z: 0 },
            normal: self.normal.unpack(),
            tangent: self.tangent.unpack(),
            binormal: self.binormal.unpack(),
            uv0: self.uv0,
            uv1: Vec2 { x: 0, y: 0 },
            color: Vec4 { x: 0, y: 0, z: 0, w: 0 },
            bone_weights: BoneWeights::zero(),
            bone_indices: BoneIndicesWide::zero(),
        }
    }

    /// Back from the canonical view: the tangent frame is re-quantized.
    pub open spec fn from_generic_spec(g: GenericVertex) -> SkinnedVertexData {
        SkinnedVertexData {
            normal: PackedNormalU32::pack_spec(g.normal),
            tangent: PackedNormalU32::pack_spec(g.tangent),
            binormal: PackedNormalU32::pack_spec(g.binormal),
            uv0: g.uv0,
        }
    }

    pub fn from_generic(g: &GenericVertex) -> (r: SkinnedVertexData)
        ensures
            r == SkinnedVertexData::from_generic_spec(*g),
    {
        SkinnedVertexData {
            normal: PackedNormalU32::pack(g.normal),
            tangent: PackedNormalU32::pack(g.tangent),
            binormal: PackedNormalU32::pack(g.binormal),
            uv0: g.uv0,
        }
    }
}

/// Converting a skinned data record to the canonical shape and back
/// reproduces it exactly, whenever its packed fields are on the
/// quantization grid (their top bytes clear); every packer-produced value
/// is.
pub proof fn lemma_skinned_data_conversion_closure(v: SkinnedVertexData)
    requires
        v.normal.canonical(),
        v.tangent.canonical(),
        v.binormal.canonical(),
    ensures
        SkinnedVertexData::from_generic_spec(v.into_generic_spec()) == v,
{
}

} // verus!
