use vstd::prelude::*;
use crate::buffers::Vertex;
use crate::errors::RenderBlockError;
use crate::math::{Vec2, Vec3, Vec4};
use crate::packed::PackedNormalF32;
use crate::vertex::{byte0, byte1, byte2, byte3, pack4, BoneIndicesWide, BoneWeights,
    GenericVertex};
use crate::wire::{agrees, enc_u32, enc_vec2, enc_vec3, lemma_rd_enc_u32, lemma_rd_enc_vec2,
    lemma_rd_enc_vec3, rd_u32, rd_vec2, rd_vec3, read_u32, read_vec2, read_vec3, write_u32,
    write_vec2, write_vec3, Endian};

verus! {

/// The deformable-part layout: a position, one packed word of four
/// deformation weights and one of four deformation target indices, a packed
/// tangent frame and one set of texture coordinates. Thirty-six bytes on
/// the wire. The deformation slots ride in the first four bone slots of the
/// canonical vertex.
#[derive(Clone, Copy, PartialEq, Eq, Structural, Debug)]
pub struct DeformableVertex {
    pub position: Vec3<u32>,
    pub deform_weights: u32,
    pub deform_indices: u32,
    pub normal: PackedNormalF32,
    pub uv0: Vec2<u32>,
    pub tangent: PackedNormalF32,
}

impl Vertex for DeformableVertex {
    type Args = bool;

    open spec fn wf(self, a: bool) -> bool {
        true
    }

    open spec fn enc(self, e: Endian, a: bool) -> Seq<u8> {
        enc_vec3(e, self.position) + enc_u32(e, self.deform_weights) + enc_u32(
            e,
            self.deform_indices,
        ) + enc_u32(e, self.normal.0) + enc_vec2(e, self.uv0) + enc_u32(e, self.tangent.0)
    }

    open spec fn rd(b: Seq<u8>, i: int, e: Endian, a: bool) -> Result<
        (Self, int),
        RenderBlockError,
    > {
        match rd_vec3(b, i, e) {
            Ok((position, i1)) => match rd_u32(b, i1, e) {
                Ok((dw, i2)) => match rd_u32(b, i2, e) {
                    Ok((di, i3)) => match rd_u32(b, i3, e) {
                        Ok((n, i4)) => match rd_vec2(b, i4, e) {
                            Ok((uv0, i5)) => match rd_u32(b, i5, e) {
                                Ok((t, i6)) => Ok(
                                    (
                                        DeformableVertex {
                                            position,
                                            deform_weights: dw,
                                            deform_indices: di,
                                            normal: PackedNormalF32(n),
                                            uv0,
                                            tangent: PackedNormalF32(t),
                                        },
                                        i6,
                                    ),
                                ),
                                Err(er) => Err(er),
                            },
                            Err(er) => Err(er),
                        },
                        Err(er) => Err(er),
                    },
                    Err(er) => Err(er),
                },
                Err(er) => Err(er),
            },
            Err(er) => Err(er),
        }
    }

    proof fn lemma_rd_enc(self, p: Seq<u8>, s: Seq<u8>, e: Endian, a: bool) {
        lemma_deformable_front(self, p, s, e, a);
        lemma_deformable_back(self, p, s, e, a);
    }

    fn read(b: &Vec<u8>, i: usize, e: Endian, a: bool) -> (r: Result<
        (Self, usize),
        RenderBlockError,
    >) {
        let (position, i1) = match read_vec3(b, i, e) {
            Ok(p) => p,
            Err(er) => { return Err(er) },
        };
        let (dw, i2) = match read_u32(b, i1, e) {
            Ok(p) => p,
            Err(er) => { return Err(er) },
        };
        let (di, i3) = match read_u32(b, i2, e) {
            Ok(p) => p,
            Err(er) => { return Err(er) },
        };
        let (n, i4) = match read_u32(b, i3, e) {
            Ok(p) => p,
            Err(er) => { return Err(er) },
        };
        let (uv0, i5) = match read_vec2(b, i4, e) {
            Ok(p) => p,
            Err(er) => { return Err(er) },
        };
        let (t, i6) = match read_u32(b, i5, e) {
            Ok(p) => p,
            Err(er) => { return Err(er) },
        };
        Ok(
            (
                DeformableVertex {
                    position,
                    deform_weights: dw,
                    deform_indices: di,
                    normal: PackedNormalF32(n),
                    uv0,
                    tangent: PackedNormalF32(t),
                },
                i6,
            ),
        )
    }

    fn write(&self, out: &mut Vec<u8>, e: Endian, a: bool) {
        write_vec3(out, e, self.position);
        write_u32(out, e, self.deform_weights);
        write_u32(out, e, self.deform_indices);
        write_u32(out, e, self.normal.0);
        write_vec2(out, e, self.uv0);
        write_u32(out, e, self.tangent.0);
        assert(out@ =~= old(out)@ + self.enc(e, a));
    }
}

/// Decode facts for the first three fields of a deformable record.
#[verifier::spinoff_prover]
#[verifier::rlimit(100)]
proof fn lemma_deformable_front(v: DeformableVertex, p: Seq<u8>, s: Seq<u8>, e: Endian, a: bool)
    ensures
        rd_vec3(p + v.enc(e, a) + s, p.len() as int, e) == Ok::<(Vec3<u32>, int), RenderBlockError>(
            (v.position, p.len() as int + 12),
        ),
        rd_u32(p + v.enc(e, a) + s, p.len() as int + 12, e) == Ok::<(u32, int), RenderBlockError>(
            (v.deform_weights, p.len() as int + 16),
        ),
        rd_u32(p + v.enc(e, a) + s, p.len() as int + 16, e) == Ok::<(u32, int), RenderBlockError>(
            (v.deform_indices, p.len() as int + 20),
        ),
{
    let e1 = enc_vec3(e, v.position);
    let e2 = enc_u32(e, v.deform_weights);
    let e3 = enc_u32(e, v.deform_indices);
    let e4 = enc_u32(e, v.normal.0);
    let e5 = enc_vec2(e, v.uv0);
    let e6 = enc_u32(e, v.tangent.0);
    assert(e1.len() == 12);
    assert(e5.len() == 8);
    crate::wire::lemma_chain6(p, e1, e2, e3, e4, e5, e6, s);
    lemma_rd_enc_vec3(p, e2 + (e3 + (e4 + (e5 + (e6 + s)))), e, v.position);
    lemma_rd_enc_u32(p + e1, e3 + (e4 + (e5 + (e6 + s))), e, v.deform_weights);
    lemma_rd_enc_u32(p + e1 + e2, e4 + (e5 + (e6 + s)), e, v.deform_indices);
}

/// Decode facts for the last three fields of a deformable record.
#[verifier::spinoff_prover]
#[verifier::rlimit(100)]
proof fn lemma_deformable_back(v: DeformableVertex, p: Seq<u8>, s: Seq<u8>, e: Endian, a: bool)
    ensures
        rd_u32(p + v.enc(e, a) + s, p.len() as int + 20, e) == Ok::<(u32, int), RenderBlockError>(
            (v.normal.0, p.len() as int + 24),
        ),
        rd_vec2(p + v.enc(e, a) + s, p.len() as int + 24, e) == Ok::<
            (Vec2<u32>, int),
            RenderBlockError,
        >((v.uv0, p.len() as int + 32)),
        rd_u32(p + v.enc(e, a) + s, p.len() as int + 32, e) == Ok::<(u32, int), RenderBlockError>(
            (v.tangent.0, p.len() as int + 36),
        ),
        v.enc(e, a).len() == 36,
{
    let e1 = enc_vec3(e, v.position);
    let e2 = enc_u32(e, v.deform_weights);
    let e3 = enc_u32(e, v.deform_indices);
    let e4 = enc_u32(e, v.normal.0);
    let e5 = enc_vec2(e, v.uv0);
    let e6 = enc_u32(e, v.tangent.0);
    assert(e1.len() == 12);
    assert(e5.len() == 8);
    crate::wire::lemma_chain6(p, e1, e2, e3, e4, e5, e6, s);
    lemma_rd_enc_u32(p + e1 + e2 + e3, e5 + (e6 + s), e, v.normal.0);
    lemma_rd_enc_vec2(p + e1 + e2 + e3 + e4, e6 + s, e, v.uv0);
    lemma_rd_enc_u32(p + e1 + e2 + e3 + e4 + e5, s, e, v.tangent.0);
}

impl DeformableVertex {
    /// The canonical view: deformation weights and targets occupy the first
    /// four bone slots; the packed tangent frame is unpacked; the rest stay
    /// at their defaults.
    pub open spec fn into_generic_spec(self) -> GenericVertex {
        GenericVertex {
            position: self.position,
            normal: self.normal.unpack_spec(),
            tangent: self.tangent.unpack_spec(),
            binormal: Vec3 { x: 0, y: 0, z: 0 },
            uv0: self.uv0,
            uv1: Vec2 { x: 0, y: 0 },
            color: Vec4 { x: 0, y: 0, z: 0, w: 0 },
            bone_weights: BoneWeights::of_words(self.deform_weights, 0),
            bone_indices: BoneIndicesWide {
                i0: byte0(self.deform_indices) as u32,
                i1: byte1(self.deform_indices) as u32,
                i2: byte2(self.deform_indices) as u32,
                i3: byte3(self.deform_indices) as u32,
                i4: 0,
                i5: 0,
                i6: 0,
                i7: 0,
            },
        }
    }

    pub fn into_generic(&self) -> (r: GenericVertex)
        ensures
            r == self.into_generic_spec(),
    {
        let dw = self.deform_weights;
        let di = self.deform_indices;
        proof {
            assert((0u32 & 0xFF) as u8 == 0 && ((0u32 >> 8) & 0xFF) as u8 == 0 && ((0u32 >> 16)
                & 0xFF) as u8 == 0 && ((0u32 >> 24) & 0xFF) as u8 == 0) by (bit_vector);
        }
        GenericVertex {
            position: self.position,
            normal: self.normal.unpack(),
            tangent: self.tangent.unpack(),
            binormal: Vec3 { x: 0, y: 0, z: 0 },
            uv0: self.uv0,
            uv1: Vec2 { x: 0, y: 0 },
            color: Vec4 { x: 0, y: 0, z: 0, w: 0 },
            bone_weights: BoneWeights {
                w0: (dw & 0xFF) as u8,
                w1: ((dw >> 8u32) & 0xFF) as u8,
                w2: ((dw >> 16u32) & 0xFF) as u8,
                w3: ((dw >> 24u32) & 0xFF) as u8,
                w4: 0,
                w5: 0,
                w6: 0,
                w7: 0,
            },
            bone_indices: BoneIndicesWide {
                i0: ((di & 0xFF) as u8) as u32,
                i1: (((di >> 8u32) & 0xFF) as u8) as u32,
                i2: (((di >> 16u32) & 0xFF) as u8) as u32,
                i3: (((di >> 24u32) & 0xFF) as u8) as u32,
                i4: 0,
                i5: 0,
                i6: 0,
                i7: 0,
            },
        }
    }

    /// Back from the canonical view: the first four bone slots regroup into
    /// the packed words (index slots above 255 lose their high bits); the
    /// channels this layout does not store are dropped.
    pub open spec fn from_generic_spec(g: GenericVertex) -> DeformableVertex {
        DeformableVertex {
            position: g.position,
            deform_weights: g.bone_weights.lo(),
            deform_indices: pack4(
                g.bone_indices.i0 as u8,
                g.bone_indices.i1 as u8,
                g.bone_indices.i2 as u8,
                g.bone_indices.i3 as u8,
            ),
            normal: PackedNormalF32::pack_spec(g.normal),
            uv0: g.uv0,
            tangent: PackedNormalF32::pack_spec(g.tangent),
        }
    }

    pub fn from_generic(g: &GenericVertex) -> (r: DeformableVertex)
        ensures
            r == DeformableVertex::from_generic_spec(*g),
    {
        let w = g.bone_weights;
        let x = g.bone_indices;
        DeformableVertex {
            position: g.position,
            deform_weights: crate::vertex::pack4_exec(w.w0, w.w1, w.w2, w.w3),
            deform_indices: crate::vertex::pack4_exec(
                x.i0 as u8,
                x.i1 as u8,
                x.i2 as u8,
                x.i3 as u8,
            ),
            normal: PackedNormalF32::pack(g.normal),
            uv0: g.uv0,
            tangent: PackedNormalF32::pack(g.tangent),
        }
    }
}

/// Converting a deformable vertex to the canonical shape and back
/// reproduces it exactly, whenever its packed tangent frame is on the
/// quantization grid; the deformation words always survive.
pub proof fn lemma_deformable_conversion_closure(v: DeformableVertex)
    requires
        v.normal.canonical(),
        v.tangent.canonical(),
    ensures
        DeformableVertex::from_generic_spec(v.into_generic_spec()) == v,
{
    crate::vertex::lemma_bytes_pack4(v.deform_weights);
    crate::vertex::lemma_bytes_pack4(v.deform_indices);
    lemma_widen_narrow(byte0(v.deform_indices));
    lemma_widen_narrow(byte1(v.deform_indices));
    lemma_widen_narrow(byte2(v.deform_indices));
    lemma_widen_narrow(byte3(v.deform_indices));
}

/// Widening a byte and truncating it back is the identity.
proof fn lemma_widen_narrow(x: u8)
    ensures
        (x as u32) as u8 == x,
{
    assert((x as u32) as u8 == x) by (bit_vector);
}

/// Every deformable vertex is carried faithfully by its wire form.
pub proof fn lemma_deformable_vertices_wf(s: Seq<DeformableVertex>, a: bool)
    ensures
        forall|j: int| 0 <= j < s.len() ==> #[trigger] s[j].wf(a),
{
}

} // verus!
