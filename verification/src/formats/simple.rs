use vstd::prelude::*;
use crate::buffers::Vertex;
use crate::errors::RenderBlockError;
use crate::math::{Vec2, Vec4};
use crate::math::Vec3;
use crate::packed::PackedNormalF32;
use crate::vertex::{BoneIndicesWide, BoneWeights, GenericVertex};
use crate::wire::{agrees, enc_u32, enc_vec2, enc_vec3, lemma_rd_enc_u32, lemma_rd_enc_vec2,
    lemma_rd_enc_vec3, rd_u32, rd_vec2, rd_vec3, read_u32, read_vec2, read_vec3, write_u32,
    write_vec2, write_vec3, Endian};

verus! {



/// The leanest textured layout: a position, one set of texture coordinates,
/// and a packed tangent frame. Thirty-two bytes on the wire.
///
/// It stores no second texture channel, no color and no bones; converting
/// through the canonical vertex leaves those at their defaults.
#[derive(Clone, Copy, PartialEq, Eq, Structural, Debug)]
pub struct SimpleVertex {
    pub position: Vec3<u32>,
    pub normal: PackedNormalF32,
    pub uv0: Vec2<u32>,
    pub tangent: PackedNormalF32,
    pub binormal: PackedNormalF32,
}

impl Vertex for SimpleVertex {
    type Args = bool;

    open spec fn wf(self, a: bool) -> bool {
        true
    }

    open spec fn enc(self, e: Endian, a: bool) -> Seq<u8> {
        enc_vec3(e, self.position) + enc_u32(e, self.normal.0) + enc_vec2(e, self.uv0) + enc_u32(
            e,
            self.tangent.0,
        ) + enc_u32(e, self.binormal.0)
    }

    open spec fn rd(b: Seq<u8>, i: int, e: Endian, a: bool) -> Result<
        (Self, int),
        RenderBlockError,
    > {
        match rd_vec3(b, i, e) {
            Ok((position, i1)) => match rd_u32(b, i1, e) {
                Ok((n, i2)) => match rd_vec2(b, i2, e) {
                    Ok((uv0, i3)) => match rd_u32(b, i3, e) {
                        Ok((t, i4)) => match rd_u32(b, i4, e) {
                            Ok((bn, i5)) => Ok(
                                (
                                    SimpleVertex {
                                        position,
                                        normal: PackedNormalF32(n),
                                        uv0,
                                        tangent: PackedNormalF32(t),
                                        binormal: PackedNormalF32(bn),
                                    },
                                    i5,
                                ),
                            ),
                            Err(er) => Err(er),
                        },
                        Err(er) => Err(er),
                    },
                    Err(er) => Err(er),
                },
                Err(er) => Err(er),
            },
            Err(er) => Err(er),
        }
    }

    proof fn lemma_rd_enc(self, p: Seq<u8>, s: Seq<u8>, e: Endian, a: bool) {
        lemma_simple_front(self, p, s, e, a);
        lemma_simple_back(self, p, s, e, a);
    }

    fn read(b: &Vec<u8>, i: usize, e: Endian, a: bool) -> (r: Result<
        (Self, usize),
        RenderBlockError,
    >) {
        let (position, i1) = match read_vec3(b, i, e) {
            Ok(p) => p,
            Err(er) => { return Err(er) },
        };
        let (n, i2) = match read_u32(b, i1, e) {
            Ok(p) => p,
            Err(er) => { return Err(er) },
        };
        let (uv0, i3) = match read_vec2(b, i2, e) {
            Ok(p) => p,
            Err(er) => { return Err(er) },
        };
        let (t, i4) = match read_u32(b, i3, e) {
            Ok(p) => p,
            Err(er) => { return Err(er) },
        };
        let (bn, i5) = match read_u32(b, i4, e) {
            Ok(p) => p,
            Err(er) => { return Err(er) },
        };
        Ok(
            (
                SimpleVertex {
                    position,
                    normal: PackedNormalF32(n),
                    uv0,
                    tangent: PackedNormalF32(t),
                    binormal: PackedNormalF32(bn),
                },
                i5,
            ),
        )
    }

    fn write(&self, out: &mut Vec<u8>, e: Endian, a: bool) {
        write_vec3(out, e, self.position);
        write_u32(out, e, self.normal.0);
        write_vec2(out, e, self.uv0);
        write_u32(out, e, self.tangent.0);
        write_u32(out, e, self.binormal.0);
        assert(out@ =~= old(out)@ + self.enc(e, a));
    }
}

impl SimpleVertex {
    /// The canonical view: the packed tangent frame is unpacked; the
    /// channels this layout does not store stay at their defaults.
    pub open spec fn into_generic_spec(self) -> GenericVertex {
        GenericVertex {
            position: self.position,
            normal: self.normal.unpack_spec(),
            tangent: self.tangent.unpack_spec(),
            binormal: self.binormal.unpack_spec(),
            uv0: self.uv0,
            uv1: Vec2 { x: 0, y: 0 },
            color: Vec4 { x: 0, y: 0, z: 0, w: 0 },
            bone_weights: BoneWeights::zero_spec(),
            bone_indices: BoneIndicesWide::zero_spec(),
        }
    }

    pub fn into_generic(&self) -> (r: GenericVertex)
        ensures
            r == self.into_generic_spec(),
    {
        GenericVertex {
            position: self.position,
            normal: self.normal.unpack(),
            tangent: self.tangent.unpack(),
            binormal: self.binormal.unpack(),
            uv0: self.uv0,
            uv1: Vec2 { x: 0, y: 0 },
            color: Vec4 { x: 0, y: 0, z: 0, w: 0 },
            bone_weights: BoneWeights::zero(),
            bone_indices: BoneIndicesWide::zero(),
        }
    }

    /// Back from the canonical view: the tangent frame is re-quantized;
    /// second texture channel, color and bones are dropped.
    pub open spec fn from_generic_spec(g: GenericVertex) -> SimpleVertex {
        SimpleVertex {
            position: g.position,
            normal: PackedNormalF32::pack_spec(g.normal),
            uv0: g.uv0,
            tangent: PackedNormalF32::pack_spec(g.tangent),
            binormal: PackedNormalF32::pack_spec(g.binormal),
        }
    }

    pub fn from_generic(g: &GenericVertex) -> (r: SimpleVertex)
        ensures
            r == SimpleVertex::from_generic_spec(*g),
    {
        SimpleVertex {
            position: g.position,
            normal: PackedNormalF32::pack(g.normal),
            uv0: g.uv0,
            tangent: PackedNormalF32::pack(g.tangent),
            binormal: PackedNormalF32::pack(g.binormal),
        }
    }
}

/// Field-by-field decode facts for the front half of a simple record.
#[verifier::spinoff_prover]
#[verifier::rlimit(100)]
proof fn lemma_simple_front(v: SimpleVertex, p: Seq<u8>, s: Seq<u8>, e: Endian, a: bool)
    ensures
        rd_vec3(p + v.enc(e, a) + s, p.len() as int, e) == Ok::<(Vec3<u32>, int), RenderBlockError>(
            (v.position, p.len() as int + 12),
        ),
        rd_u32(p + v.enc(e, a) + s, p.len() as int + 12, e) == Ok::<(u32, int), RenderBlockError>(
            (v.normal.0, p.len() as int + 16),
        ),
        rd_vec2(p + v.enc(e, a) + s, p.len() as int + 16, e) == Ok::<
            (Vec2<u32>, int),
            RenderBlockError,
        >((v.uv0, p.len() as int + 24)),
{
    let e1 = enc_vec3(e, v.position);
    let e2 = enc_u32(e, v.normal.0);
    let e3 = enc_vec2(e, v.uv0);
    let e4 = enc_u32(e, v.tangent.0);
    let e5 = enc_u32(e, v.binormal.0);
    assert(e1.len() == 12);
    assert(e3.len() == 8);
    crate::wire::lemma_chain5(p, e1, e2, e3, e4, e5, s);
    lemma_rd_enc_vec3(p, e2 + (e3 + (e4 + (e5 + s))), e, v.position);
    lemma_rd_enc_u32(p + e1, e3 + (e4 + (e5 + s)), e, v.normal.0);
    lemma_rd_enc_vec2(p + e1 + e2, e4 + (e5 + s), e, v.uv0);
}

/// Field-by-field decode facts for the back half of a simple record.
#[verifier::spinoff_prover]
#[verifier::rlimit(100)]
proof fn lemma_simple_back(v: SimpleVertex, p: Seq<u8>, s: Seq<u8>, e: Endian, a: bool)
    ensures
        rd_u32(p + v.enc(e, a) + s, p.len() as int + 24, e) == Ok::<(u32, int), RenderBlockError>(
            (v.tangent.0, p.len() as int + 28),
        ),
        rd_u32(p + v.enc(e, a) + s, p.len() as int + 28, e) == Ok::<(u32, int), RenderBlockError>(
            (v.binormal.0, p.len() as int + 32),
        ),
        v.enc(e, a).len() == 32,
{
    let e1 = enc_vec3(e, v.position);
    let e2 = enc_u32(e, v.normal.0);
    let e3 = enc_vec2(e, v.uv0);
    let e4 = enc_u32(e, v.tangent.0);
    let e5 = enc_u32(e, v.binormal.0);
    assert(e1.len() == 12);
    assert(e3.len() == 8);
    crate::wire::lemma_chain5(p, e1, e2, e3, e4, e5, s);
    lemma_rd_enc_u32(p + e1 + e2 + e3, e5 + s, e, v.tangent.0);
    lemma_rd_enc_u32(p + e1 + e2 + e3 + e4, s, e, v.binormal.0);
}

/// Converting a simple vertex to the canonical shape and back reproduces
/// it exactly, whenever its packed fields are on the quantization grid —
/// which every decoded-then-repacked and every packer-produced value is.
pub proof fn lemma_simple_conversion_closure(v: SimpleVertex)
    requires
        v.normal.canonical(),
        v.tangent.canonical(),
        v.binormal.canonical(),
    ensures
        SimpleVertex::from_generic_spec(v.into_generic_spec()) == v,
{
}

/// Every simple vertex is carried faithfully by its wire form.
pub proof fn lemma_simple_vertices_wf(s: Seq<SimpleVertex>, a: bool)
    ensures
        forall|j: int| 0 <= j < s.len() ==> #[trigger] s[j].wf(a),
{
}

} // verus!
