use vstd::prelude::*;
use crate::buffers::Vertex;
use crate::errors::RenderBlockError;
use crate::math::{Vec2, Vec3, Vec4};
use crate::vertex::{BoneIndicesWide, BoneWeights, GenericVertex};
use crate::wire::{agrees, enc_vec2, enc_vec3, enc_vec4, lemma_rd_enc_vec2, lemma_rd_enc_vec3,
    lemma_rd_enc_vec4, rd_vec2, rd_vec3, rd_vec4, read_vec2, read_vec3, read_vec4, write_vec2,
    write_vec3, write_vec4, Endian};

verus! {

/// The full unpacked layout of general blocks: two texture channels, an
/// unpacked tangent frame and a per-vertex color. Sixty-eight bytes on the
/// wire. It stores no binormal and no bones; the binormal is derived by
/// consumers from normal and tangent.
#[derive(Clone, Copy, PartialEq, Eq, Structural, Debug)]
pub struct GeneralVertex {
    pub position: Vec3<u32>,
    pub uv0: Vec2<u32>,
    pub uv1: Vec2<u32>,
    pub normal: Vec3<u32>,
    pub tangent: Vec3<u32>,
    pub color: Vec4<u32>,
}

impl Vertex for GeneralVertex {
    type Args = bool;

    open spec fn wf(self, a: bool) -> bool {
        true
    }

    open spec fn enc(self, e: Endian, a: bool) -> Seq<u8> {
        enc_vec3(e, self.position) + enc_vec2(e, self.uv0) + enc_vec2(e, self.uv1) + enc_vec3(
            e,
            self.normal,
        ) + enc_vec3(e, self.tangent) + enc_vec4(e, self.color)
    }

    open spec fn rd(b: Seq<u8>, i: int, e: Endian, a: bool) -> Result<
        (Self, int),
        RenderBlockError,
    > {
        match rd_vec3(b, i, e) {
            Ok((position, i1)) => match rd_vec2(b, i1, e) {
                Ok((uv0, i2)) => match rd_vec2(b, i2, e) {
                    Ok((uv1, i3)) => match rd_vec3(b, i3, e) {
                        Ok((normal, i4)) => match rd_vec3(b, i4, e) {
                            Ok((tangent, i5)) => match rd_vec4(b, i5, e) {
                                Ok((color, i6)) => Ok(
                                    (
                                        GeneralVertex {
                                            position,
                                            uv0,
                                            uv1,
                                            normal,
                                            tangent,
                                            color,
                                        },
                                        i6,
                                    ),
                                ),
                                Err(er) => Err(er),
                            },
                            Err(er) => Err(er),
                        },
                        Err(er) => Err(er),
                    },
                    Err(er) => Err(er),
                },
                Err(er) => Err(er),
            },
            Err(er) => Err(er),
        }
    }

    proof fn lemma_rd_enc(self, p: Seq<u8>, s: Seq<u8>, e: Endian, a: bool) {
        lemma_general_g1(self, p, s, e, a);
        lemma_general_g2(self, p, s, e, a);
        lemma_general_g3(self, p, s, e, a);
        lemma_general_g4(self, p, s, e, a);
        lemma_general_g5(self, p, s, e, a);
        lemma_general_g6(self, p, s, e, a);
        lemma_general_len(self, e, a);
    }

    fn read(b: &Vec<u8>, i: usize, e: Endian, a: bool) -> (r: Result<
        (Self, usize),
        RenderBlockError,
    >) {
        let (position, i1) = match read_vec3(b, i, e) {
            Ok(p) => p,
            Err(er) => { return Err(er) },
        };
        let (uv0, i2) = match read_vec2(b, i1, e) {
            Ok(p) => p,
            Err(er) => { return Err(er) },
        };
        let (uv1, i3) = match read_vec2(b, i2, e) {
            Ok(p) => p,
            Err(er) => { return Err(er) },
        };
        let (normal, i4) = match read_vec3(b, i3, e) {
            Ok(p) => p,
            Err(er) => { return Err(er) },
        };
        let (tangent, i5) = match read_vec3(b, i4, e) {
            Ok(p) => p,
            Err(er) => { return Err(er) },
        };
        let (color, i6) = match read_vec4(b, i5, e) {
            Ok(p) => p,
            Err(er) => { return Err(er) },
        };
        Ok((GeneralVertex { position, uv0, uv1, normal, tangent, color }, i6))
    }

    fn write(&self, out: &mut Vec<u8>, e: Endian, a: bool) {
        write_vec3(out, e, self.position);
        write_vec2(out, e, self.uv0);
        write_vec2(out, e, self.uv1);
        write_vec3(out, e, self.normal);
        write_vec3(out, e, self.tangent);
        write_vec4(out, e, self.color);
        assert(out@ =~= old(out)@ + self.enc(e, a));
    }
}

/// One field's decode fact within an encoded general record.
#[verifier::spinoff_prover]
#[verifier::rlimit(100)]
proof fn lemma_general_g1(v: GeneralVertex, p: Seq<u8>, s: Seq<u8>, e: Endian, a: bool)
    ensures
        rd_vec3(p + v.enc(e, a) + s, p.len() as int, e) == Ok::<(Vec3<u32>, int), RenderBlockError>(
            (v.position, p.len() as int + 12),
        ),
{
    let e1 = enc_vec3(e, v.position);
    let e2 = enc_vec2(e, v.uv0);
    let e3 = enc_vec2(e, v.uv1);
    let e4 = enc_vec3(e, v.normal);
    let e5 = enc_vec3(e, v.tangent);
    let e6 = enc_vec4(e, v.color);
    assert(e1.len() == 12);
    assert(e2.len() == 8);
    assert(e3.len() == 8);
    assert(e4.len() == 12);
    assert(e5.len() == 12);
    assert(e6.len() == 16);
    crate::wire::lemma_chain6(p, e1, e2, e3, e4, e5, e6, s);
    lemma_rd_enc_vec3(p, e2 + (e3 + (e4 + (e5 + (e6 + s)))), e, v.position);
}

/// One field's decode fact within an encoded general record.
#[verifier::spinoff_prover]
#[verifier::rlimit(100)]
proof fn lemma_general_g2(v: GeneralVertex, p: Seq<u8>, s: Seq<u8>, e: Endian, a: bool)
    ensures
        rd_vec2(p + v.enc(e, a) + s, p.len() as int + 12, e) == Ok::<(Vec2<u32>, int), RenderBlockError>(
            (v.uv0, p.len() as int + 20),
        ),
{
    let e1 = enc_vec3(e, v.position);
    let e2 = enc_vec2(e, v.uv0);
    let e3 = enc_vec2(e, v.uv1);
    let e4 = enc_vec3(e, v.normal);
    let e5 = enc_vec3(e, v.tangent);
    let e6 = enc_vec4(e, v.color);
    assert(e1.len() == 12);
    assert(e2.len() == 8);
    assert(e3.len() == 8);
    assert(e4.len() == 12);
    assert(e5.len() == 12);
    assert(e6.len() == 16);
    crate::wire::lemma_chain6(p, e1, e2, e3, e4, e5, e6, s);
    lemma_rd_enc_vec2(p + e1, e3 + (e4 + (e5 + (e6 + s))), e, v.uv0);
}

/// One field's decode fact within an encoded general record.
#[verifier::spinoff_prover]
#[verifier::rlimit(100)]
proof fn lemma_general_g3(v: GeneralVertex, p: Seq<u8>, s: Seq<u8>, e: Endian, a: bool)
    ensures
        rd_vec2(p + v.enc(e, a) + s, p.len() as int + 20, e) == Ok::<(Vec2<u32>, int), RenderBlockError>(
            (v.uv1, p.len() as int + 28),
        ),
{
    let e1 = enc_vec3(e, v.position);
    let e2 = enc_vec2(e, v.uv0);
    let e3 = enc_vec2(e, v.uv1);
    let e4 = enc_vec3(e, v.normal);
    let e5 = enc_vec3(e, v.tangent);
    let e6 = enc_vec4(e, v.color);
    assert(e1.len() == 12);
    assert(e2.len() == 8);
    assert(e3.len() == 8);
    assert(e4.len() == 12);
    assert(e5.len() == 12);
    assert(e6.len() == 16);
    crate::wire::lemma_chain6(p, e1, e2, e3, e4, e5, e6, s);
    lemma_rd_enc_vec2(p + e1 + e2, e4 + (e5 + (e6 + s)), e, v.uv1);
}

/// One field's decode fact within an encoded general record.
#[verifier::spinoff_prover]
#[verifier::rlimit(100)]
proof fn lemma_general_g4(v: GeneralVertex, p: Seq<u8>, s: Seq<u8>, e: Endian, a: bool)
    ensures
        rd_vec3(p + v.enc(e, a) + s, p.len() as int + 28, e) == Ok::<(Vec3<u32>, int), RenderBlockError>(
            (v.normal, p.len() as int + 40),
        ),
{
    let e1 = enc_vec3(e, v.position);
    let e2 = enc_vec2(e, v.uv0);
    let e3 = enc_vec2(e, v.uv1);
    let e4 = enc_vec3(e, v.normal);
    let e5 = enc_vec3(e, v.tangent);
    let e6 = enc_vec4(e, v.color);
    assert(e1.len() == 12);
    assert(e2.len() == 8);
    assert(e3.len() == 8);
    assert(e4.len() == 12);
    assert(e5.len() == 12);
    assert(e6.len() == 16);
    crate::wire::lemma_chain6(p, e1, e2, e3, e4, e5, e6, s);
    lemma_rd_enc_vec3(p + e1 + e2 + e3, e5 + (e6 + s), e, v.normal);
}

/// One field's decode fact within an encoded general record.
#[verifier::spinoff_prover]
#[verifier::rlimit(100)]
proof fn lemma_general_g5(v: GeneralVertex, p: Seq<u8>, s: Seq<u8>, e: Endian, a: bool)
    ensures
        rd_vec3(p + v.enc(e, a) + s, p.len() as int + 40, e) == Ok::<(Vec3<u32>, int), RenderBlockError>(
            (v.tangent, p.len() as int + 52),
        ),
{
    let e1 = enc_vec3(e, v.position);
    let e2 = enc_vec2(e, v.uv0);
    let e3 = enc_vec2(e, v.uv1);
    let e4 = enc_vec3(e, v.normal);
    let e5 = enc_vec3(e, v.tangent);
    let e6 = enc_vec4(e, v.color);
    assert(e1.len() == 12);
    assert(e2.len() == 8);
    assert(e3.len() == 8);
    assert(e4.len() == 12);
    assert(e5.len() == 12);
    assert(e6.len() == 16);
    crate::wire::lemma_chain6(p, e1, e2, e3, e4, e5, e6, s);
    lemma_rd_enc_vec3(p + e1 + e2 + e3 + e4, e6 + s, e, v.tangent);
}

/// One field's decode fact within an encoded general record.
#[verifier::spinoff_prover]
#[verifier::rlimit(100)]
proof fn lemma_general_g6(v: GeneralVertex, p: Seq<u8>, s: Seq<u8>, e: Endian, a: bool)
    ensures
        rd_vec4(p + v.enc(e, a) + s, p.len() as int + 52, e) == Ok::<(Vec4<u32>, int), RenderBlockError>(
            (v.color, p.len() as int + 68),
        ),
{
    let e1 = enc_vec3(e, v.position);
    let e2 = enc_vec2(e, v.uv0);
    let e3 = enc_vec2(e, v.uv1);
    let e4 = enc_vec3(e, v.normal);
    let e5 = enc_vec3(e, v.tangent);
    let e6 = enc_vec4(e, v.color);
    assert(e1.len() == 12);
    assert(e2.len() == 8);
    assert(e3.len() == 8);
    assert(e4.len() == 12);
    assert(e5.len() == 12);
    assert(e6.len() == 16);
    crate::wire::lemma_chain6(p, e1, e2, e3, e4, e5, e6, s);
    lemma_rd_enc_vec4(p + e1 + e2 + e3 + e4 + e5, s, e, v.color);
}

/// The wire size of a general record.
proof fn lemma_general_len(v: GeneralVertex, e: Endian, a: bool)
    ensures
        v.enc(e, a).len() == 68,
{
}

impl GeneralVertex {
    /// The canonical view: every stored channel passes through unchanged;
    /// binormal and bones stay at their defaults.
    pub open spec fn into_generic_spec(self) -> GenericVertex {
        GenericVertex {
            position: self.position,
            normal: self.normal,
            tangent: self.tangent,
            binormal: Vec3 { x: 0, y: 0, z: 0 },
            uv0: self.uv0,
            uv1: self.uv1,
            color: self.color,
            bone_weights: BoneWeights::zero_spec(),
            bone_indices: BoneIndicesWide::zero_spec(),
        }
    }

    pub fn into_generic(&self) -> (r: GenericVertex)
        ensures
            r == self.into_generic_spec(),
    {
        GenericVertex {
            position: self.position,
            normal: self.normal,
            tangent: self.tangent,
            binormal: Vec3 { x: 0, y: 0, z: 0 },
            uv0: self.uv0,
            uv1: self.uv1,
            color: self.color,
            bone_weights: BoneWeights::zero(),
            bone_indices: BoneIndicesWide::zero(),
        }
    }

    /// Back from the canonical view: binormal and bones are dropped.
    pub open spec fn from_generic_spec(g: GenericVertex) -> GeneralVertex {
        GeneralVertex {
            position: g.position,
            uv0: g.uv0,
            uv1: g.uv1,
            normal: g.normal,
            tangent: g.tangent,
            color: g.color,
        }
    }

    pub fn from_generic(g: &GenericVertex) -> (r: GeneralVertex)
        ensures
            r == GeneralVertex::from_generic_spec(*g),
    {
        GeneralVertex {
            position: g.position,
            uv0: g.uv0,
            uv1: g.uv1,
            normal: g.normal,
            tangent: g.tangent,
            color: g.color,
        }
    }
}

/// Converting a general vertex to the canonical shape and back reproduces
/// it exactly, with no condition: every channel it stores has a canonical
/// slot of the same width.
pub proof fn lemma_general_conversion_closure(v: GeneralVertex)
    ensures
        GeneralVertex::from_generic_spec(v.into_generic_spec()) == v,
{
}


/// Every general vertex is carried faithfully by its wire form.
pub proof fn lemma_general_vertices_wf(s: Seq<GeneralVertex>, a: bool)
    ensures
        forall|j: int| 0 <= j < s.len() ==> #[trigger] s[j].wf(a),
{
}

} // verus!

