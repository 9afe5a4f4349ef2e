use vstd::prelude::*;
use crate::buffers::{enc_index_buffer, enc_vertex_buffer, lemma_rd_enc_index_buffer,
    lemma_rd_enc_vertex_buffer, rd_index_buffer, rd_vertex_buffer, read_index_buffer,
    read_vertex_buffer, write_index_buffer, write_vertex_buffer, IndexBuffer, Vertex,
    VertexBuffer};
use crate::errors::RenderBlockError;
use crate::formats::deformable::DeformableVertex;
use crate::formats::deformable::lemma_deformable_vertices_wf;
use crate::material::{enc_material, rd_material, read_material, write_material, Material,
    MaterialView};
use crate::math::Vec4;
use crate::wire::{agrees, emits, enc_u32, enc_u8, enc_vec4, lemma_rd_enc_u32, lemma_rd_enc_u8,
    lemma_rd_enc_vec4, rd_u32, rd_u8, rd_vec4, read_u32, read_u8, read_vec4, write_u32, write_u8,
    write_vec4, Endian};

verus! {



/// The attribute body of a car-paint block: a tint, a specular power and
/// the render flags.
#[derive(Clone, Copy, PartialEq, Eq, Structural, Debug)]
pub struct CarPaintAttributes {
    pub tint: Vec4<u32>,
    pub specular_power: u32,
    pub flags: u32,
}

/// A car paint render block: the version-tagged attributes, the
/// material, a vertex buffer and a bounds-checked index buffer.
#[derive(Clone, Debug, PartialEq, Eq)]
pub struct CarPaintRenderBlock {
    pub attributes: CarPaintAttributes,
    pub material: Material,
    pub vertices: VertexBuffer<DeformableVertex>,
    pub indices: IndexBuffer,
}

pub struct CarPaintRenderBlockView {
    pub attributes: CarPaintAttributes,
    pub material: MaterialView,
    pub vertices: Seq<DeformableVertex>,
    pub indices: Seq<u16>,
}

impl View for CarPaintRenderBlock {
    type V = CarPaintRenderBlockView;

    open spec fn view(&self) -> CarPaintRenderBlockView {
        CarPaintRenderBlockView {
            attributes: self.attributes,
            material: self.material@,
            vertices: self.vertices@,
            indices: self.indices@,
        }
    }
}

impl CarPaintRenderBlockView {
    /// What the wire format can carry back unchanged: a sound material,
    /// buffers that fit their count fields, and every index below the
    /// vertex count.
    pub open spec fn wf(self) -> bool {
        &&& self.material.wf()
        &&& self.vertices.len() <= 0xFFFFFFFF
        &&& self.indices.len() <= 0xFFFFFFFF
        &&& forall|k: int|
            0 <= k < self.indices.len() ==> (#[trigger] self.indices[k] as u64) < (
            self.vertices.len() as u64)
    }
}

/// The block's body: a version tag that must be 1, the attributes, the
/// material, the vertices, then indices bounded by the vertex count just
/// read.
#[verifier::opaque]
pub open spec fn rd_car_paint_block(b: Seq<u8>, i: int, e: Endian) -> Result<
    (CarPaintRenderBlockView, int),
    RenderBlockError,
> {
    match rd_u8(b, i) {
        Ok((tag, i1)) => if tag != 1 {
            Err(RenderBlockError::UnsupportedBlockVersion { tag })
        } else {
            match rd_vec4(b, i1, e) { Ok((tint, i2)) => match rd_u32(b, i2, e) { Ok((specular_power, i3)) => match rd_u32(b, i3, e) { Ok((flags, i4)) => match rd_material(b, i4, e) {
                Ok((material, j1)) => match rd_vertex_buffer::<DeformableVertex>(b, j1, e, false) {
                    Ok((vertices, j2)) => match rd_index_buffer(b, j2, e, vertices.len() as u64) {
                        Ok((indices, j3)) => Ok(
                            (
                                CarPaintRenderBlockView {
                                    attributes: CarPaintAttributes { tint, specular_power, flags },
                                    material,
                                    vertices,
                                    indices,
                                },
                                j3,
                            ),
                        ),
                        Err(er) => Err(er),
                    },
                    Err(er) => Err(er),
                },
                Err(er) => Err(er),
            }, Err(er) => Err(er) }, Err(er) => Err(er) }, Err(er) => Err(er) }
        },
        Err(er) => Err(er),
    }
}

pub open spec fn enc_car_paint_block(e: Endian, v: CarPaintRenderBlockView) -> Result<
    Seq<u8>,
    RenderBlockError,
> {
    match enc_material(e, v.material) {
        Ok(m) => match enc_vertex_buffer::<DeformableVertex>(v.vertices, e, false) {
            Ok(vb) => match enc_index_buffer(v.indices, e, v.vertices.len() as u64) {
                Ok(ib) => Ok(
                    enc_u8(1) + enc_vec4(e, v.attributes.tint) + enc_u32(e, v.attributes.specular_power) + enc_u32(e, v.attributes.flags) + m + vb + ib,
                ),
                Err(er) => Err(er),
            },
            Err(er) => Err(er),
        },
        Err(er) => Err(er),
    }
}

pub fn read_car_paint_block(b: &Vec<u8>, i: usize, e: Endian) -> (r: Result<
    (CarPaintRenderBlock, usize),
    RenderBlockError,
>)
    requires
        i <= b@.len(),
    ensures
        (match r {
            Ok((v, j)) => rd_car_paint_block(b@, i as int, e) == Ok::<
                (CarPaintRenderBlockView, int),
                RenderBlockError,
            >((v@, j as int)) && i <= j <= b@.len(),
            Err(er) => rd_car_paint_block(b@, i as int, e) == Err::<
                (CarPaintRenderBlockView, int),
                RenderBlockError,
            >(er),
        }),
{
    proof {
        reveal(rd_car_paint_block);
    }
    let (tag, i1) = match read_u8(b, i) {
        Ok(p) => p,
        Err(er) => { return Err(er) },
    };
    if tag != 1 {
        return Err(RenderBlockError::UnsupportedBlockVersion { tag });
    }
    let (tint, i2) = match read_vec4(b, i1, e) {
        Ok(p) => p,
        Err(er) => { return Err(er) },
    };
    let (specular_power, i3) = match read_u32(b, i2, e) {
        Ok(p) => p,
        Err(er) => { return Err(er) },
    };
    let (flags, i4) = match read_u32(b, i3, e) {
        Ok(p) => p,
        Err(er) => { return Err(er) },
    };
    let (material, j1) = match read_material(b, i4, e) {
        Ok(p) => p,
        Err(er) => { return Err(er) },
    };
    let (vertices, j2) = match read_vertex_buffer::<DeformableVertex>(b, j1, e, false) {
        Ok(p) => p,
        Err(er) => { return Err(er) },
    };
    let (indices, j3) = match read_index_buffer(b, j2, e, vertices.0.len() as u64) {
        Ok(p) => p,
        Err(er) => { return Err(er) },
    };
    Ok(
        (
            CarPaintRenderBlock {
                attributes: CarPaintAttributes { tint, specular_power, flags },
                material,
                vertices,
                indices,
            },
            j3,
        ),
    )
}

pub fn write_car_paint_block(out: &mut Vec<u8>, v: &CarPaintRenderBlock, e: Endian) -> (r: Result<
    (),
    RenderBlockError,
>)
    ensures
        emits(r, final(out)@, old(out)@, enc_car_paint_block(e, v@)),
{
    write_u8(out, 1);
    write_vec4(out, e, v.attributes.tint);
    write_u32(out, e, v.attributes.specular_power);
    write_u32(out, e, v.attributes.flags);
    match write_material(out, &v.material, e) {
        Ok(u) => {},
        Err(er) => { return Err(er) },
    }
    match write_vertex_buffer::<DeformableVertex>(out, &v.vertices, e, false) {
        Ok(u) => {},
        Err(er) => { return Err(er) },
    }
    match write_index_buffer(out, &v.indices, e, v.vertices.0.len() as u64) {
        Ok(u) => {},
        Err(er) => { return Err(er) },
    }
    proof {
        let m = enc_material(e, v@.material)->Ok_0;
        let vb = enc_vertex_buffer::<DeformableVertex>(v@.vertices, e, false)->Ok_0;
        let ib = enc_index_buffer(v@.indices, e, v@.vertices.len() as u64)->Ok_0;
        assert(out@ =~= old(out)@ + (enc_u8(1) + enc_vec4(e, v@.attributes.tint) + enc_u32(e, v@.attributes.specular_power) + enc_u32(e, v@.attributes.flags) + m + vb
            + ib));
    }
    Ok(())
}

/// Chaining the field facts through the block reader.
#[verifier::spinoff_prover]
#[verifier::rlimit(100)]
proof fn lemma_car_paint_block_assemble(
    v: CarPaintRenderBlockView,
    b: Seq<u8>,
    i0: int,
    e: Endian,
    m: Seq<u8>,
    vb: Seq<u8>,
    ib: Seq<u8>,
)
    requires
        v.wf(),
        rd_u8(b, i0) == Ok::<(u8, int), RenderBlockError>((1u8, i0 + 1)),
        rd_vec4(b, i0 + 1, e) == Ok::<(Vec4<u32>, int), RenderBlockError>(
            (v.attributes.tint, i0 + 17),
        ),
        rd_u32(b, i0 + 17, e) == Ok::<(u32, int), RenderBlockError>(
            (v.attributes.specular_power, i0 + 21),
        ),
        rd_u32(b, i0 + 21, e) == Ok::<(u32, int), RenderBlockError>(
            (v.attributes.flags, i0 + 25),
        ),
        rd_material(b, i0 + 25, e) == Ok::<(MaterialView, int), RenderBlockError>(
            (v.material, i0 + 25 + m.len()),
        ),
        rd_vertex_buffer::<DeformableVertex>(b, i0 + 25 + m.len(), e, false) == Ok::<
            (Seq<DeformableVertex>, int),
            RenderBlockError,
        >((v.vertices, i0 + 25 + m.len() + vb.len())),
        rd_index_buffer(
            b,
            i0 + 25 + m.len() + vb.len(),
            e,
            v.vertices.len() as u64,
        ) == Ok::<(Seq<u16>, int), RenderBlockError>((v.indices, i0 + 25 + m.len() + vb.len() + ib.len())),
    ensures
        rd_car_paint_block(b, i0, e) == Ok::<(CarPaintRenderBlockView, int), RenderBlockError>(
            (v, i0 + 25 + m.len() + vb.len() + ib.len()),
        ),
{
    reveal(rd_car_paint_block);
    assert(v == (CarPaintRenderBlockView {
        attributes: v.attributes,
        material: v.material,
        vertices: v.vertices,
        indices: v.indices,
    }));
}

/// One decode fact within an encoded block.
#[verifier::spinoff_prover]
#[verifier::rlimit(100)]
proof fn lemma_car_paint_fact_tag(
    v: CarPaintRenderBlockView,
    p: Seq<u8>,
    sfx: Seq<u8>,
    e: Endian,
    m: Seq<u8>,
    vb: Seq<u8>,
    ib: Seq<u8>,
    b: Seq<u8>,
)
    requires
        b == p + (enc_u8(1u8) + enc_vec4(e, v.attributes.tint) + enc_u32(e, v.attributes.specular_power) + enc_u32(e, v.attributes.flags) + m + vb + ib) + sfx,
    ensures
        rd_u8(b, p.len() as int) == Ok::<(u8, int), RenderBlockError>((1u8, p.len() as int + 1)),
{
    let c0 = enc_u8(1u8);
    let c1 = enc_vec4(e, v.attributes.tint);
    let c2 = enc_u32(e, v.attributes.specular_power);
    let c3 = enc_u32(e, v.attributes.flags);
    let c4 = m;
    let c5 = vb;
    let c6 = ib;
    crate::wire::lemma_chain7(p, c0, c1, c2, c3, c4, c5, c6, sfx);
    lemma_rd_enc_u8(p, c1 + (c2 + (c3 + (c4 + (c5 + (c6 + sfx))))), 1u8);
}

/// One decode fact within an encoded block.
#[verifier::spinoff_prover]
#[verifier::rlimit(100)]
proof fn lemma_car_paint_fact_tint(
    v: CarPaintRenderBlockView,
    p: Seq<u8>,
    sfx: Seq<u8>,
    e: Endian,
    m: Seq<u8>,
    vb: Seq<u8>,
    ib: Seq<u8>,
    b: Seq<u8>,
)
    requires
        b == p + (enc_u8(1u8) + enc_vec4(e, v.attributes.tint) + enc_u32(e, v.attributes.specular_power) + enc_u32(e, v.attributes.flags) + m + vb + ib) + sfx,
    ensures
        rd_vec4(b, p.len() as int + 1, e) == Ok::<(Vec4<u32>, int), RenderBlockError>(
            (v.attributes.tint, p.len() as int + 17),
        ),
{
    let c0 = enc_u8(1u8);
    let c1 = enc_vec4(e, v.attributes.tint);
    let c2 = enc_u32(e, v.attributes.specular_power);
    let c3 = enc_u32(e, v.attributes.flags);
    let c4 = m;
    let c5 = vb;
    let c6 = ib;
    crate::wire::lemma_chain7(p, c0, c1, c2, c3, c4, c5, c6, sfx);
    lemma_rd_enc_vec4(p + c0, c2 + (c3 + (c4 + (c5 + (c6 + sfx)))), e, v.attributes.tint);
}

/// One decode fact within an encoded block.
#[verifier::spinoff_prover]
#[verifier::rlimit(100)]
proof fn lemma_car_paint_fact_specular_power(
    v: CarPaintRenderBlockView,
    p: Seq<u8>,
    sfx: Seq<u8>,
    e: Endian,
    m: Seq<u8>,
    vb: Seq<u8>,
    ib: Seq<u8>,
    b: Seq<u8>,
)
    requires
        b == p + (enc_u8(1u8) + enc_vec4(e, v.attributes.tint) + enc_u32(e, v.attributes.specular_power) + enc_u32(e, v.attributes.flags) + m + vb + ib) + sfx,
    ensures
        rd_u32(b, p.len() as int + 17, e) == Ok::<(u32, int), RenderBlockError>(
            (v.attributes.specular_power, p.len() as int + 21),
        ),
{
    let c0 = enc_u8(1u8);
    let c1 = enc_vec4(e, v.attributes.tint);
    let c2 = enc_u32(e, v.attributes.specular_power);
    let c3 = enc_u32(e, v.attributes.flags);
    let c4 = m;
    let c5 = vb;
    let c6 = ib;
    crate::wire::lemma_chain7(p, c0, c1, c2, c3, c4, c5, c6, sfx);
    lemma_rd_enc_u32(p + c0 + c1, c3 + (c4 + (c5 + (c6 + sfx))), e, v.attributes.specular_power);
}

/// One decode fact within an encoded block.
#[verifier::spinoff_prover]
#[verifier::rlimit(100)]
proof fn lemma_car_paint_fact_flags(
    v: CarPaintRenderBlockView,
    p: Seq<u8>,
    sfx: Seq<u8>,
    e: Endian,
    m: Seq<u8>,
    vb: Seq<u8>,
    ib: Seq<u8>,
    b: Seq<u8>,
)
    requires
        b == p + (enc_u8(1u8) + enc_vec4(e, v.attributes.tint) + enc_u32(e, v.attributes.specular_power) + enc_u32(e, v.attributes.flags) + m + vb + ib) + sfx,
    ensures
        rd_u32(b, p.len() as int + 21, e) == Ok::<(u32, int), RenderBlockError>(
            (v.attributes.flags, p.len() as int + 25),
        ),
{
    let c0 = enc_u8(1u8);
    let c1 = enc_vec4(e, v.attributes.tint);
    let c2 = enc_u32(e, v.attributes.specular_power);
    let c3 = enc_u32(e, v.attributes.flags);
    let c4 = m;
    let c5 = vb;
    let c6 = ib;
    crate::wire::lemma_chain7(p, c0, c1, c2, c3, c4, c5, c6, sfx);
    lemma_rd_enc_u32(p + c0 + c1 + c2, c4 + (c5 + (c6 + sfx)), e, v.attributes.flags);
}

/// One decode fact within an encoded block.
#[verifier::spinoff_prover]
#[verifier::rlimit(100)]
proof fn lemma_car_paint_fact_material(
    v: CarPaintRenderBlockView,
    p: Seq<u8>,
    sfx: Seq<u8>,
    e: Endian,
    m: Seq<u8>,
    vb: Seq<u8>,
    ib: Seq<u8>,
    b: Seq<u8>,
)
    requires
        v.wf(),
        enc_material(e, v.material) == Ok::<Seq<u8>, RenderBlockError>(m),
        b == p + (enc_u8(1u8) + enc_vec4(e, v.attributes.tint) + enc_u32(e, v.attributes.specular_power) + enc_u32(e, v.attributes.flags) + m + vb + ib) + sfx,
    ensures
        rd_material(b, p.len() as int + 25, e) == Ok::<(MaterialView, int), RenderBlockError>(
            (v.material, p.len() as int + 25 + m.len()),
        ),
{
    let c0 = enc_u8(1u8);
    let c1 = enc_vec4(e, v.attributes.tint);
    let c2 = enc_u32(e, v.attributes.specular_power);
    let c3 = enc_u32(e, v.attributes.flags);
    let c4 = m;
    let c5 = vb;
    let c6 = ib;
    crate::wire::lemma_chain7(p, c0, c1, c2, c3, c4, c5, c6, sfx);
    crate::material::lemma_rd_enc_material(v.material, p + c0 + c1 + c2 + c3, c5 + (c6 + sfx), e);
}

/// One decode fact within an encoded block.
#[verifier::spinoff_prover]
#[verifier::rlimit(100)]
proof fn lemma_car_paint_fact_vertices(
    v: CarPaintRenderBlockView,
    p: Seq<u8>,
    sfx: Seq<u8>,
    e: Endian,
    m: Seq<u8>,
    vb: Seq<u8>,
    ib: Seq<u8>,
    b: Seq<u8>,
)
    requires
        v.wf(),
        enc_vertex_buffer::<DeformableVertex>(v.vertices, e, false) == Ok::<Seq<u8>, RenderBlockError>(vb),
        b == p + (enc_u8(1u8) + enc_vec4(e, v.attributes.tint) + enc_u32(e, v.attributes.specular_power) + enc_u32(e, v.attributes.flags) + m + vb + ib) + sfx,
    ensures
        rd_vertex_buffer::<DeformableVertex>(b, p.len() as int + 25 + m.len(), e, false) == Ok::<
            (Seq<DeformableVertex>, int),
            RenderBlockError,
        >((v.vertices, p.len() as int + 25 + m.len() + vb.len())),
{
    let c0 = enc_u8(1u8);
    let c1 = enc_vec4(e, v.attributes.tint);
    let c2 = enc_u32(e, v.attributes.specular_power);
    let c3 = enc_u32(e, v.attributes.flags);
    let c4 = m;
    let c5 = vb;
    let c6 = ib;
    crate::wire::lemma_chain7(p, c0, c1, c2, c3, c4, c5, c6, sfx);
    lemma_deformable_vertices_wf(v.vertices, false);
    lemma_rd_enc_vertex_buffer::<DeformableVertex>(v.vertices, p + c0 + c1 + c2 + c3 + c4, c6 + sfx, e, false);
}

/// One decode fact within an encoded block.
#[verifier::spinoff_prover]
#[verifier::rlimit(100)]
proof fn lemma_car_paint_fact_indices(
    v: CarPaintRenderBlockView,
    p: Seq<u8>,
    sfx: Seq<u8>,
    e: Endian,
    m: Seq<u8>,
    vb: Seq<u8>,
    ib: Seq<u8>,
    b: Seq<u8>,
)
    requires
        v.wf(),
        enc_index_buffer(v.indices, e, v.vertices.len() as u64) == Ok::<
            Seq<u8>,
            RenderBlockError,
        >(ib),
        b == p + (enc_u8(1u8) + enc_vec4(e, v.attributes.tint) + enc_u32(e, v.attributes.specular_power) + enc_u32(e, v.attributes.flags) + m + vb + ib) + sfx,
    ensures
        rd_index_buffer(
            b,
            p.len() as int + 25 + m.len() + vb.len(),
            e,
            v.vertices.len() as u64,
        ) == Ok::<(Seq<u16>, int), RenderBlockError>(
            (v.indices, p.len() as int + 25 + m.len() + vb.len() + ib.len()),
        ),
{
    let c0 = enc_u8(1u8);
    let c1 = enc_vec4(e, v.attributes.tint);
    let c2 = enc_u32(e, v.attributes.specular_power);
    let c3 = enc_u32(e, v.attributes.flags);
    let c4 = m;
    let c5 = vb;
    let c6 = ib;
    crate::wire::lemma_chain7(p, c0, c1, c2, c3, c4, c5, c6, sfx);
    lemma_rd_enc_index_buffer(v.indices, p + c0 + c1 + c2 + c3 + c4 + c5, sfx, e, v.vertices.len() as u64);
}

/// Decoding an encoded car paint block yields it back.
#[verifier::spinoff_prover]
#[verifier::rlimit(100)]
pub proof fn lemma_rd_enc_car_paint_block(v: CarPaintRenderBlockView, p: Seq<u8>, sfx: Seq<u8>, e:
    Endian)
    requires
        v.wf(),
    ensures
        enc_car_paint_block(e, v) matches Ok(bytes) && rd_car_paint_block(
            p + bytes + sfx,
            p.len() as int,
            e,
        ) == Ok::<(CarPaintRenderBlockView, int), RenderBlockError>(
            (v, (p.len() + bytes.len()) as int),
        ),
{
    crate::material::lemma_enc_material_ok(v.material, e);
    crate::buffers::lemma_check_indices_all_ok(v.indices, v.vertices.len() as u64, 0);
    let m = enc_material(e, v.material)->Ok_0;
    let vb = enc_vertex_buffer::<DeformableVertex>(v.vertices, e, false)->Ok_0;
    let ib = enc_index_buffer(v.indices, e, v.vertices.len() as u64)->Ok_0;
    let bytes = enc_u8(1u8) + enc_vec4(e, v.attributes.tint) + enc_u32(e, v.attributes.specular_power) + enc_u32(e, v.attributes.flags) + m + vb + ib;
    assert(enc_car_paint_block(e, v) == Ok::<Seq<u8>, RenderBlockError>(bytes));
    let b = p + bytes + sfx;
    lemma_car_paint_fact_tag(v, p, sfx, e, m, vb, ib, b);
    lemma_car_paint_fact_tint(v, p, sfx, e, m, vb, ib, b);
    lemma_car_paint_fact_specular_power(v, p, sfx, e, m, vb, ib, b);
    lemma_car_paint_fact_flags(v, p, sfx, e, m, vb, ib, b);
    lemma_car_paint_fact_material(v, p, sfx, e, m, vb, ib, b);
    lemma_car_paint_fact_vertices(v, p, sfx, e, m, vb, ib, b);
    lemma_car_paint_fact_indices(v, p, sfx, e, m, vb, ib, b);
    lemma_car_paint_block_assemble(v, b, p.len() as int, e, m, vb, ib);
}

} // verus!
