use vstd::prelude::*;
use crate::buffers::{enc_index_buffer, enc_vertex_buffer, lemma_rd_enc_index_buffer,
    lemma_rd_enc_vertex_buffer, rd_index_buffer, rd_vertex_buffer, read_index_buffer,
    read_vertex_buffer, write_index_buffer, write_vertex_buffer, IndexBuffer, Vertex,
    VertexBuffer};
use crate::errors::RenderBlockError;
use crate::formats::simple::SimpleVertex;
use crate::formats::simple::lemma_simple_vertices_wf;
use crate::material::{enc_material, rd_material, read_material, write_material, Material,
    MaterialView};
use crate::math::Vec4;
use crate::wire::{agrees, emits, enc_u32, enc_u8, enc_vec4, lemma_rd_enc_u32, lemma_rd_enc_u8,
    lemma_rd_enc_vec4, rd_u32, rd_u8, rd_vec4, read_u32, read_u8, read_vec4, write_u32, write_u8,
    write_vec4, Endian};

verus! {



/// The attribute body of the simple car-paint block: a specular power and
/// the render flags.
#[derive(Clone, Copy, PartialEq, Eq, Structural, Debug)]
pub struct CarPaintSimpleAttributes {
    pub specular_power: u32,
    pub flags: u32,
}

/// A car paint simple render block: the version-tagged attributes, the
/// material, a vertex buffer and a bounds-checked index buffer.
#[derive(Clone, Debug, PartialEq, Eq)]
pub struct CarPaintSimpleRenderBlock {
    pub attributes: CarPaintSimpleAttributes,
    pub material: Material,
    pub vertices: VertexBuffer<SimpleVertex>,
    pub indices: IndexBuffer,
}

pub struct CarPaintSimpleRenderBlockView {
    pub attributes: CarPaintSimpleAttributes,
    pub material: MaterialView,
    pub vertices: Seq<SimpleVertex>,
    pub indices: Seq<u16>,
}

impl View for CarPaintSimpleRenderBlock {
    type V = CarPaintSimpleRenderBlockView;

    open spec fn view(&self) -> CarPaintSimpleRenderBlockView {
        CarPaintSimpleRenderBlockView {
            attributes: self.attributes,
            material: self.material@,
            vertices: self.vertices@,
            indices: self.indices@,
        }
    }
}

impl CarPaintSimpleRenderBlockView {
    /// What the wire format can carry back unchanged: a sound material,
    /// buffers that fit their count fields, and every index below the
    /// vertex count.
    pub open spec fn wf(self) -> bool {
        &&& self.material.wf()
        &&& self.vertices.len() <= 0xFFFFFFFF
        &&& self.indices.len() <= 0xFFFFFFFF
        &&& forall|k: int|
            0 <= k < self.indices.len() ==> (#[trigger] self.indices[k] as u64) < (
            self.vertices.len() as u64)
    }
}

/// The block's body: a version tag that must be 1, the attributes, the
/// material, the vertices, then indices bounded by the vertex count just
/// read.
#[verifier::opaque]
pub open spec fn rd_car_paint_simple_block(b: Seq<u8>, i: int, e: Endian) -> Result<
    (CarPaintSimpleRenderBlockView, int),
    RenderBlockError,
> {
    match rd_u8(b, i) {
        Ok((tag, i1)) => if tag != 1 {
            Err(RenderBlockError::UnsupportedBlockVersion { tag })
        } else {
            match rd_u32(b, i1, e) { Ok((specular_power, i2)) => match rd_u32(b, i2, e) { Ok((flags, i3)) => match rd_material(b, i3, e) {
                Ok((material, j1)) => match rd_vertex_buffer::<SimpleVertex>(b, j1, e, false) {
                    Ok((vertices, j2)) => match rd_index_buffer(b, j2, e, vertices.len() as u64) {
                        Ok((indices, j3)) => Ok(
                            (
                                CarPaintSimpleRenderBlockView {
                                    attributes: CarPaintSimpleAttributes { specular_power, flags },
                                    material,
                                    vertices,
                                    indices,
                                },
                                j3,
                            ),
                        ),
                        Err(er) => Err(er),
                    },
                    Err(er) => Err(er),
                },
                Err(er) => Err(er),
            }, Err(er) => Err(er) }, Err(er) => Err(er) }
        },
        Err(er) => Err(er),
    }
}

pub open spec fn enc_car_paint_simple_block(e: Endian, v: CarPaintSimpleRenderBlockView) -> Result<
    Seq<u8>,
    RenderBlockError,
> {
    match enc_material(e, v.material) {
        Ok(m) => match enc_vertex_buffer::<SimpleVertex>(v.vertices, e, false) {
            Ok(vb) => match enc_index_buffer(v.indices, e, v.vertices.len() as u64) {
                Ok(ib) => Ok(
                    enc_u8(1) + enc_u32(e, v.attributes.specular_power) + enc_u32(e, v.attributes.flags) + m + vb + ib,
                ),
                Err(er) => Err(er),
            },
            Err(er) => Err(er),
        },
        Err(er) => Err(er),
    }
}

pub fn read_car_paint_simple_block(b: &Vec<u8>, i: usize, e: Endian) -> (r: Result<
    (CarPaintSimpleRenderBlock, usize),
    RenderBlockError,
>)
    requires
        i <= b@.len(),
    ensures
        (match r {
            Ok((v, j)) => rd_car_paint_simple_block(b@, i as int, e) == Ok::<
                (CarPaintSimpleRenderBlockView, int),
                RenderBlockError,
            >((v@, j as int)) && i <= j <= b@.len(),
            Err(er) => rd_car_paint_simple_block(b@, i as int, e) == Err::<
                (CarPaintSimpleRenderBlockView, int),
                RenderBlockError,
            >(er),
        }),
{
    proof {
        reveal(rd_car_paint_simple_block);
    }
    let (tag, i1) = match read_u8(b, i) {
        Ok(p) => p,
        Err(er) => { return Err(er) },
    };
    if tag != 1 {
        return Err(RenderBlockError::UnsupportedBlockVersion { tag });
    }
    let (specular_power, i2) = match read_u32(b, i1, e) {
        Ok(p) => p,
        Err(er) => { return Err(er) },
    };
    let (flags, i3) = match read_u32(b, i2, e) {
        Ok(p) => p,
        Err(er) => { return Err(er) },
    };
    let (material, j1) = match read_material(b, i3, e) {
        Ok(p) => p,
        Err(er) => { return Err(er) },
    };
    let (vertices, j2) = match read_vertex_buffer::<SimpleVertex>(b, j1, e, false) {
        Ok(p) => p,
        Err(er) => { return Err(er) },
    };
    let (indices, j3) = match read_index_buffer(b, j2, e, vertices.0.len() as u64) {
        Ok(p) => p,
        Err(er) => { return Err(er) },
    };
    Ok(
        (
            CarPaintSimpleRenderBlock {
                attributes: CarPaintSimpleAttributes { specular_power, flags },
                material,
                vertices,
                indices,
            },
            j3,
        ),
    )
}

pub fn write_car_paint_simple_block(out: &mut Vec<u8>, v: &CarPaintSimpleRenderBlock, e: Endian) -> (r: Result<
    (),
    RenderBlockError,
>)
    ensures
        emits(r, final(out)@, old(out)@, enc_car_paint_simple_block(e, v@)),
{
    write_u8(out, 1);
    write_u32(out, e, v.attributes.specular_power);
    write_u32(out, e, v.attributes.flags);
    match write_material(out, &v.material, e) {
        Ok(u) => {},
        Err(er) => { return Err(er) },
    }
    match write_vertex_buffer::<SimpleVertex>(out, &v.vertices, e, false) {
        Ok(u) => {},
        Err(er) => { return Err(er) },
    }
    match write_index_buffer(out, &v.indices, e, v.vertices.0.len() as u64) {
        Ok(u) => {},
        Err(er) => { return Err(er) },
    }
    proof {
        let m = enc_material(e, v@.material)->Ok_0;
        let vb = enc_vertex_buffer::<SimpleVertex>(v@.vertices, e, false)->Ok_0;
        let ib = enc_index_buffer(v@.indices, e, v@.vertices.len() as u64)->Ok_0;
        assert(out@ =~= old(out)@ + (enc_u8(1) + enc_u32(e, v@.attributes.specular_power) + enc_u32(e, v@.attributes.flags) + m + vb
            + ib));
    }
    Ok(())
}

/// Chaining the field facts through the block reader.
#[verifier::spinoff_prover]
#[verifier::rlimit(100)]
proof fn lemma_car_paint_simple_block_assemble(
    v: CarPaintSimpleRenderBlockView,
    b: Seq<u8>,
    i0: int,
    e: Endian,
    m: Seq<u8>,
    vb: Seq<u8>,
    ib: Seq<u8>,
)
    requires
        v.wf(),
        rd_u8(b, i0) == Ok::<(u8, int), RenderBlockError>((1u8, i0 + 1)),
        rd_u32(b, i0 + 1, e) == Ok::<(u32, int), RenderBlockError>(
            (v.attributes.specular_power, i0 + 5),
        ),
        rd_u32(b, i0 + 5, e) == Ok::<(u32, int), RenderBlockError>(
            (v.attributes.flags, i0 + 9),
        ),
        rd_material(b, i0 + 9, e) == Ok::<(MaterialView, int), RenderBlockError>(
            (v.material, i0 + 9 + m.len()),
        ),
        rd_vertex_buffer::<SimpleVertex>(b, i0 + 9 + m.len(), e, false) == Ok::<
            (Seq<SimpleVertex>, int),
            RenderBlockError,
        >((v.vertices, i0 + 9 + m.len() + vb.len())),
        rd_index_buffer(
            b,
            i0 + 9 + m.len() + vb.len(),
            e,
            v.vertices.len() as u64,
        ) == Ok::<(Seq<u16>, int), RenderBlockError>((v.indices, i0 + 9 + m.len() + vb.len() + ib.len())),
    ensures
        rd_car_paint_simple_block(b, i0, e) == Ok::<(CarPaintSimpleRenderBlockView, int), RenderBlockError>(
            (v, i0 + 9 + m.len() + vb.len() + ib.len()),
        ),
{
    reveal(rd_car_paint_simple_block);
    assert(v == (CarPaintSimpleRenderBlockView {
        attributes: v.attributes,
        material: v.material,
        vertices: v.vertices,
        indices: v.indices,
    }));
}

/// Decode facts for the tag and attribute fields of an encoded block.
#[verifier::spinoff_prover]
#[verifier::rlimit(100)]
proof fn lemma_car_paint_simple_block_facts_a(
    v: CarPaintSimpleRenderBlockView,
    p: Seq<u8>,
    sfx: Seq<u8>,
    e: Endian,
    m: Seq<u8>,
    vb: Seq<u8>,
    ib: Seq<u8>,
    b: Seq<u8>,
)
    requires
        b == p + (enc_u8(1u8) + enc_u32(e, v.attributes.specular_power) + enc_u32(e, v.attributes.flags) + m + vb + ib) + sfx,
    ensures
        rd_u8(b, p.len() as int) == Ok::<(u8, int), RenderBlockError>((1u8, p.len() as int + 1)),
        rd_u32(b, p.len() as int + 1, e) == Ok::<(u32, int), RenderBlockError>(
            (v.attributes.specular_power, p.len() as int + 5),
        ),
        rd_u32(b, p.len() as int + 5, e) == Ok::<(u32, int), RenderBlockError>(
            (v.attributes.flags, p.len() as int + 9),
        ),
{
    let c0 = enc_u8(1u8);
    let c1 = enc_u32(e, v.attributes.specular_power);
    let c2 = enc_u32(e, v.attributes.flags);
    let c3 = m;
    let c4 = vb;
    let c5 = ib;
    crate::wire::lemma_chain6(p, c0, c1, c2, c3, c4, c5, sfx);
    lemma_rd_enc_u8(p, c1 + (c2 + (c3 + (c4 + (c5 + sfx)))), 1u8);
    lemma_rd_enc_u32(p + c0, c2 + (c3 + (c4 + (c5 + sfx))), e, v.attributes.specular_power);
    lemma_rd_enc_u32(p + c0 + c1, c3 + (c4 + (c5 + sfx)), e, v.attributes.flags);
}

/// Decode facts for the material and the two buffers of an encoded block.
#[verifier::spinoff_prover]
#[verifier::rlimit(100)]
proof fn lemma_car_paint_simple_block_facts_b(
    v: CarPaintSimpleRenderBlockView,
    p: Seq<u8>,
    sfx: Seq<u8>,
    e: Endian,
    m: Seq<u8>,
    vb: Seq<u8>,
    ib: Seq<u8>,
    b: Seq<u8>,
)
    requires
        v.wf(),
        enc_material(e, v.material) == Ok::<Seq<u8>, RenderBlockError>(m),
        enc_vertex_buffer::<SimpleVertex>(v.vertices, e, false) == Ok::<Seq<u8>, RenderBlockError>(vb),
        enc_index_buffer(v.indices, e, v.vertices.len() as u64) == Ok::<
            Seq<u8>,
            RenderBlockError,
        >(ib),
        b == p + (enc_u8(1u8) + enc_u32(e, v.attributes.specular_power) + enc_u32(e, v.attributes.flags) + m + vb + ib) + sfx,
    ensures
        rd_material(b, p.len() as int + 9, e) == Ok::<(MaterialView, int), RenderBlockError>(
            (v.material, p.len() as int + 9 + m.len()),
        ),
        rd_vertex_buffer::<SimpleVertex>(b, p.len() as int + 9 + m.len(), e, false) == Ok::<
            (Seq<SimpleVertex>, int),
            RenderBlockError,
        >((v.vertices, p.len() as int + 9 + m.len() + vb.len())),
        rd_index_buffer(
            b,
            p.len() as int + 9 + m.len() + vb.len(),
            e,
            v.vertices.len() as u64,
        ) == Ok::<(Seq<u16>, int), RenderBlockError>(
            (v.indices, p.len() as int + 9 + m.len() + vb.len() + ib.len()),
        ),
{
    let c0 = enc_u8(1u8);
    let c1 = enc_u32(e, v.attributes.specular_power);
    let c2 = enc_u32(e, v.attributes.flags);
    let c3 = m;
    let c4 = vb;
    let c5 = ib;
    crate::wire::lemma_chain6(p, c0, c1, c2, c3, c4, c5, sfx);
    crate::material::lemma_rd_enc_material(v.material, p + c0 + c1 + c2, c4 + (c5 + sfx), e);
    lemma_simple_vertices_wf(v.vertices, false);
    lemma_rd_enc_vertex_buffer::<SimpleVertex>(v.vertices, p + c0 + c1 + c2 + c3, c5 + sfx, e, false);
    lemma_rd_enc_index_buffer(v.indices, p + c0 + c1 + c2 + c3 + c4, sfx, e, v.vertices.len() as u64);
}

/// Decoding an encoded car paint simple block yields it back.
#[verifier::spinoff_prover]
#[verifier::rlimit(100)]
pub proof fn lemma_rd_enc_car_paint_simple_block(v: CarPaintSimpleRenderBlockView, p: Seq<u8>, sfx: Seq<u8>, e:
    Endian)
    requires
        v.wf(),
    ensures
        enc_car_paint_simple_block(e, v) matches Ok(bytes) && rd_car_paint_simple_block(
            p + bytes + sfx,
            p.len() as int,
            e,
        ) == Ok::<(CarPaintSimpleRenderBlockView, int), RenderBlockError>(
            (v, (p.len() + bytes.len()) as int),
        ),
{
    crate::material::lemma_enc_material_ok(v.material, e);
    crate::buffers::lemma_check_indices_all_ok(v.indices, v.vertices.len() as u64, 0);
    let m = enc_material(e, v.material)->Ok_0;
    let vb = enc_vertex_buffer::<SimpleVertex>(v.vertices, e, false)->Ok_0;
    let ib = enc_index_buffer(v.indices, e, v.vertices.len() as u64)->Ok_0;
    let bytes = enc_u8(1u8) + enc_u32(e, v.attributes.specular_power) + enc_u32(e, v.attributes.flags) + m + vb + ib;
    assert(enc_car_paint_simple_block(e, v) == Ok::<Seq<u8>, RenderBlockError>(bytes));
    let b = p + bytes + sfx;
    lemma_car_paint_simple_block_facts_a(v, p, sfx, e, m, vb, ib, b);
    lemma_car_paint_simple_block_facts_b(v, p, sfx, e, m, vb, ib, b);
    lemma_car_paint_simple_block_assemble(v, b, p.len() as int, e, m, vb, ib);
}

} // verus!
