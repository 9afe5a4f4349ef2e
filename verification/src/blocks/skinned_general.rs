use vstd::prelude::*;
use crate::buffers::{enc_index_buffer, enc_vertex_buffer, lemma_rd_enc_index_buffer,
    lemma_rd_enc_vertex_buffer, rd_index_buffer, rd_vertex_buffer, read_index_buffer,
    read_vertex_buffer, write_index_buffer, write_vertex_buffer, IndexBuffer, Vertex,
    VertexBuffer};
use crate::errors::RenderBlockError;
use crate::formats::skinned::{SkinnedVertexData, SkinnedVertexPosition};
use crate::material::{enc_material, rd_material, read_material, write_material, Material,
    MaterialView};
use crate::wire::{agrees, emits, enc_u32, enc_u8, lemma_rd_enc_u32, lemma_rd_enc_u8, rd_u32,
    rd_u8, read_u32, read_u8, write_u32, write_u8, Endian};

verus! {

/// The flag bit that switches the position records to their eight-bone
/// wire form.
pub const SKINNED_EIGHT_BONES: u32 = 1u32 << 0;

pub open spec fn skinned_eight_bones(flags: u32) -> bool {
    flags & SKINNED_EIGHT_BONES != 0
}

pub fn skinned_eight_bones_exec(flags: u32) -> (r: bool)
    ensures
        r == skinned_eight_bones(flags),
{
    flags & SKINNED_EIGHT_BONES != 0u32
}

/// The attribute body of a skinned block: a specular power and the render
/// flags, whose lowest bit selects the bone width of the position records.
#[derive(Clone, Copy, PartialEq, Eq, Structural, Debug)]
pub struct SkinnedGeneralAttributes {
    pub specular_power: u32,
    pub flags: u32,
}

/// A skinned render block. The vertices arrive as two streams: the
/// position-and-bones records, whose wire width the flags select, and the
/// per-vertex shading data. The index bound is the position count.
#[derive(Clone, Debug, PartialEq, Eq)]
pub struct SkinnedGeneralRenderBlock {
    pub attributes: SkinnedGeneralAttributes,
    pub material: Material,
    pub positions: VertexBuffer<SkinnedVertexPosition>,
    pub vertex_data: VertexBuffer<SkinnedVertexData>,
    pub indices: IndexBuffer,
}

pub struct SkinnedGeneralRenderBlockView {
    pub attributes: SkinnedGeneralAttributes,
    pub material: MaterialView,
    pub positions: Seq<SkinnedVertexPosition>,
    pub vertex_data: Seq<SkinnedVertexData>,
    pub indices: Seq<u16>,
}

impl View for SkinnedGeneralRenderBlock {
    type V = SkinnedGeneralRenderBlockView;

    open spec fn view(&self) -> SkinnedGeneralRenderBlockView {
        SkinnedGeneralRenderBlockView {
            attributes: self.attributes,
            material: self.material@,
            positions: self.positions@,
            vertex_data: self.vertex_data@,
            indices: self.indices@,
        }
    }
}

impl SkinnedGeneralRenderBlockView {
    /// What the wire format can carry back unchanged. Under the four-bone
    /// form every position record must keep its upper four bone slots
    /// clear, since the wire has no room for them.
    pub open spec fn wf(self) -> bool {
        &&& self.material.wf()
        &&& self.positions.len() <= 0xFFFFFFFF
        &&& self.vertex_data.len() <= 0xFFFFFFFF
        &&& self.indices.len() <= 0xFFFFFFFF
        &&& forall|k: int|
            0 <= k < self.positions.len() ==> #[trigger] self.positions[k].wf(
                skinned_eight_bones(self.attributes.flags),
            )
        &&& forall|k: int|
            0 <= k < self.indices.len() ==> (#[trigger] self.indices[k] as u64) < (
            self.positions.len() as u64)
    }
}

/// The block's body: a version tag that must be 3, the attributes, the
/// material, the two vertex streams, then indices bounded by the position
/// count just read.
#[verifier::opaque]
pub open spec fn rd_skinned_general_block(b: Seq<u8>, i: int, e: Endian) -> Result<
    (SkinnedGeneralRenderBlockView, int),
    RenderBlockError,
> {
    match rd_u8(b, i) {
        Ok((tag, i1)) => if tag != 3 {
            Err(RenderBlockError::UnsupportedBlockVersion { tag })
        } else {
            match rd_u32(b, i1, e) { Ok((specular_power, i2)) => match rd_u32(b, i2, e) {
                Ok((flags, i3)) => match rd_material(b, i3, e) {
                    Ok((material, j1)) => match rd_vertex_buffer::<SkinnedVertexPosition>(
                        b,
                        j1,
                        e,
                        skinned_eight_bones(flags),
                    ) {
                        Ok((positions, j2)) => match rd_vertex_buffer::<SkinnedVertexData>(
                            b,
                            j2,
                            e,
                            false,
                        ) {
                            Ok((vertex_data, j3)) => match rd_index_buffer(
                                b,
                                j3,
                                e,
                                positions.len() as u64,
                            ) {
                                Ok((indices, j4)) => Ok(
                                    (
                                        SkinnedGeneralRenderBlockView {
                                            attributes: SkinnedGeneralAttributes {
                                                specular_power,
                                                flags,
                                            },
                                            material,
                                            positions,
                                            vertex_data,
                                            indices,
                                        },
                                        j4,
                                    ),
                                ),
                                Err(er) => Err(er),
                            },
                            Err(er) => Err(er),
                        },
                        Err(er) => Err(er),
                    },
                    Err(er) => Err(er),
                },
                Err(er) => Err(er),
            }, Err(er) => Err(er) }
        },
        Err(er) => Err(er),
    }
}

pub open spec fn enc_skinned_general_block(e: Endian, v: SkinnedGeneralRenderBlockView) -> Result<
    Seq<u8>,
    RenderBlockError,
> {
    match enc_material(e, v.material) {
        Ok(m) => match enc_vertex_buffer::<SkinnedVertexPosition>(
            v.positions,
            e,
            skinned_eight_bones(v.attributes.flags),
        ) {
            Ok(pb) => match enc_vertex_buffer::<SkinnedVertexData>(v.vertex_data, e, false) {
                Ok(db) => match enc_index_buffer(v.indices, e, v.positions.len() as u64) {
                    Ok(ib) => Ok(
                        enc_u8(3u8) + enc_u32(e, v.attributes.specular_power) + enc_u32(
                            e,
                            v.attributes.flags,
                        ) + m + pb + db + ib,
                    ),
                    Err(er) => Err(er),
                },
                Err(er) => Err(er),
            },
            Err(er) => Err(er),
        },
        Err(er) => Err(er),
    }
}

pub fn read_skinned_general_block(b: &Vec<u8>, i: usize, e: Endian) -> (r: Result<
    (SkinnedGeneralRenderBlock, usize),
    RenderBlockError,
>)
    requires
        i <= b@.len(),
    ensures
        (match r {
            Ok((v, j)) => rd_skinned_general_block(b@, i as int, e) == Ok::<
                (SkinnedGeneralRenderBlockView, int),
                RenderBlockError,
            >((v@, j as int)) && i <= j <= b@.len(),
            Err(er) => rd_skinned_general_block(b@, i as int, e) == Err::<
                (SkinnedGeneralRenderBlockView, int),
                RenderBlockError,
            >(er),
        }),
{
    proof {
        reveal(rd_skinned_general_block);
    }
    let (tag, i1) = match read_u8(b, i) {
        Ok(p) => p,
        Err(er) => { return Err(er) },
    };
    if tag != 3 {
        return Err(RenderBlockError::UnsupportedBlockVersion { tag });
    }
    let (specular_power, i2) = match read_u32(b, i1, e) {
        Ok(p) => p,
        Err(er) => { return Err(er) },
    };
    let (flags, i3) = match read_u32(b, i2, e) {
        Ok(p) => p,
        Err(er) => { return Err(er) },
    };
    let (material, j1) = match read_material(b, i3, e) {
        Ok(p) => p,
        Err(er) => { return Err(er) },
    };
    let (positions, j2) = match read_vertex_buffer::<SkinnedVertexPosition>(
        b,
        j1,
        e,
        skinned_eight_bones_exec(flags),
    ) {
        Ok(p) => p,
        Err(er) => { return Err(er) },
    };
    let (vertex_data, j3) = match read_vertex_buffer::<SkinnedVertexData>(b, j2, e, false) {
        Ok(p) => p,
        Err(er) => { return Err(er) },
    };
    let (indices, j4) = match read_index_buffer(b, j3, e, positions.0.len() as u64) {
        Ok(p) => p,
        Err(er) => { return Err(er) },
    };
    Ok(
        (
            SkinnedGeneralRenderBlock {
                attributes: SkinnedGeneralAttributes { specular_power, flags },
                material,
                positions,
                vertex_data,
                indices,
            },
            j4,
        ),
    )
}

pub fn write_skinned_general_block(
    out: &mut Vec<u8>,
    v: &SkinnedGeneralRenderBlock,
    e: Endian,
) -> (r: Result<(), RenderBlockError>)
    ensures
        emits(r, final(out)@, old(out)@, enc_skinned_general_block(e, v@)),
{
    write_u8(out, 3);
    write_u32(out, e, v.attributes.specular_power);
    write_u32(out, e, v.attributes.flags);
    match write_material(out, &v.material, e) {
        Ok(u) => {},
        Err(er) => { return Err(er) },
    }
    match write_vertex_buffer::<SkinnedVertexPosition>(
        out,
        &v.positions,
        e,
        skinned_eight_bones_exec(v.attributes.flags),
    ) {
        Ok(u) => {},
        Err(er) => { return Err(er) },
    }
    match write_vertex_buffer::<SkinnedVertexData>(out, &v.vertex_data, e, false) {
        Ok(u) => {},
        Err(er) => { return Err(er) },
    }
    match write_index_buffer(out, &v.indices, e, v.positions.0.len() as u64) {
        Ok(u) => {},
        Err(er) => { return Err(er) },
    }
    proof {
        let m = enc_material(e, v@.material)->Ok_0;
        let pb = enc_vertex_buffer::<SkinnedVertexPosition>(
            v@.positions,
            e,
            skinned_eight_bones(v@.attributes.flags),
        )->Ok_0;
        let db = enc_vertex_buffer::<SkinnedVertexData>(v@.vertex_data, e, false)->Ok_0;
        let ib = enc_index_buffer(v@.indices, e, v@.positions.len() as u64)->Ok_0;
        assert(out@ =~= old(out)@ + (enc_u8(3u8) + enc_u32(e, v@.attributes.specular_power)
            + enc_u32(e, v@.attributes.flags) + m + pb + db + ib));
    }
    Ok(())
}

/// Every skinned data record is carried faithfully by its wire form.
proof fn lemma_skinned_data_wf(s: Seq<SkinnedVertexData>)
    ensures
        forall|j: int| 0 <= j < s.len() ==> #[trigger] s[j].wf(false),
{
}

/// One decode fact within an encoded skinned block.
#[verifier::spinoff_prover]
#[verifier::rlimit(100)]
proof fn lemma_skinned_fact_tag(
    v: SkinnedGeneralRenderBlockView,
    p: Seq<u8>,
    sfx: Seq<u8>,
    e: Endian,
    m: Seq<u8>,
    pb: Seq<u8>,
    db: Seq<u8>,
    ib: Seq<u8>,
    b: Seq<u8>,
)
    requires
        b == p + (enc_u8(3u8) + enc_u32(e, v.attributes.specular_power) + enc_u32(e, v.attributes.flags) + m + pb + db + ib) + sfx,
    ensures
        rd_u8(b, p.len() as int) == Ok::<(u8, int), RenderBlockError>((3u8, p.len() as int + 1)),
{
    let c0 = enc_u8(3u8);
    let c1 = enc_u32(e, v.attributes.specular_power);
    let c2 = enc_u32(e, v.attributes.flags);
    let c3 = m;
    let c4 = pb;
    let c5 = db;
    let c6 = ib;
    crate::wire::lemma_chain7(p, c0, c1, c2, c3, c4, c5, c6, sfx);
    lemma_rd_enc_u8(p, c1 + (c2 + (c3 + (c4 + (c5 + (c6 + sfx))))), 3u8);
}

/// One decode fact within an encoded skinned block.
#[verifier::spinoff_prover]
#[verifier::rlimit(100)]
proof fn lemma_skinned_fact_specular(
    v: SkinnedGeneralRenderBlockView,
    p: Seq<u8>,
    sfx: Seq<u8>,
    e: Endian,
    m: Seq<u8>,
    pb: Seq<u8>,
    db: Seq<u8>,
    ib: Seq<u8>,
    b: Seq<u8>,
)
    requires
        b == p + (enc_u8(3u8) + enc_u32(e, v.attributes.specular_power) + enc_u32(e, v.attributes.flags) + m + pb + db + ib) + sfx,
    ensures
        rd_u32(b, p.len() as int + 1, e) == Ok::<(u32, int), RenderBlockError>(
            (v.attributes.specular_power, p.len() as int + 5),
        ),
{
    let c0 = enc_u8(3u8);
    let c1 = enc_u32(e, v.attributes.specular_power);
    let c2 = enc_u32(e, v.attributes.flags);
    let c3 = m;
    let c4 = pb;
    let c5 = db;
    let c6 = ib;
    crate::wire::lemma_chain7(p, c0, c1, c2, c3, c4, c5, c6, sfx);
    lemma_rd_enc_u32(p + c0, c2 + (c3 + (c4 + (c5 + (c6 + sfx)))), e, v.attributes.specular_power);
}

/// One decode fact within an encoded skinned block.
#[verifier::spinoff_prover]
#[verifier::rlimit(100)]
proof fn lemma_skinned_fact_flags(
    v: SkinnedGeneralRenderBlockView,
    p: Seq<u8>,
    sfx: Seq<u8>,
    e: Endian,
    m: Seq<u8>,
    pb: Seq<u8>,
    db: Seq<u8>,
    ib: Seq<u8>,
    b: Seq<u8>,
)
    requires
        b == p + (enc_u8(3u8) + enc_u32(e, v.attributes.specular_power) + enc_u32(e, v.attributes.flags) + m + pb + db + ib) + sfx,
    ensures
        rd_u32(b, p.len() as int + 5, e) == Ok::<(u32, int), RenderBlockError>(
            (v.attributes.flags, p.len() as int + 9),
        ),
{
    let c0 = enc_u8(3u8);
    let c1 = enc_u32(e, v.attributes.specular_power);
    let c2 = enc_u32(e, v.attributes.flags);
    let c3 = m;
    let c4 = pb;
    let c5 = db;
    let c6 = ib;
    crate::wire::lemma_chain7(p, c0, c1, c2, c3, c4, c5, c6, sfx);
    lemma_rd_enc_u32(p + c0 + c1, c3 + (c4 + (c5 + (c6 + sfx))), e, v.attributes.flags);
}

/// One decode fact within an encoded skinned block.
#[verifier::spinoff_prover]
#[verifier::rlimit(100)]
proof fn lemma_skinned_fact_material(
    v: SkinnedGeneralRenderBlockView,
    p: Seq<u8>,
    sfx: Seq<u8>,
    e: Endian,
    m: Seq<u8>,
    pb: Seq<u8>,
    db: Seq<u8>,
    ib: Seq<u8>,
    b: Seq<u8>,
)
    requires
        v.wf(),
        enc_material(e, v.material) == Ok::<Seq<u8>, RenderBlockError>(m),
        b == p + (enc_u8(3u8) + enc_u32(e, v.attributes.specular_power) + enc_u32(e, v.attributes.flags) + m + pb + db + ib) + sfx,
    ensures
        rd_material(b, p.len() as int + 9, e) == Ok::<(MaterialView, int), RenderBlockError>(
            (v.material, p.len() as int + 9 + m.len()),
        ),
{
    let c0 = enc_u8(3u8);
    let c1 = enc_u32(e, v.attributes.specular_power);
    let c2 = enc_u32(e, v.attributes.flags);
    let c3 = m;
    let c4 = pb;
    let c5 = db;
    let c6 = ib;
    crate::wire::lemma_chain7(p, c0, c1, c2, c3, c4, c5, c6, sfx);
    crate::material::lemma_rd_enc_material(v.material, p + c0 + c1 + c2, c4 + (c5 + (c6 + sfx)), e);
}

/// One decode fact within an encoded skinned block.
#[verifier::spinoff_prover]
#[verifier::rlimit(100)]
proof fn lemma_skinned_fact_positions(
    v: SkinnedGeneralRenderBlockView,
    p: Seq<u8>,
    sfx: Seq<u8>,
    e: Endian,
    m: Seq<u8>,
    pb: Seq<u8>,
    db: Seq<u8>,
    ib: Seq<u8>,
    b: Seq<u8>,
)
    requires
        v.wf(),
        enc_vertex_buffer::<SkinnedVertexPosition>(
            v.positions,
            e,
            skinned_eight_bones(v.attributes.flags),
        ) == Ok::<Seq<u8>, RenderBlockError>(pb),
        b == p + (enc_u8(3u8) + enc_u32(e, v.attributes.specular_power) + enc_u32(e, v.attributes.flags) + m + pb + db + ib) + sfx,
    ensures
        rd_vertex_buffer::<SkinnedVertexPosition>(
            b,
            p.len() as int + 9 + m.len(),
            e,
            skinned_eight_bones(v.attributes.flags),
        ) == Ok::<(Seq<SkinnedVertexPosition>, int), RenderBlockError>(
            (v.positions, p.len() as int + 9 + m.len() + pb.len()),
        ),
{
    let c0 = enc_u8(3u8);
    let c1 = enc_u32(e, v.attributes.specular_power);
    let c2 = enc_u32(e, v.attributes.flags);
    let c3 = m;
    let c4 = pb;
    let c5 = db;
    let c6 = ib;
    crate::wire::lemma_chain7(p, c0, c1, c2, c3, c4, c5, c6, sfx);
    lemma_rd_enc_vertex_buffer::<SkinnedVertexPosition>(
        v.positions,
        p + c0 + c1 + c2 + c3,
        c5 + (c6 + sfx),
        e,
        skinned_eight_bones(v.attributes.flags),
    );
}

/// One decode fact within an encoded skinned block.
#[verifier::spinoff_prover]
#[verifier::rlimit(100)]
proof fn lemma_skinned_fact_vertex_data(
    v: SkinnedGeneralRenderBlockView,
    p: Seq<u8>,
    sfx: Seq<u8>,
    e: Endian,
    m: Seq<u8>,
    pb: Seq<u8>,
    db: Seq<u8>,
    ib: Seq<u8>,
    b: Seq<u8>,
)
    requires
        v.wf(),
        enc_vertex_buffer::<SkinnedVertexData>(v.vertex_data, e, false) == Ok::<
            Seq<u8>,
            RenderBlockError,
        >(db),
        b == p + (enc_u8(3u8) + enc_u32(e, v.attributes.specular_power) + enc_u32(e, v.attributes.flags) + m + pb + db + ib) + sfx,
    ensures
        rd_vertex_buffer::<SkinnedVertexData>(
            b,
            p.len() as int + 9 + m.len() + pb.len(),
            e,
            false,
        ) == Ok::<(Seq<SkinnedVertexData>, int), RenderBlockError>(
            (v.vertex_data, p.len() as int + 9 + m.len() + pb.len() + db.len()),
        ),
{
    let c0 = enc_u8(3u8);
    let c1 = enc_u32(e, v.attributes.specular_power);
    let c2 = enc_u32(e, v.attributes.flags);
    let c3 = m;
    let c4 = pb;
    let c5 = db;
    let c6 = ib;
    crate::wire::lemma_chain7(p, c0, c1, c2, c3, c4, c5, c6, sfx);
    lemma_skinned_data_wf(v.vertex_data);
    lemma_rd_enc_vertex_buffer::<SkinnedVertexData>(v.vertex_data, p + c0 + c1 + c2 + c3 + c4, c6 + sfx, e, false);
}

/// One decode fact within an encoded skinned block.
#[verifier::spinoff_prover]
#[verifier::rlimit(100)]
proof fn lemma_skinned_fact_indices(
    v: SkinnedGeneralRenderBlockView,
    p: Seq<u8>,
    sfx: Seq<u8>,
    e: Endian,
    m: Seq<u8>,
    pb: Seq<u8>,
    db: Seq<u8>,
    ib: Seq<u8>,
    b: Seq<u8>,
)
    requires
        v.wf(),
        enc_index_buffer(v.indices, e, v.positions.len() as u64) == Ok::<
            Seq<u8>,
            RenderBlockError,
        >(ib),
        b == p + (enc_u8(3u8) + enc_u32(e, v.attributes.specular_power) + enc_u32(e, v.attributes.flags) + m + pb + db + ib) + sfx,
    ensures
        rd_index_buffer(
            b,
            p.len() as int + 9 + m.len() + pb.len() + db.len(),
            e,
            v.positions.len() as u64,
        ) == Ok::<(Seq<u16>, int), RenderBlockError>(
            (v.indices, p.len() as int + 9 + m.len() + pb.len() + db.len() + ib.len()),
        ),
{
    let c0 = enc_u8(3u8);
    let c1 = enc_u32(e, v.attributes.specular_power);
    let c2 = enc_u32(e, v.attributes.flags);
    let c3 = m;
    let c4 = pb;
    let c5 = db;
    let c6 = ib;
    crate::wire::lemma_chain7(p, c0, c1, c2, c3, c4, c5, c6, sfx);
    lemma_rd_enc_index_buffer(v.indices, p + c0 + c1 + c2 + c3 + c4 + c5, sfx, e, v.positions.len() as u64);
}

/// Chaining the field facts through the block reader.
#[verifier::spinoff_prover]
#[verifier::rlimit(100)]
proof fn lemma_skinned_block_assemble(
    v: SkinnedGeneralRenderBlockView,
    b: Seq<u8>,
    i0: int,
    e: Endian,
    m: Seq<u8>,
    pb: Seq<u8>,
    db: Seq<u8>,
    ib: Seq<u8>,
)
    requires
        v.wf(),
        rd_u8(b, i0) == Ok::<(u8, int), RenderBlockError>((3u8, i0 + 1)),
        rd_u32(b, i0 + 1, e) == Ok::<(u32, int), RenderBlockError>(
            (v.attributes.specular_power, i0 + 5),
        ),
        rd_u32(b, i0 + 5, e) == Ok::<(u32, int), RenderBlockError>((v.attributes.flags, i0 + 9)),
        rd_material(b, i0 + 9, e) == Ok::<(MaterialView, int), RenderBlockError>(
            (v.material, i0 + 9 + m.len()),
        ),
        rd_vertex_buffer::<SkinnedVertexPosition>(
            b,
            i0 + 9 + m.len(),
            e,
            skinned_eight_bones(v.attributes.flags),
        ) == Ok::<(Seq<SkinnedVertexPosition>, int), RenderBlockError>(
            (v.positions, i0 + 9 + m.len() + pb.len()),
        ),
        rd_vertex_buffer::<SkinnedVertexData>(b, i0 + 9 + m.len() + pb.len(), e, false) == Ok::<
            (Seq<SkinnedVertexData>, int),
            RenderBlockError,
        >((v.vertex_data, i0 + 9 + m.len() + pb.len() + db.len())),
        rd_index_buffer(
            b,
            i0 + 9 + m.len() + pb.len() + db.len(),
            e,
            v.positions.len() as u64,
        ) == Ok::<(Seq<u16>, int), RenderBlockError>(
            (v.indices, i0 + 9 + m.len() + pb.len() + db.len() + ib.len()),
        ),
    ensures
        rd_skinned_general_block(b, i0, e) == Ok::<
            (SkinnedGeneralRenderBlockView, int),
            RenderBlockError,
        >((v, i0 + 9 + m.len() + pb.len() + db.len() + ib.len())),
{
    reveal(rd_skinned_general_block);
    assert(v == (SkinnedGeneralRenderBlockView {
        attributes: SkinnedGeneralAttributes {
            specular_power: v.attributes.specular_power,
            flags: v.attributes.flags,
        },
        material: v.material,
        positions: v.positions,
        vertex_data: v.vertex_data,
        indices: v.indices,
    }));
}

/// Decoding an encoded skinned block yields it back.
#[verifier::spinoff_prover]
#[verifier::rlimit(100)]
pub proof fn lemma_rd_enc_skinned_general_block(
    v: SkinnedGeneralRenderBlockView,
    p: Seq<u8>,
    sfx: Seq<u8>,
    e: Endian,
)
    requires
        v.wf(),
    ensures
        enc_skinned_general_block(e, v) matches Ok(bytes) && rd_skinned_general_block(
            p + bytes + sfx,
            p.len() as int,
            e,
        ) == Ok::<(SkinnedGeneralRenderBlockView, int), RenderBlockError>(
            (v, (p.len() + bytes.len()) as int),
        ),
{
    crate::material::lemma_enc_material_ok(v.material, e);
    crate::buffers::lemma_check_indices_all_ok(v.indices, v.positions.len() as u64, 0);
    let m = enc_material(e, v.material)->Ok_0;
    let pb = enc_vertex_buffer::<SkinnedVertexPosition>(
        v.positions,
        e,
        skinned_eight_bones(v.attributes.flags),
    )->Ok_0;
    let db = enc_vertex_buffer::<SkinnedVertexData>(v.vertex_data, e, false)->Ok_0;
    let ib = enc_index_buffer(v.indices, e, v.positions.len() as u64)->Ok_0;
    let bytes = enc_u8(3u8) + enc_u32(e, v.attributes.specular_power) + enc_u32(
        e,
        v.attributes.flags,
    ) + m + pb + db + ib;
    assert(enc_skinned_general_block(e, v) == Ok::<Seq<u8>, RenderBlockError>(bytes));
    let b = p + bytes + sfx;
    lemma_skinned_fact_tag(v, p, sfx, e, m, pb, db, ib, b);
    lemma_skinned_fact_specular(v, p, sfx, e, m, pb, db, ib, b);
    lemma_skinned_fact_flags(v, p, sfx, e, m, pb, db, ib, b);
    lemma_skinned_fact_material(v, p, sfx, e, m, pb, db, ib, b);
    lemma_skinned_fact_positions(v, p, sfx, e, m, pb, db, ib, b);
    lemma_skinned_fact_vertex_data(v, p, sfx, e, m, pb, db, ib, b);
    lemma_skinned_fact_indices(v, p, sfx, e, m, pb, db, ib, b);
    lemma_skinned_block_assemble(v, b, p.len() as int, e, m, pb, db, ib);
}

} // verus!
