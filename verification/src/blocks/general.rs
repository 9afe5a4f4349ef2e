use vstd::prelude::*;
use crate::buffers::{enc_index_buffer, enc_vertex_buffer, lemma_rd_enc_index_buffer,
    lemma_rd_enc_vertex_buffer, rd_index_buffer, rd_vertex_buffer, read_index_buffer,
    read_vertex_buffer, write_index_buffer, write_vertex_buffer, IndexBuffer, Vertex,
    VertexBuffer};
use crate::errors::RenderBlockError;
use crate::formats::general::GeneralVertex;
use crate::material::{enc_material, rd_material, read_material, write_material, Material,
    MaterialView};
use crate::math::{Vec2, Vec4};
use crate::vertex::VertexFormat;
use crate::wire::{agrees, emits, enc_u32, enc_u8, enc_vec2, enc_vec4, lemma_rd_enc_u32,
    lemma_rd_enc_u8, lemma_rd_enc_vec2, lemma_rd_enc_vec4, rd_u32, rd_u8, rd_vec2, rd_vec4,
    read_u32, read_u8, read_vec2, read_vec4, write_u32, write_u8, write_vec2, write_vec4, Endian};

verus! {



// Render flags of a general block, one independent bit each.
pub const GENERAL_NO_CULLING: u32 = 1u32 << 0;

pub const GENERAL_ALPHA_BLENDING: u32 = 1u32 << 1;

pub const GENERAL_ADDITIVE_ALPHA: u32 = 1u32 << 2;

pub const GENERAL_USE_PALETTE: u32 = 1u32 << 3;

pub const GENERAL_USE_SUB_SURFACE_SCATTERING: u32 = 1u32 << 4;

pub const GENERAL_USE_CHANNEL_TEXTURES: u32 = 1u32 << 5;

pub const GENERAL_USE_SNOW_FLAG: u32 = 1u32 << 6;

pub const GENERAL_ANIMATE_TEXTURE: u32 = 1u32 << 7;

pub const GENERAL_ALPHA_TEST: u32 = 1u32 << 8;

pub const GENERAL_USE_AMBIENT_OCCLUSION: u32 = 1u32 << 9;

pub const GENERAL_NO_DEPTH_TEST: u32 = 1u32 << 10;

/// The two supported attribute layouts of a general block; the later one
/// adds the second texture channel's extent.
#[derive(Clone, Copy, PartialEq, Eq, Structural, Debug)]
pub enum GeneralVersion {
    V2,
    V3,
}

pub open spec fn general_version_tag(v: GeneralVersion) -> u8 {
    match v {
        GeneralVersion::V2 => 2,
        GeneralVersion::V3 => 3,
    }
}

pub open spec fn general_version_of_tag(t: u8) -> Option<GeneralVersion> {
    if t == 2 {
        Some(GeneralVersion::V2)
    } else if t == 3 {
        Some(GeneralVersion::V3)
    } else {
        None
    }
}

pub open spec fn vertex_format_tag(f: VertexFormat) -> u8 {
    match f {
        VertexFormat::Simple => 0,
        VertexFormat::General => 1,
        VertexFormat::Skinned => 2,
        VertexFormat::Deformable => 3,
    }
}

pub open spec fn vertex_format_of_tag(t: u8) -> Option<VertexFormat> {
    if t == 0 {
        Some(VertexFormat::Simple)
    } else if t == 1 {
        Some(VertexFormat::General)
    } else if t == 2 {
        Some(VertexFormat::Skinned)
    } else if t == 3 {
        Some(VertexFormat::Deformable)
    } else {
        None
    }
}

/// How a general block's vertices are laid out and scaled. Under the
/// earlier attribute version the wire omits the second extent, which then
/// stays at zero in memory.
#[derive(Clone, Copy, PartialEq, Eq, Structural, Debug)]
pub struct VertexInfo {
    pub format: VertexFormat,
    pub scale: u32,
    pub uv0_extent: Vec2<u32>,
    pub uv1_extent: Vec2<u32>,
}

/// The attribute body of a general block. Everything but `vertex_info` is
/// fixed-size and version-independent.
#[derive(Clone, Copy, PartialEq, Eq, Structural, Debug)]
pub struct GeneralAttributes {
    pub channel_mask: Vec4<u32>,
    pub channel_ambient_occlusion_mask: Vec4<u32>,
    pub depth_bias: u32,
    pub specular_power: u32,
    pub vertex_info: VertexInfo,
    pub flags: u32,
}

#[verifier::opaque]
pub open spec fn enc_vertex_info(e: Endian, v: VertexInfo, has_uv1: bool) -> Seq<u8> {
    if has_uv1 {
        enc_u8(vertex_format_tag(v.format)) + enc_u32(e, v.scale) + enc_vec2(e, v.uv0_extent)
            + enc_vec2(e, v.uv1_extent)
    } else {
        enc_u8(vertex_format_tag(v.format)) + enc_u32(e, v.scale) + enc_vec2(e, v.uv0_extent)
    }
}

#[verifier::opaque]
pub open spec fn rd_vertex_info(b: Seq<u8>, i: int, e: Endian, has_uv1: bool) -> Result<
    (VertexInfo, int),
    RenderBlockError,
> {
    match rd_u8(b, i) {
        Ok((tag, i1)) => match vertex_format_of_tag(tag) {
            Some(format) => match rd_u32(b, i1, e) {
                Ok((scale, i2)) => match rd_vec2(b, i2, e) {
                    Ok((uv0_extent, i3)) => if has_uv1 {
                        match rd_vec2(b, i3, e) {
                            Ok((uv1_extent, i4)) => Ok(
                                (VertexInfo { format, scale, uv0_extent, uv1_extent }, i4),
                            ),
                            Err(er) => Err(er),
                        }
                    } else {
                        Ok(
                            (
                                VertexInfo {
                                    format,
                                    scale,
                                    uv0_extent,
                                    uv1_extent: Vec2 { x: 0, y: 0 },
                                },
                                i3,
                            ),
                        )
                    },
                    Err(er) => Err(er),
                },
                Err(er) => Err(er),
            },
            None => Err(RenderBlockError::UnsupportedVertexFormat { tag }),
        },
        Err(er) => Err(er),
    }
}

#[verifier::opaque]
pub open spec fn enc_general_attributes(e: Endian, a: GeneralAttributes, v: GeneralVersion) -> Seq<
    u8,
> {
    enc_vec4(e, a.channel_mask) + enc_vec4(e, a.channel_ambient_occlusion_mask) + enc_u32(
        e,
        a.depth_bias,
    ) + enc_u32(e, a.specular_power) + enc_vertex_info(e, a.vertex_info, v == GeneralVersion::V3)
        + enc_u32(e, a.flags)
}

#[verifier::opaque]
pub open spec fn rd_general_attributes(b: Seq<u8>, i: int, e: Endian, v: GeneralVersion) -> Result<
    (GeneralAttributes, int),
    RenderBlockError,
> {
    match rd_vec4(b, i, e) {
        Ok((channel_mask, i1)) => match rd_vec4(b, i1, e) {
            Ok((channel_ambient_occlusion_mask, i2)) => match rd_u32(b, i2, e) {
                Ok((depth_bias, i3)) => match rd_u32(b, i3, e) {
                    Ok((specular_power, i4)) => match rd_vertex_info(
                        b,
                        i4,
                        e,
                        v == GeneralVersion::V3,
                    ) {
                        Ok((vertex_info, i5)) => match rd_u32(b, i5, e) {
                            Ok((flags, i6)) => Ok(
                                (
                                    GeneralAttributes {
                                        channel_mask,
                                        channel_ambient_occlusion_mask,
                                        depth_bias,
                                        specular_power,
                                        vertex_info,
                                        flags,
                                    },
                                    i6,
                                ),
                            ),
                            Err(er) => Err(er),
                        },
                        Err(er) => Err(er),
                    },
                    Err(er) => Err(er),
                },
                Err(er) => Err(er),
            },
            Err(er) => Err(er),
        },
        Err(er) => Err(er),
    }
}

/// A general render block: the version-tagged attributes, the material, a
/// buffer of general vertices and a bounds-checked index buffer.
#[derive(Clone, Debug, PartialEq, Eq)]
pub struct GeneralRenderBlock {
    pub version: GeneralVersion,
    pub attributes: GeneralAttributes,
    pub material: Material,
    pub vertices: VertexBuffer<GeneralVertex>,
    pub indices: IndexBuffer,
}

pub struct GeneralRenderBlockView {
    pub version: GeneralVersion,
    pub attributes: GeneralAttributes,
    pub material: MaterialView,
    pub vertices: Seq<GeneralVertex>,
    pub indices: Seq<u16>,
}

impl View for GeneralRenderBlock {
    type V = GeneralRenderBlockView;

    open spec fn view(&self) -> GeneralRenderBlockView {
        GeneralRenderBlockView {
            version: self.version,
            attributes: self.attributes,
            material: self.material@,
            vertices: self.vertices@,
            indices: self.indices@,
        }
    }
}

impl GeneralRenderBlockView {
    /// What the wire format can carry back unchanged: the declared layout
    /// is the general one, the earlier version carries no second extent,
    /// the material is sound, the buffers fit their count fields, and
    /// every index is below the vertex count.
    pub open spec fn wf(self) -> bool {
        &&& self.attributes.vertex_info.format == VertexFormat::General
        &&& (self.version == GeneralVersion::V2 ==> self.attributes.vertex_info.uv1_extent == (
        Vec2 { x: 0u32, y: 0u32 }))
        &&& self.material.wf()
        &&& self.vertices.len() <= 0xFFFFFFFF
        &&& self.indices.len() <= 0xFFFFFFFF
        &&& forall|k: int|
            0 <= k < self.indices.len() ==> (#[trigger] self.indices[k] as u64) < (
            self.vertices.len() as u64)
    }
}

/// A general block's body: version tag, attributes, material, vertices,
/// then indices bounded by the vertex count just read.
#[verifier::opaque]
pub open spec fn rd_general_block(b: Seq<u8>, i: int, e: Endian) -> Result<
    (GeneralRenderBlockView, int),
    RenderBlockError,
> {
    match rd_u8(b, i) {
        Ok((tag, i1)) => match general_version_of_tag(tag) {
            Some(version) => match rd_general_attributes(b, i1, e, version) {
                Ok((attributes, i2)) => if attributes.vertex_info.format != VertexFormat::General {
                    Err(
                        RenderBlockError::InvalidVertexFormat {
                            expected: VertexFormat::General,
                            found: attributes.vertex_info.format,
                        },
                    )
                } else {
                    match rd_material(b, i2, e) {
                        Ok((material, i3)) => match rd_vertex_buffer::<GeneralVertex>(
                            b,
                            i3,
                            e,
                            false,
                        ) {
                            Ok((vertices, i4)) => match rd_index_buffer(
                                b,
                                i4,
                                e,
                                vertices.len() as u64,
                            ) {
                                Ok((indices, i5)) => Ok(
                                    (
                                        GeneralRenderBlockView {
                                            version,
                                            attributes,
                                            material,
                                            vertices,
                                            indices,
                                        },
                                        i5,
                                    ),
                                ),
                                Err(er) => Err(er),
                            },
                            Err(er) => Err(er),
                        },
                        Err(er) => Err(er),
                    }
                },
                Err(er) => Err(er),
            },
            None => Err(RenderBlockError::UnsupportedBlockVersion { tag }),
        },
        Err(er) => Err(er),
    }
}

pub open spec fn enc_general_block(e: Endian, v: GeneralRenderBlockView) -> Result<
    Seq<u8>,
    RenderBlockError,
> {
    match enc_material(e, v.material) {
        Ok(m) => match enc_vertex_buffer::<GeneralVertex>(v.vertices, e, false) {
            Ok(vb) => match enc_index_buffer(v.indices, e, v.vertices.len() as u64) {
                Ok(ib) => Ok(
                    enc_u8(general_version_tag(v.version)) + enc_general_attributes(
                        e,
                        v.attributes,
                        v.version,
                    ) + m + vb + ib,
                ),
                Err(er) => Err(er),
            },
            Err(er) => Err(er),
        },
        Err(er) => Err(er),
    }
}

pub fn read_general_block(b: &Vec<u8>, i: usize, e: Endian) -> (r: Result<
    (GeneralRenderBlock, usize),
    RenderBlockError,
>)
    requires
        i <= b@.len(),
    ensures
        (match r {
            Ok((v, j)) => rd_general_block(b@, i as int, e) == Ok::<
                (GeneralRenderBlockView, int),
                RenderBlockError,
            >((v@, j as int)) && i <= j <= b@.len(),
            Err(er) => rd_general_block(b@, i as int, e) == Err::<
                (GeneralRenderBlockView, int),
                RenderBlockError,
            >(er),
        }),
{
    proof {
        reveal(rd_general_block);
    }
    let (tag, i1) = match read_u8(b, i) {
        Ok(p) => p,
        Err(er) => { return Err(er) },
    };
    let version = if tag == 2 {
        GeneralVersion::V2
    } else if tag == 3 {
        GeneralVersion::V3
    } else {
        return Err(RenderBlockError::UnsupportedBlockVersion { tag });
    };
    let (attributes, i2) = match read_general_attributes(b, i1, e, version) {
        Ok(p) => p,
        Err(er) => { return Err(er) },
    };
    if !matches!(attributes.vertex_info.format, VertexFormat::General) {
        return Err(
            RenderBlockError::InvalidVertexFormat {
                expected: VertexFormat::General,
                found: attributes.vertex_info.format,
            },
        );
    }
    let (material, i3) = match read_material(b, i2, e) {
        Ok(p) => p,
        Err(er) => { return Err(er) },
    };
    let (vertices, i4) = match read_vertex_buffer::<GeneralVertex>(b, i3, e, false) {
        Ok(p) => p,
        Err(er) => { return Err(er) },
    };
    let (indices, i5) = match read_index_buffer(b, i4, e, vertices.0.len() as u64) {
        Ok(p) => p,
        Err(er) => { return Err(er) },
    };
    Ok((GeneralRenderBlock { version, attributes, material, vertices, indices }, i5))
}

pub fn write_general_block(out: &mut Vec<u8>, v: &GeneralRenderBlock, e: Endian) -> (r: Result<
    (),
    RenderBlockError,
>)
    ensures
        emits(r, final(out)@, old(out)@, enc_general_block(e, v@)),
{
    write_u8(
        out,
        match v.version {
            GeneralVersion::V2 => 2,
            GeneralVersion::V3 => 3,
        },
    );
    write_general_attributes(out, &v.attributes, e, v.version);
    match write_material(out, &v.material, e) {
        Ok(u) => {},
        Err(er) => { return Err(er) },
    }
    match write_vertex_buffer::<GeneralVertex>(out, &v.vertices, e, false) {
        Ok(u) => {},
        Err(er) => { return Err(er) },
    }
    match write_index_buffer(out, &v.indices, e, v.vertices.0.len() as u64) {
        Ok(u) => {},
        Err(er) => { return Err(er) },
    }
    proof {
        let t = enc_u8(general_version_tag(v@.version));
        let a = enc_general_attributes(e, v@.attributes, v@.version);
        let m = enc_material(e, v@.material)->Ok_0;
        let vb = enc_vertex_buffer::<GeneralVertex>(v@.vertices, e, false)->Ok_0;
        let ib = enc_index_buffer(v@.indices, e, v@.vertices.len() as u64)->Ok_0;
        assert(out@ =~= old(out)@ + (t + a + m + vb + ib));
    }
    Ok(())
}

fn read_vertex_info(b: &Vec<u8>, i: usize, e: Endian, has_uv1: bool) -> (r: Result<
    (VertexInfo, usize),
    RenderBlockError,
>)
    requires
        i <= b@.len(),
    ensures
        agrees(r, rd_vertex_info(b@, i as int, e, has_uv1)),
        r matches Ok((v, j)) ==> i <= j <= b@.len(),
{
    proof {
        reveal(rd_vertex_info);
    }
    let (tag, i1) = match read_u8(b, i) {
        Ok(p) => p,
        Err(er) => { return Err(er) },
    };
    let format = if tag == 0 {
        VertexFormat::Simple
    } else if tag == 1 {
        VertexFormat::General
    } else if tag == 2 {
        VertexFormat::Skinned
    } else if tag == 3 {
        VertexFormat::Deformable
    } else {
        return Err(RenderBlockError::UnsupportedVertexFormat { tag });
    };
    let (scale, i2) = match read_u32(b, i1, e) {
        Ok(p) => p,
        Err(er) => { return Err(er) },
    };
    let (uv0_extent, i3) = match read_vec2(b, i2, e) {
        Ok(p) => p,
        Err(er) => { return Err(er) },
    };
    if has_uv1 {
        let (uv1_extent, i4) = match read_vec2(b, i3, e) {
            Ok(p) => p,
            Err(er) => { return Err(er) },
        };
        Ok((VertexInfo { format, scale, uv0_extent, uv1_extent }, i4))
    } else {
        Ok((VertexInfo { format, scale, uv0_extent, uv1_extent: Vec2 { x: 0, y: 0 } }, i3))
    }
}

fn write_vertex_info(out: &mut Vec<u8>, v: &VertexInfo, e: Endian, has_uv1: bool)
    ensures
        final(out)@ == old(out)@ + enc_vertex_info(e, *v, has_uv1),
{
    proof {
        reveal(enc_vertex_info);
    }
    write_u8(
        out,
        match v.format {
            VertexFormat::Simple => 0,
            VertexFormat::General => 1,
            VertexFormat::Skinned => 2,
            VertexFormat::Deformable => 3,
        },
    );
    write_u32(out, e, v.scale);
    write_vec2(out, e, v.uv0_extent);
    if has_uv1 {
        write_vec2(out, e, v.uv1_extent);
    }
    assert(out@ =~= old(out)@ + enc_vertex_info(e, *v, has_uv1));
}

fn read_general_attributes(b: &Vec<u8>, i: usize, e: Endian, v: GeneralVersion) -> (r: Result<
    (GeneralAttributes, usize),
    RenderBlockError,
>)
    requires
        i <= b@.len(),
    ensures
        agrees(r, rd_general_attributes(b@, i as int, e, v)),
        r matches Ok((a, j)) ==> i <= j <= b@.len(),
{
    proof {
        reveal(rd_general_attributes);
    }
    let (channel_mask, i1) = match read_vec4(b, i, e) {
        Ok(p) => p,
        Err(er) => { return Err(er) },
    };
    let (channel_ambient_occlusion_mask, i2) = match read_vec4(b, i1, e) {
        Ok(p) => p,
        Err(er) => { return Err(er) },
    };
    let (depth_bias, i3) = match read_u32(b, i2, e) {
        Ok(p) => p,
        Err(er) => { return Err(er) },
    };
    let (specular_power, i4) = match read_u32(b, i3, e) {
        Ok(p) => p,
        Err(er) => { return Err(er) },
    };
    let (vertex_info, i5) = match read_vertex_info(
        b,
        i4,
        e,
        matches!(v, GeneralVersion::V3),
    ) {
        Ok(p) => p,
        Err(er) => { return Err(er) },
    };
    let (flags, i6) = match read_u32(b, i5, e) {
        Ok(p) => p,
        Err(er) => { return Err(er) },
    };
    Ok(
        (
            GeneralAttributes {
                channel_mask,
                channel_ambient_occlusion_mask,
                depth_bias,
                specular_power,
                vertex_info,
                flags,
            },
            i6,
        ),
    )
}

fn write_general_attributes(out: &mut Vec<u8>, a: &GeneralAttributes, e: Endian, v: GeneralVersion)
    ensures
        final(out)@ == old(out)@ + enc_general_attributes(e, *a, v),
{
    proof {
        reveal(enc_general_attributes);
    }
    write_vec4(out, e, a.channel_mask);
    write_vec4(out, e, a.channel_ambient_occlusion_mask);
    write_u32(out, e, a.depth_bias);
    write_u32(out, e, a.specular_power);
    write_vertex_info(out, &a.vertex_info, e, matches!(v, GeneralVersion::V3));
    write_u32(out, e, a.flags);
    assert(out@ =~= old(out)@ + enc_general_attributes(e, *a, v));
}

/// Decoding an encoded vertex info yields it back; under the earlier
/// version the second extent must already be zero, since the wire has no
/// room for it.
pub proof fn lemma_rd_enc_vertex_info(v: VertexInfo, p: Seq<u8>, sfx: Seq<u8>, e: Endian, has_uv1:
    bool)
    requires
        !has_uv1 ==> v.uv1_extent == (Vec2 { x: 0u32, y: 0u32 }),
    ensures
        rd_vertex_info(p + enc_vertex_info(e, v, has_uv1) + sfx, p.len() as int, e, has_uv1)
            == Ok::<(VertexInfo, int), RenderBlockError>(
            (v, (p.len() + enc_vertex_info(e, v, has_uv1).len()) as int),
        ),
{
    if has_uv1 {
        lemma_rd_enc_vertex_info_wide(v, p, sfx, e);
    } else {
        lemma_rd_enc_vertex_info_narrow(v, p, sfx, e);
    }
}

#[verifier::spinoff_prover]
#[verifier::rlimit(100)]
proof fn lemma_rd_enc_vertex_info_wide(v: VertexInfo, p: Seq<u8>, sfx: Seq<u8>, e: Endian)
    ensures
        rd_vertex_info(p + enc_vertex_info(e, v, true) + sfx, p.len() as int, e, true) == Ok::<
            (VertexInfo, int),
            RenderBlockError,
        >((v, (p.len() + enc_vertex_info(e, v, true).len()) as int)),
{
    reveal(enc_vertex_info);
    reveal(rd_vertex_info);
    let e1 = enc_u8(vertex_format_tag(v.format));
    let e2 = enc_u32(e, v.scale);
    let e3 = enc_vec2(e, v.uv0_extent);
    let e4 = enc_vec2(e, v.uv1_extent);
    assert(e3.len() == 8);
    crate::wire::lemma_chain4(p, e1, e2, e3, e4, sfx);
    lemma_rd_enc_u8(p, e2 + (e3 + (e4 + sfx)), vertex_format_tag(v.format));
    lemma_rd_enc_u32(p + e1, e3 + (e4 + sfx), e, v.scale);
    lemma_rd_enc_vec2(p + e1 + e2, e4 + sfx, e, v.uv0_extent);
    lemma_rd_enc_vec2(p + e1 + e2 + e3, sfx, e, v.uv1_extent);
}

#[verifier::spinoff_prover]
#[verifier::rlimit(100)]
proof fn lemma_rd_enc_vertex_info_narrow(v: VertexInfo, p: Seq<u8>, sfx: Seq<u8>, e: Endian)
    requires
        v.uv1_extent == (Vec2 { x: 0u32, y: 0u32 }),
    ensures
        rd_vertex_info(p + enc_vertex_info(e, v, false) + sfx, p.len() as int, e, false) == Ok::<
            (VertexInfo, int),
            RenderBlockError,
        >((v, (p.len() + enc_vertex_info(e, v, false).len()) as int)),
{
    reveal(enc_vertex_info);
    reveal(rd_vertex_info);
    let e1 = enc_u8(vertex_format_tag(v.format));
    let e2 = enc_u32(e, v.scale);
    let e3 = enc_vec2(e, v.uv0_extent);
    crate::wire::lemma_chain3(p, e1, e2, e3, sfx);
    lemma_rd_enc_u8(p, e2 + (e3 + sfx), vertex_format_tag(v.format));
    lemma_rd_enc_u32(p + e1, e3 + sfx, e, v.scale);
    lemma_rd_enc_vec2(p + e1 + e2, sfx, e, v.uv0_extent);
}

/// One field's decode fact within encoded general attributes: the two
/// channel masks.
#[verifier::spinoff_prover]
#[verifier::rlimit(100)]
proof fn lemma_general_attrs_masks(
    a: GeneralAttributes,
    p: Seq<u8>,
    sfx: Seq<u8>,
    e: Endian,
    v: GeneralVersion,
)
    ensures
        rd_vec4(p + enc_general_attributes(e, a, v) + sfx, p.len() as int, e) == Ok::<
            (Vec4<u32>, int),
            RenderBlockError,
        >((a.channel_mask, p.len() as int + 16)),
        rd_vec4(p + enc_general_attributes(e, a, v) + sfx, p.len() as int + 16, e) == Ok::<
            (Vec4<u32>, int),
            RenderBlockError,
        >((a.channel_ambient_occlusion_mask, p.len() as int + 32)),
{
    reveal(enc_general_attributes);
    let e1 = enc_vec4(e, a.channel_mask);
    let e2 = enc_vec4(e, a.channel_ambient_occlusion_mask);
    let e3 = enc_u32(e, a.depth_bias);
    let e4 = enc_u32(e, a.specular_power);
    let e5 = enc_vertex_info(e, a.vertex_info, v == GeneralVersion::V3);
    let e6 = enc_u32(e, a.flags);
    assert(e1.len() == 16);
    assert(e2.len() == 16);
    crate::wire::lemma_chain6(p, e1, e2, e3, e4, e5, e6, sfx);
    lemma_rd_enc_vec4(p, e2 + (e3 + (e4 + (e5 + (e6 + sfx)))), e, a.channel_mask);
    lemma_rd_enc_vec4(p + e1, e3 + (e4 + (e5 + (e6 + sfx))), e, a.channel_ambient_occlusion_mask);
}

/// One field's decode fact within encoded general attributes: the two
/// scalar parameters.
#[verifier::spinoff_prover]
#[verifier::rlimit(100)]
proof fn lemma_general_attrs_scalars(
    a: GeneralAttributes,
    p: Seq<u8>,
    sfx: Seq<u8>,
    e: Endian,
    v: GeneralVersion,
)
    ensures
        rd_u32(p + enc_general_attributes(e, a, v) + sfx, p.len() as int + 32, e) == Ok::<
            (u32, int),
            RenderBlockError,
        >((a.depth_bias, p.len() as int + 36)),
        rd_u32(p + enc_general_attributes(e, a, v) + sfx, p.len() as int + 36, e) == Ok::<
            (u32, int),
            RenderBlockError,
        >((a.specular_power, p.len() as int + 40)),
{
    reveal(enc_general_attributes);
    let e1 = enc_vec4(e, a.channel_mask);
    let e2 = enc_vec4(e, a.channel_ambient_occlusion_mask);
    let e3 = enc_u32(e, a.depth_bias);
    let e4 = enc_u32(e, a.specular_power);
    let e5 = enc_vertex_info(e, a.vertex_info, v == GeneralVersion::V3);
    let e6 = enc_u32(e, a.flags);
    assert(e1.len() == 16);
    assert(e2.len() == 16);
    crate::wire::lemma_chain6(p, e1, e2, e3, e4, e5, e6, sfx);
    lemma_rd_enc_u32(p + e1 + e2, e4 + (e5 + (e6 + sfx)), e, a.depth_bias);
    lemma_rd_enc_u32(p + e1 + e2 + e3, e5 + (e6 + sfx), e, a.specular_power);
}

/// The vertex-info decode fact within encoded general attributes.
#[verifier::spinoff_prover]
#[verifier::rlimit(100)]
proof fn lemma_general_attrs_info(
    a: GeneralAttributes,
    p: Seq<u8>,
    sfx: Seq<u8>,
    e: Endian,
    v: GeneralVersion,
)
    requires
        v == GeneralVersion::V2 ==> a.vertex_info.uv1_extent == (Vec2 { x: 0u32, y: 0u32 }),
    ensures
        rd_vertex_info(
            p + enc_general_attributes(e, a, v) + sfx,
            p.len() as int + 40,
            e,
            v == GeneralVersion::V3,
        ) == Ok::<(VertexInfo, int), RenderBlockError>(
            (
                a.vertex_info,
                p.len() as int + 40 + enc_vertex_info(e, a.vertex_info, v == GeneralVersion::V3).len(),
            ),
        ),
{
    reveal(enc_general_attributes);
    let e1 = enc_vec4(e, a.channel_mask);
    let e2 = enc_vec4(e, a.channel_ambient_occlusion_mask);
    let e3 = enc_u32(e, a.depth_bias);
    let e4 = enc_u32(e, a.specular_power);
    let e5 = enc_vertex_info(e, a.vertex_info, v == GeneralVersion::V3);
    let e6 = enc_u32(e, a.flags);
    assert(e1.len() == 16);
    assert(e2.len() == 16);
    crate::wire::lemma_chain6(p, e1, e2, e3, e4, e5, e6, sfx);
    lemma_rd_enc_vertex_info(
        a.vertex_info,
        p + e1 + e2 + e3 + e4,
        e6 + sfx,
        e,
        v == GeneralVersion::V3,
    );
}

/// The trailing-flags decode fact within encoded general attributes.
#[verifier::spinoff_prover]
#[verifier::rlimit(100)]
proof fn lemma_general_attrs_flags(
    a: GeneralAttributes,
    p: Seq<u8>,
    sfx: Seq<u8>,
    e: Endian,
    v: GeneralVersion,
)
    ensures
        rd_u32(
            p + enc_general_attributes(e, a, v) + sfx,
            p.len() as int + 40 + enc_vertex_info(e, a.vertex_info, v == GeneralVersion::V3).len(),
            e,
        ) == Ok::<(u32, int), RenderBlockError>(
            (a.flags, (p.len() + enc_general_attributes(e, a, v).len()) as int),
        ),
{
    reveal(enc_general_attributes);
    let e1 = enc_vec4(e, a.channel_mask);
    let e2 = enc_vec4(e, a.channel_ambient_occlusion_mask);
    let e3 = enc_u32(e, a.depth_bias);
    let e4 = enc_u32(e, a.specular_power);
    let e5 = enc_vertex_info(e, a.vertex_info, v == GeneralVersion::V3);
    let e6 = enc_u32(e, a.flags);
    assert(e1.len() == 16);
    assert(e2.len() == 16);
    crate::wire::lemma_chain6(p, e1, e2, e3, e4, e5, e6, sfx);
    lemma_rd_enc_u32(p + e1 + e2 + e3 + e4 + e5, sfx, e, a.flags);
}

/// Decoding encoded general attributes yields them back.
#[verifier::spinoff_prover]
#[verifier::rlimit(100)]
pub proof fn lemma_rd_enc_general_attributes(
    a: GeneralAttributes,
    p: Seq<u8>,
    sfx: Seq<u8>,
    e: Endian,
    v: GeneralVersion,
)
    requires
        v == GeneralVersion::V2 ==> a.vertex_info.uv1_extent == (Vec2 { x: 0u32, y: 0u32 }),
    ensures
        rd_general_attributes(p + enc_general_attributes(e, a, v) + sfx, p.len() as int, e, v)
            == Ok::<(GeneralAttributes, int), RenderBlockError>(
            (a, (p.len() + enc_general_attributes(e, a, v).len()) as int),
        ),
{
    reveal(rd_general_attributes);
    lemma_general_attrs_masks(a, p, sfx, e, v);
    lemma_general_attrs_scalars(a, p, sfx, e, v);
    lemma_general_attrs_info(a, p, sfx, e, v);
    lemma_general_attrs_flags(a, p, sfx, e, v);
    assert(a == (GeneralAttributes {
        channel_mask: a.channel_mask,
        channel_ambient_occlusion_mask: a.channel_ambient_occlusion_mask,
        depth_bias: a.depth_bias,
        specular_power: a.specular_power,
        vertex_info: a.vertex_info,
        flags: a.flags,
    }));
}

/// Chaining the five field facts through the block reader.
#[verifier::spinoff_prover]
#[verifier::rlimit(100)]
proof fn lemma_general_block_assemble(
    v: GeneralRenderBlockView,
    b: Seq<u8>,
    i0: int,
    e: Endian,
    m: Seq<u8>,
    vb: Seq<u8>,
    ib: Seq<u8>,
)
    requires
        v.wf(),
        rd_u8(b, i0) == Ok::<(u8, int), RenderBlockError>(
            (general_version_tag(v.version), i0 + 1),
        ),
        rd_general_attributes(b, i0 + 1, e, v.version) == Ok::<
            (GeneralAttributes, int),
            RenderBlockError,
        >((v.attributes, i0 + 1 + enc_general_attributes(e, v.attributes, v.version).len())),
        rd_material(
            b,
            i0 + 1 + enc_general_attributes(e, v.attributes, v.version).len(),
            e,
        ) == Ok::<(MaterialView, int), RenderBlockError>(
            (
                v.material,
                i0 + 1 + enc_general_attributes(e, v.attributes, v.version).len() + m.len(),
            ),
        ),
        rd_vertex_buffer::<GeneralVertex>(
            b,
            i0 + 1 + enc_general_attributes(e, v.attributes, v.version).len() + m.len(),
            e,
            false,
        ) == Ok::<(Seq<GeneralVertex>, int), RenderBlockError>(
            (
                v.vertices,
                i0 + 1 + enc_general_attributes(e, v.attributes, v.version).len() + m.len()
                    + vb.len(),
            ),
        ),
        rd_index_buffer(
            b,
            i0 + 1 + enc_general_attributes(e, v.attributes, v.version).len() + m.len()
                + vb.len(),
            e,
            v.vertices.len() as u64,
        ) == Ok::<(Seq<u16>, int), RenderBlockError>(
            (
                v.indices,
                i0 + 1 + enc_general_attributes(e, v.attributes, v.version).len() + m.len()
                    + vb.len() + ib.len(),
            ),
        ),
    ensures
        rd_general_block(b, i0, e) == Ok::<(GeneralRenderBlockView, int), RenderBlockError>(
            (
                v,
                i0 + 1 + enc_general_attributes(e, v.attributes, v.version).len() + m.len()
                    + vb.len() + ib.len(),
            ),
        ),
{
    reveal(rd_general_block);
    assert(general_version_of_tag(general_version_tag(v.version)) == Some(v.version));
    assert(v == (GeneralRenderBlockView {
        version: v.version,
        attributes: v.attributes,
        material: v.material,
        vertices: v.vertices,
        indices: v.indices,
    }));
}

/// Decoding an encoded general block yields it back.
#[verifier::spinoff_prover]
#[verifier::rlimit(100)]
pub proof fn lemma_rd_enc_general_block(v: GeneralRenderBlockView, p: Seq<u8>, sfx: Seq<u8>, e:
    Endian)
    requires
        v.wf(),
    ensures
        enc_general_block(e, v) matches Ok(bytes) && rd_general_block(
            p + bytes + sfx,
            p.len() as int,
            e,
        ) == Ok::<(GeneralRenderBlockView, int), RenderBlockError>(
            (v, (p.len() + bytes.len()) as int),
        ),
{
    crate::material::lemma_enc_material_ok(v.material, e);
    crate::formats::general::lemma_general_vertices_wf(v.vertices, false);
    crate::buffers::lemma_check_indices_all_ok(v.indices, v.vertices.len() as u64, 0);
    let e1 = enc_u8(general_version_tag(v.version));
    let e2 = enc_general_attributes(e, v.attributes, v.version);
    let m = enc_material(e, v.material)->Ok_0;
    let vb = enc_vertex_buffer::<GeneralVertex>(v.vertices, e, false)->Ok_0;
    let ib = enc_index_buffer(v.indices, e, v.vertices.len() as u64)->Ok_0;
    let bytes = e1 + e2 + m + vb + ib;
    assert(enc_general_block(e, v) == Ok::<Seq<u8>, RenderBlockError>(bytes));
    let b = p + bytes + sfx;
    crate::wire::lemma_chain5(p, e1, e2, m, vb, ib, sfx);
    lemma_rd_enc_u8(p, e2 + (m + (vb + (ib + sfx))), general_version_tag(v.version));
    lemma_rd_enc_general_attributes(v.attributes, p + e1, m + (vb + (ib + sfx)), e, v.version);
    crate::material::lemma_rd_enc_material(v.material, p + e1 + e2, vb + (ib + sfx), e);
    lemma_rd_enc_vertex_buffer::<GeneralVertex>(v.vertices, p + e1 + e2 + m, ib + sfx, e, false);
    lemma_rd_enc_index_buffer(v.indices, p + e1 + e2 + m + vb, sfx, e, v.vertices.len() as u64);
    lemma_general_block_assemble(v, b, p.len() as int, e, m, vb, ib);
}

} // verus!
