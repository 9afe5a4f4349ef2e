use rbm::blocks::dispatch::RenderBlock;
use rbm::blocks::general::{GeneralAttributes, GeneralRenderBlock, GeneralVersion, VertexInfo};
use rbm::buffers::{IndexBuffer, VertexBuffer};
use rbm::container::RenderBlockModel;
use rbm::errors::RenderBlockError;
use rbm::formats::general::GeneralVertex;
use rbm::material::{Material, MeshMode, PrimitiveType};
use rbm::math::{Vec2, Vec3, Vec4};
use rbm::vertex::VertexFormat;
use rbm::wire::Endian;

fn sample_vertex(seed: u32) -> GeneralVertex {
    GeneralVertex {
        position: Vec3::new(seed, seed + 1, seed + 2),
        uv0: Vec2::new(seed + 3, seed + 4),
        uv1: Vec2::new(seed + 5, seed + 6),
        normal: Vec3::new(seed + 7, seed + 8, seed + 9),
        tangent: Vec3::new(seed + 10, seed + 11, seed + 12),
        color: Vec4::new(seed + 13, seed + 14, seed + 15, seed + 16),
    }
}

fn sample_material() -> Material {
    let mut textures: Vec<Vec<u8>> = Vec::new();
    textures.push(b"diffuse.dds".to_vec());
    textures.push(b"normal.dds".to_vec());
    for _ in 2..8 {
        textures.push(Vec::new());
    }
    Material { primitive_type: PrimitiveType::IndexedTriangleList, textures }
}

fn sample_general_block(indices: Vec<u16>) -> GeneralRenderBlock {
    let vertices = vec![
        sample_vertex(100),
        sample_vertex(200),
        sample_vertex(300),
        sample_vertex(400),
    ];
    GeneralRenderBlock {
        version: GeneralVersion::V3,
        attributes: GeneralAttributes {
            channel_mask: Vec4::splat(0x3F800000),
            channel_ambient_occlusion_mask: Vec4::splat(0),
            depth_bias: 0,
            specular_power: 0x41200000,
            vertex_info: VertexInfo {
                format: VertexFormat::General,
                scale: 0x3F800000,
                uv0_extent: Vec2::new(0x3F800000, 0x3F800000),
                uv1_extent: Vec2::new(0x3F800000, 0x3F800000),
            },
            flags: 0,
        },
        material: sample_material(),
        vertices: VertexBuffer(vertices),
        indices: IndexBuffer(indices),
    }
}

fn sample_model(e: Endian) -> RenderBlockModel {
    RenderBlockModel {
        endian: e,
        version: Vec3::new(1, 13, 0),
        min: Vec3::new(0xBF800000, 0xBF800000, 0xBF800000),
        max: Vec3::new(0x3F800000, 0x3F800000, 0x3F800000),
        blocks: vec![RenderBlock::General(sample_general_block(vec![0, 1, 2, 2, 1, 3]))],
    }
}

#[test]
fn round_trip_one_general_block() {
    let model = sample_model(Endian::Little);
    let bytes = model.encode().expect("encoding a sound model succeeds");
    let back = RenderBlockModel::decode(&bytes).expect("decoding its own encoding succeeds");
    assert_eq!(back, model);
    match &back.blocks[0] {
        RenderBlock::General(g) => {
            assert_eq!(g.vertices.0.len(), 4);
            assert_eq!(g.indices.0.len(), 6);
            assert!(g.indices.0.iter().all(|&i| i < 4));
        }
        _ => panic!("expected a general block"),
    }
    assert_eq!(back.blocks.len(), 1);
    let again = back.encode().expect("re-encoding succeeds");
    assert_eq!(again, bytes);
}

#[test]
fn endianness_symmetry() {
    let little = sample_model(Endian::Little);
    let big = sample_model(Endian::Big);
    let bl = little.encode().unwrap();
    let bb = big.encode().unwrap();
    assert_ne!(bl, bb);
    let dl = RenderBlockModel::decode(&bl).unwrap();
    let db = RenderBlockModel::decode(&bb).unwrap();
    assert_eq!(dl, little);
    assert_eq!(db, big);
    assert_eq!(dl.version, db.version);
    assert_eq!(dl.min, db.min);
    assert_eq!(dl.max, db.max);
    assert_eq!(dl.blocks, db.blocks);
}

#[test]
fn bad_marker_is_malformed_header() {
    let bytes = vec![1u8, 2, 3, 4, 82, 66, 77, 68, 76, 0, 0, 0, 0];
    assert_eq!(
        RenderBlockModel::decode(&bytes),
        Err(RenderBlockError::MalformedHeader)
    );
}

#[test]
fn bad_magic_is_malformed_header() {
    let bytes = vec![5u8, 0, 0, 0, 82, 66, 77, 68, 77, 0, 0, 0, 0];
    assert_eq!(
        RenderBlockModel::decode(&bytes),
        Err(RenderBlockError::MalformedHeader)
    );
}

#[test]
fn truncated_header() {
    let bytes = vec![5u8, 0, 0];
    assert_eq!(
        RenderBlockModel::decode(&bytes),
        Err(RenderBlockError::Truncated)
    );
}

#[test]
fn wrong_version_is_rejected_on_decode() {
    let mut model = sample_model(Endian::Little);
    model.version = Vec3::new(1, 13, 7);
    let mut bytes = model.encode().unwrap();
    // Rewrite the minor version field in place: bytes 13..17 hold it.
    bytes[13] = 9;
    let r = RenderBlockModel::decode(&bytes);
    assert_eq!(
        r,
        Err(RenderBlockError::UnsupportedVersion {
            major: 1,
            minor: 9,
            patch: 7,
        })
    );
}

#[test]
fn wrong_version_is_rejected_on_encode() {
    let mut model = sample_model(Endian::Little);
    model.version = Vec3::new(2, 0, 0);
    assert_eq!(
        model.encode(),
        Err(RenderBlockError::UnsupportedVersion {
            major: 2,
            minor: 0,
            patch: 0,
        })
    );
}

#[test]
fn unknown_block_kind_tag() {
    let model = sample_model(Endian::Little);
    let mut bytes = model.encode().unwrap();
    // The first block's kind tag sits right after the 49-byte header.
    bytes[49] = 9;
    assert_eq!(
        RenderBlockModel::decode(&bytes),
        Err(RenderBlockError::UnsupportedBlock { tag: 9 })
    );
}

#[test]
fn unknown_general_version_tag() {
    let model = sample_model(Endian::Little);
    let mut bytes = model.encode().unwrap();
    // The general block's attribute version tag follows the kind tag.
    bytes[50] = 7;
    assert_eq!(
        RenderBlockModel::decode(&bytes),
        Err(RenderBlockError::UnsupportedBlockVersion { tag: 7 })
    );
}

#[test]
fn index_out_of_bounds_on_encode() {
    let mut model = sample_model(Endian::Little);
    model.blocks = vec![RenderBlock::General(sample_general_block(vec![0, 1, 4, 2, 1, 3]))];
    assert_eq!(
        model.encode(),
        Err(RenderBlockError::IndexOutOfBounds {
            index: 4,
            position: 2,
            bound: 4,
        })
    );
}

#[test]
fn index_out_of_bounds_on_decode() {
    let model = sample_model(Endian::Little);
    let bytes = model.encode().unwrap();
    // The last two bytes hold the final index (value 3); raise it to the
    // vertex count.
    let n = bytes.len();
    let mut bad = bytes.clone();
    bad[n - 2] = 4;
    bad[n - 1] = 0;
    assert_eq!(
        RenderBlockModel::decode(&bad),
        Err(RenderBlockError::IndexOutOfBounds {
            index: 4,
            position: 5,
            bound: 4,
        })
    );
}

#[test]
fn wrong_texture_slot_count_on_encode() {
    let mut model = sample_model(Endian::Little);
    match &mut model.blocks[0] {
        RenderBlock::General(g) => {
            g.material.textures.pop();
        }
        _ => unreachable!(),
    }
    assert_eq!(model.encode(), Err(RenderBlockError::InvalidArrayLength));
}

#[test]
fn declared_format_must_match_on_decode() {
    let mut model = sample_model(Endian::Little);
    match &mut model.blocks[0] {
        RenderBlock::General(g) => {
            g.attributes.vertex_info.format = VertexFormat::Simple;
        }
        _ => unreachable!(),
    }
    let bytes = model.encode().unwrap();
    assert_eq!(
        RenderBlockModel::decode(&bytes),
        Err(RenderBlockError::InvalidVertexFormat {
            expected: VertexFormat::General,
            found: VertexFormat::Simple,
        })
    );
}

#[test]
fn unknown_primitive_tag() {
    let model = sample_model(Endian::Little);
    let mut bytes = model.encode().unwrap();
    // The material's primitive tag follows the 29-byte V3 attribute body
    // and the two leading tags: header 49 + 2 + 65.
    bytes[116] = 9;
    assert_eq!(
        RenderBlockModel::decode(&bytes),
        Err(RenderBlockError::UnsupportedPrimitive { tag: 9 })
    );
}

#[test]
fn v2_block_omits_second_extent() {
    let mut model = sample_model(Endian::Little);
    match &mut model.blocks[0] {
        RenderBlock::General(g) => {
            g.version = GeneralVersion::V2;
            g.attributes.vertex_info.uv1_extent = Vec2::new(0, 0);
        }
        _ => unreachable!(),
    }
    let v3_len = sample_model(Endian::Little).encode().unwrap().len();
    let bytes = model.encode().unwrap();
    assert_eq!(bytes.len() + 8, v3_len);
    let back = RenderBlockModel::decode(&bytes).unwrap();
    assert_eq!(back, model);
}

#[test]
fn empty_model_round_trips() {
    let model = RenderBlockModel {
        endian: Endian::Big,
        version: Vec3::new(1, 13, 4),
        min: Vec3::splat(0),
        max: Vec3::splat(0),
        blocks: Vec::new(),
    };
    let bytes = model.encode().unwrap();
    assert_eq!(bytes.len(), 49);
    let back = RenderBlockModel::decode(&bytes).unwrap();
    assert_eq!(back, model);
}

#[test]
fn block_getters() {
    let block = RenderBlock::General(sample_general_block(vec![0, 1, 2]));
    assert_eq!(block.vertex_count(), 4);
    assert_eq!(block.index_count(), 3);
    assert_eq!(block.vertex_stride(), 68);
    assert_eq!(block.index_stride(), 2);
    assert_eq!(block.mesh_mode(), MeshMode::Triangles);
    assert_eq!(block.textures()[0], b"diffuse.dds".to_vec());
}
