use rbm::blocks::carpaint::{CarPaintAttributes, CarPaintRenderBlock};
use rbm::blocks::carpaint_simple::{CarPaintSimpleAttributes, CarPaintSimpleRenderBlock};
use rbm::blocks::dispatch::RenderBlock;
use rbm::blocks::lambert::{LambertAttributes, LambertRenderBlock};
use rbm::blocks::skinned_general::{SkinnedGeneralAttributes, SkinnedGeneralRenderBlock,
    SKINNED_EIGHT_BONES};
use rbm::buffers::{IndexBuffer, VertexBuffer};
use rbm::container::RenderBlockModel;
use rbm::formats::deformable::DeformableVertex;
use rbm::formats::simple::SimpleVertex;
use rbm::formats::skinned::{SkinnedVertexData, SkinnedVertexPosition};
use rbm::material::{Material, PrimitiveType, Topology};
use rbm::math::{Vec2, Vec3};
use rbm::packed::{PackedNormalF32, PackedNormalU32};
use rbm::vertex::{BoneIndices, BoneWeights};
use rbm::wire::Endian;

fn material(p: PrimitiveType) -> Material {
    let mut textures: Vec<Vec<u8>> = Vec::new();
    for k in 0..8u8 {
        textures.push(vec![b't', b'0' + k]);
    }
    Material { primitive_type: p, textures }
}

fn simple_vertex(seed: u32) -> SimpleVertex {
    SimpleVertex {
        position: Vec3::new(seed, seed + 1, seed + 2),
        normal: PackedNormalF32::pack(Vec3::new(0x3F800000, 0, 0)),
        uv0: Vec2::new(seed + 3, seed + 4),
        tangent: PackedNormalF32::pack(Vec3::new(0, 0x3F800000, 0)),
        binormal: PackedNormalF32::pack(Vec3::new(0, 0, 0x3F800000)),
    }
}

fn model_with(block: RenderBlock, e: Endian) -> RenderBlockModel {
    RenderBlockModel {
        endian: e,
        version: Vec3::new(1, 13, 2),
        min: Vec3::splat(0),
        max: Vec3::splat(0x40000000),
        blocks: vec![block],
    }
}

#[test]
fn lambert_round_trip() {
    let block = RenderBlock::Lambert(LambertRenderBlock {
        attributes: LambertAttributes { depth_bias: 0x3DCCCCCD, flags: 5 },
        material: material(PrimitiveType::TriangleStrip),
        vertices: VertexBuffer(vec![simple_vertex(10), simple_vertex(20), simple_vertex(30)]),
        indices: IndexBuffer(vec![0, 1, 2]),
    });
    let model = model_with(block, Endian::Little);
    let bytes = model.encode().unwrap();
    let back = RenderBlockModel::decode(&bytes).unwrap();
    assert_eq!(back, model);
    assert_eq!(back.encode().unwrap(), bytes);
}

#[test]
fn car_paint_round_trip_big_endian() {
    let block = RenderBlock::CarPaint(CarPaintRenderBlock {
        attributes: CarPaintAttributes {
            tint: rbm::math::Vec4::new(0x3F800000, 0, 0, 0x3F800000),
            specular_power: 0x42C80000,
            flags: 3,
        },
        material: material(PrimitiveType::IndexedTriangleList),
        vertices: VertexBuffer(vec![
            DeformableVertex {
                position: Vec3::new(7, 8, 9),
                deform_weights: 0x0000FF00,
                deform_indices: 0x00000102,
                normal: PackedNormalF32::pack(Vec3::new(0x3F800000, 0, 0)),
                uv0: Vec2::new(1, 2),
                tangent: PackedNormalF32::pack(Vec3::new(0, 0x3F800000, 0)),
            },
            DeformableVertex {
                position: Vec3::new(17, 18, 19),
                deform_weights: 0,
                deform_indices: 0,
                normal: PackedNormalF32::pack(Vec3::new(0, 0, 0x3F800000)),
                uv0: Vec2::new(3, 4),
                tangent: PackedNormalF32::pack(Vec3::new(0, 0x3F800000, 0)),
            },
        ]),
        indices: IndexBuffer(vec![0, 1, 1]),
    });
    let model = model_with(block, Endian::Big);
    let bytes = model.encode().unwrap();
    let back = RenderBlockModel::decode(&bytes).unwrap();
    assert_eq!(back, model);
    assert_eq!(back.encode().unwrap(), bytes);
}

#[test]
fn car_paint_simple_round_trip() {
    let block = RenderBlock::CarPaintSimple(CarPaintSimpleRenderBlock {
        attributes: CarPaintSimpleAttributes { specular_power: 0x41000000, flags: 0 },
        material: material(PrimitiveType::LineList),
        vertices: VertexBuffer(vec![simple_vertex(1), simple_vertex(2)]),
        indices: IndexBuffer(vec![1, 0]),
    });
    let model = model_with(block, Endian::Little);
    let bytes = model.encode().unwrap();
    let back = RenderBlockModel::decode(&bytes).unwrap();
    assert_eq!(back, model);
    assert_eq!(back.encode().unwrap(), bytes);
}

fn four_bone_position(seed: u32) -> SkinnedVertexPosition {
    SkinnedVertexPosition {
        position: Vec3::new(seed, seed + 1, seed + 2),
        bone_weights: BoneWeights {
            w0: 255,
            w1: 0,
            w2: 0,
            w3: 0,
            w4: 0,
            w5: 0,
            w6: 0,
            w7: 0,
        },
        bone_indices: BoneIndices {
            i0: 3,
            i1: 1,
            i2: 0,
            i3: 0,
            i4: 0,
            i5: 0,
            i6: 0,
            i7: 0,
        },
    }
}

fn skinned_data(seed: u32) -> SkinnedVertexData {
    SkinnedVertexData {
        normal: PackedNormalU32::pack(Vec3::new(0x3F800000, 0, 0)),
        tangent: PackedNormalU32::pack(Vec3::new(0, 0x3F800000, 0)),
        binormal: PackedNormalU32::pack(Vec3::new(0, 0, 0x3F800000)),
        uv0: Vec2::new(seed, seed + 1),
    }
}

#[test]
fn skinned_general_four_bone_round_trip() {
    let block = RenderBlock::SkinnedGeneral(SkinnedGeneralRenderBlock {
        attributes: SkinnedGeneralAttributes { specular_power: 0x40400000, flags: 0 },
        material: material(PrimitiveType::IndexedTriangleStrip),
        positions: VertexBuffer(vec![four_bone_position(5), four_bone_position(6)]),
        vertex_data: VertexBuffer(vec![skinned_data(50), skinned_data(60)]),
        indices: IndexBuffer(vec![0, 1]),
    });
    let model = model_with(block, Endian::Little);
    let bytes = model.encode().unwrap();
    let back = RenderBlockModel::decode(&bytes).unwrap();
    assert_eq!(back, model);
    assert_eq!(back.encode().unwrap(), bytes);
}

#[test]
fn skinned_general_eight_bone_round_trip() {
    let mut p = four_bone_position(5);
    p.bone_weights.w5 = 17;
    p.bone_indices.i7 = 200;
    let block = RenderBlock::SkinnedGeneral(SkinnedGeneralRenderBlock {
        attributes: SkinnedGeneralAttributes {
            specular_power: 0x40400000,
            flags: SKINNED_EIGHT_BONES,
        },
        material: material(PrimitiveType::PointSprite),
        positions: VertexBuffer(vec![p]),
        vertex_data: VertexBuffer(vec![skinned_data(50)]),
        indices: IndexBuffer(vec![0, 0, 0]),
    });
    let model = model_with(block, Endian::Big);
    let bytes = model.encode().unwrap();
    let back = RenderBlockModel::decode(&bytes).unwrap();
    assert_eq!(back, model);
    assert_eq!(back.encode().unwrap(), bytes);
}

#[test]
fn four_and_eight_bone_wire_widths_differ() {
    let four = RenderBlock::SkinnedGeneral(SkinnedGeneralRenderBlock {
        attributes: SkinnedGeneralAttributes { specular_power: 0, flags: 0 },
        material: material(PrimitiveType::TriangleList),
        positions: VertexBuffer(vec![four_bone_position(1)]),
        vertex_data: VertexBuffer(vec![]),
        indices: IndexBuffer(vec![]),
    });
    let eight = RenderBlock::SkinnedGeneral(SkinnedGeneralRenderBlock {
        attributes: SkinnedGeneralAttributes {
            specular_power: 0,
            flags: SKINNED_EIGHT_BONES,
        },
        material: material(PrimitiveType::TriangleList),
        positions: VertexBuffer(vec![four_bone_position(1)]),
        vertex_data: VertexBuffer(vec![]),
        indices: IndexBuffer(vec![]),
    });
    let b4 = model_with(four, Endian::Little).encode().unwrap();
    let b8 = model_with(eight, Endian::Little).encode().unwrap();
    // The eight-bone form spends eight more bytes on the one position.
    assert_eq!(b4.len() + 8, b8.len());
}

#[test]
fn rasterize_topology_rejects_fans() {
    assert_eq!(
        rbm::material::rasterize_topology(PrimitiveType::TriangleFan),
        Err(rbm::errors::RenderBlockError::UnsupportedPrimitive { tag: 4 })
    );
    assert_eq!(
        rbm::material::rasterize_topology(PrimitiveType::IndexedTriangleFan),
        Err(rbm::errors::RenderBlockError::UnsupportedPrimitive { tag: 5 })
    );
    assert_eq!(
        rbm::material::rasterize_topology(PrimitiveType::TriangleStrip),
        Ok(Topology::TriangleStrip)
    );
    assert_eq!(
        rbm::material::rasterize_topology(PrimitiveType::LineList),
        Ok(Topology::LineList)
    );
}

#[test]
fn triangle_fan_is_carried_through_the_codec() {
    let block = RenderBlock::Lambert(LambertRenderBlock {
        attributes: LambertAttributes { depth_bias: 0, flags: 0 },
        material: material(PrimitiveType::TriangleFan),
        vertices: VertexBuffer(vec![simple_vertex(10)]),
        indices: IndexBuffer(vec![0]),
    });
    let model = model_with(block, Endian::Little);
    let bytes = model.encode().unwrap();
    let back = RenderBlockModel::decode(&bytes).unwrap();
    assert_eq!(back, model);
}
