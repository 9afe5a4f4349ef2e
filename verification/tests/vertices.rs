use rbm::formats::deformable::DeformableVertex;
use rbm::formats::general::GeneralVertex;
use rbm::formats::simple::SimpleVertex;
use rbm::formats::skinned::{SkinnedVertexData, SkinnedVertexPosition};
use rbm::math::{Vec2, Vec3, Vec4};
use rbm::packed::{PackedNormalF32, PackedNormalU32};
use rbm::vertex::{BoneIndices, BoneWeights, GenericVertex};

fn direction(x: u32, y: u32, z: u32) -> Vec3<u32> {
    Vec3::new(x, y, z)
}

#[test]
fn packed_u32_fixed_point() {
    // 0x3F800000 is 1.0; 0xBF800000 is -1.0; 0x3F000000 is 0.5.
    let v = direction(0x3F800000, 0xBF800000, 0x3F000000);
    let p = PackedNormalU32::pack(v);
    let q = PackedNormalU32::pack(p.unpack());
    assert_eq!(p, q);
    // One unit each way and half up: bytes 255, 0, 192.
    assert_eq!(p.0, 0x00C000FF);
}

#[test]
fn packed_f32_fixed_point() {
    let v = direction(0x3F800000, 0xBF800000, 0x3F000000);
    let p = PackedNormalF32::pack(v);
    let q = PackedNormalF32::pack(p.unpack());
    assert_eq!(p, q);
}

#[test]
fn packed_decode_is_total() {
    // Any bit pattern unpacks, NaN patterns too.
    let odd = PackedNormalF32(0xFFC00000);
    let d = odd.unpack();
    let repacked = PackedNormalF32::pack(d);
    assert_eq!(repacked.unpack(), PackedNormalF32::pack(repacked.unpack()).unpack());
    let other = PackedNormalU32(0xDEADBEEF);
    let d2 = other.unpack();
    let r2 = PackedNormalU32::pack(d2);
    assert_eq!(r2.unpack(), d2);
}

#[test]
fn packed_zero_is_midpoint() {
    let v = direction(0, 0, 0);
    let p = PackedNormalU32::pack(v);
    assert_eq!(p.0, 0x00808080);
}

#[test]
fn general_vertex_conversion_closure() {
    let v = GeneralVertex {
        position: Vec3::new(1, 2, 3),
        uv0: Vec2::new(4, 5),
        uv1: Vec2::new(6, 7),
        normal: Vec3::new(8, 9, 10),
        tangent: Vec3::new(11, 12, 13),
        color: Vec4::new(14, 15, 16, 17),
    };
    assert_eq!(GeneralVertex::from_generic(&v.into_generic()), v);
}

#[test]
fn simple_vertex_conversion_closure() {
    let v = SimpleVertex {
        position: Vec3::new(1, 2, 3),
        normal: PackedNormalF32::pack(direction(0x3F800000, 0, 0)),
        uv0: Vec2::new(9, 10),
        tangent: PackedNormalF32::pack(direction(0, 0x3F800000, 0)),
        binormal: PackedNormalF32::pack(direction(0, 0, 0x3F800000)),
    };
    assert_eq!(SimpleVertex::from_generic(&v.into_generic()), v);
}

#[test]
fn skinned_position_conversion_closure() {
    let v = SkinnedVertexPosition {
        position: Vec3::new(5, 6, 7),
        bone_weights: BoneWeights {
            w0: 200,
            w1: 55,
            w2: 0,
            w3: 0,
            w4: 1,
            w5: 2,
            w6: 3,
            w7: 4,
        },
        bone_indices: BoneIndices {
            i0: 9,
            i1: 8,
            i2: 7,
            i3: 6,
            i4: 5,
            i5: 4,
            i6: 3,
            i7: 2,
        },
    };
    assert_eq!(SkinnedVertexPosition::from_generic(&v.into_generic()), v);
    let g = v.into_generic();
    assert_eq!(g.bone_weights.w0, 200);
    assert_eq!(g.bone_indices.i3, 6);
}

#[test]
fn skinned_data_conversion_closure() {
    let v = SkinnedVertexData {
        normal: PackedNormalU32::pack(direction(0x3F800000, 0, 0)),
        tangent: PackedNormalU32::pack(direction(0, 0x3F800000, 0)),
        binormal: PackedNormalU32::pack(direction(0, 0, 0x3F800000)),
        uv0: Vec2::new(21, 22),
    };
    assert_eq!(SkinnedVertexData::from_generic(&v.into_generic()), v);
}

#[test]
fn deformable_vertex_conversion_closure() {
    let v = DeformableVertex {
        position: Vec3::new(1, 2, 3),
        deform_weights: 0x04030201,
        deform_indices: 0x0D0C0B0A,
        normal: PackedNormalF32::pack(direction(0x3F800000, 0, 0)),
        uv0: Vec2::new(30, 31),
        tangent: PackedNormalF32::pack(direction(0, 0x3F800000, 0)),
    };
    assert_eq!(DeformableVertex::from_generic(&v.into_generic()), v);
    let g = v.into_generic();
    assert_eq!(g.bone_weights.w1, 2);
    assert_eq!(g.bone_indices.i2, 0x0C);
    assert_eq!(g.bone_weights.w4, 0);
}

#[test]
fn generic_vertex_defaults_are_zero() {
    let z = GenericVertex::zero();
    assert_eq!(z.position, Vec3::splat(0));
    assert_eq!(z.color, Vec4::splat(0));
    assert_eq!(z.bone_weights.w7, 0);
    assert_eq!(z.bone_indices.i0, 0);
}

#[test]
fn lossy_channels_are_documented_defaults() {
    // A simple vertex stores no color; converting through the canonical
    // shape leaves color at zero rather than inventing one.
    let v = SimpleVertex {
        position: Vec3::new(1, 2, 3),
        normal: PackedNormalF32::pack(direction(0x3F800000, 0, 0)),
        uv0: Vec2::new(9, 10),
        tangent: PackedNormalF32::pack(direction(0, 0x3F800000, 0)),
        binormal: PackedNormalF32::pack(direction(0, 0, 0x3F800000)),
    };
    let g = v.into_generic();
    assert_eq!(g.color, Vec4::splat(0));
    assert_eq!(g.uv1, Vec2::new(0, 0));
}
