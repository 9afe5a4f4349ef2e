use vstd::prelude::*;

verus! {

/// Two-component vector. For fields that the file format stores as IEEE 754
/// single-precision floats, the component type is `u32` and each component
/// holds the float's raw bit pattern; the codec never interprets it.
#[derive(Clone, Copy, PartialEq, Eq, Structural, Debug)]
pub struct Vec2<T> {
    pub x: T,
    pub y: T,
}

/// Three-component vector; see `Vec2` for the bit-pattern convention.
#[derive(Clone, Copy, PartialEq, Eq, Structural, Debug)]
pub struct Vec3<T> {
    pub x: T,
    pub y: T,
    pub z: T,
}

/// Four-component vector; see `Vec2` for the bit-pattern convention.
#[derive(Clone, Copy, PartialEq, Eq, Structural, Debug)]
pub struct Vec4<T> {
    pub x: T,
    pub y: T,
    pub z: T,
    pub w: T,
}

impl<T> Vec2<T> {
    pub fn new(x: T, y: T) -> (r: Self)
        ensures
            r == (Vec2 { x, y }),
    {
        Vec2 { x, y }
    }
}

impl<T: Copy> Vec2<T> {
    pub fn splat(value: T) -> (r: Self)
        ensures
            r == (Vec2 { x: value, y: value }),
    {
        Vec2 { x: value, y: value }
    }
}

impl<T> Vec3<T> {
    pub fn new(x: T, y: T, z: T) -> (r: Self)
        ensures
            r == (Vec3 { x, y, z }),
    {
        Vec3 { x, y, z }
    }
}

impl<T: Copy> Vec3<T> {
    pub fn splat(value: T) -> (r: Self)
        ensures
            r == (Vec3 { x: value, y: value, z: value }),
    {
        Vec3 { x: value, y: value, z: value }
    }
}

impl<T> Vec4<T> {
    pub fn new(x: T, y: T, z: T, w: T) -> (r: Self)
        ensures
            r == (Vec4 { x, y, z, w }),
    {
        Vec4 { x, y, z, w }
    }
}

impl<T: Copy> Vec4<T> {
    pub fn splat(value: T) -> (r: Self)
        ensures
            r == (Vec4 { x: value, y: value, z: value, w: value }),
    {
        Vec4 { x: value, y: value, z: value, w: value }
    }
}

} // verus!
