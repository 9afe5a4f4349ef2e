use vstd::prelude::*;
use crate::math::Vec3;

verus! {

// A packed normal stores one direction component per byte. A byte `b`
// stands for the value `(b - 128) / 128`, which is exactly representable as
// an IEEE 754 single-precision float, so unpacking can build the float's
// bit pattern with integer arithmetic alone and packing can read it back.
// Unpacking is total over every bit pattern and packing is total over every
// component pattern (saturating at the grid's ends), and packing what was
// unpacked reproduces the packed bits: the quantization grid is a fixed
// point of the codec.

/// Bit pattern of the float `(b - 128) / 128` for a quantized byte `b`.
pub open spec fn dequant_byte(b: u8) -> u32 {
    let sign: u32 = if b < 128 { 0x80000000u32 } else { 0u32 };
    let d: u32 = if b >= 128 { (b - 128) as u32 } else { (128 - b) as u32 };
    if d == 0 {
        0
    } else if d == 128 {
        sign | (127u32 << 23)
    } else if d >= 64 {
        sign | (126u32 << 23) | ((d << 17) & 0x7FFFFF)
    } else if d >= 32 {
        sign | (125u32 << 23) | ((d << 18) & 0x7FFFFF)
    } else if d >= 16 {
        sign | (124u32 << 23) | ((d << 19) & 0x7FFFFF)
    } else if d >= 8 {
        sign | (123u32 << 23) | ((d << 20) & 0x7FFFFF)
    } else if d >= 4 {
        sign | (122u32 << 23) | ((d << 21) & 0x7FFFFF)
    } else if d >= 2 {
        sign | (121u32 << 23) | ((d << 22) & 0x7FFFFF)
    } else {
        sign | (120u32 << 23)
    }
}

/// Quantized byte nearest below the float whose bit pattern is `bits`,
/// saturating at the ends of the grid. Total over every bit pattern; the
/// patterns with no numeric order (NaNs) saturate like infinities do.
pub open spec fn quant_bits(bits: u32) -> u8 {
    let sign: bool = bits >= 0x80000000;
    let e: u32 = (bits >> 23) & 0xFF;
    let mfull: u32 = 0x800000u32 | (bits & 0x7FFFFF);
    let mag: u32 = if e >= 127 {
        128
    } else if e >= 120 {
        mfull >> ((143 - e) as u32)
    } else {
        0
    };
    if sign {
        if mag >= 128 {
            0
        } else {
            (128 - mag) as u8
        }
    } else {
        if mag >= 127 {
            255
        } else {
            (128 + mag) as u8
        }
    }
}

/// Bit pattern of the float whose value is the integer `n & 0xFFFFFF`. Every
/// integer below two to the twenty-fourth is exactly representable.
pub open spec fn int24_to_pf32(n: u32) -> u32 {
    let m = n & 0xFFFFFF;
    if m == 0 {
        0
    } else if m >= 0x800000 {
        (150u32 << 23) | (m & 0x7FFFFF)
    } else if m >= 0x400000 {
        (149u32 << 23) | ((m << 1) & 0x7FFFFF)
    } else if m >= 0x200000 {
        (148u32 << 23) | ((m << 2) & 0x7FFFFF)
    } else if m >= 0x100000 {
        (147u32 << 23) | ((m << 3) & 0x7FFFFF)
    } else if m >= 0x80000 {
        (146u32 << 23) | ((m << 4) & 0x7FFFFF)
    } else if m >= 0x40000 {
        (145u32 << 23) | ((m << 5) & 0x7FFFFF)
    } else if m >= 0x20000 {
        (144u32 << 23) | ((m << 6) & 0x7FFFFF)
    } else if m >= 0x10000 {
        (143u32 << 23) | ((m << 7) & 0x7FFFFF)
    } else if m >= 0x8000 {
        (142u32 << 23) | ((m << 8) & 0x7FFFFF)
    } else if m >= 0x4000 {
        (141u32 << 23) | ((m << 9) & 0x7FFFFF)
    } else if m >= 0x2000 {
        (140u32 << 23) | ((m << 10) & 0x7FFFFF)
    } else if m >= 0x1000 {
        (139u32 << 23) | ((m << 11) & 0x7FFFFF)
    } else if m >= 0x800 {
        (138u32 << 23) | ((m << 12) & 0x7FFFFF)
    } else if m >= 0x400 {
        (137u32 << 23) | ((m << 13) & 0x7FFFFF)
    } else if m >= 0x200 {
        (136u32 << 23) | ((m << 14) & 0x7FFFFF)
    } else if m >= 0x100 {
        (135u32 << 23) | ((m << 15) & 0x7FFFFF)
    } else if m >= 0x80 {
        (134u32 << 23) | ((m << 16) & 0x7FFFFF)
    } else if m >= 0x40 {
        (133u32 << 23) | ((m << 17) & 0x7FFFFF)
    } else if m >= 0x20 {
        (132u32 << 23) | ((m << 18) & 0x7FFFFF)
    } else if m >= 0x10 {
        (131u32 << 23) | ((m << 19) & 0x7FFFFF)
    } else if m >= 0x8 {
        (130u32 << 23) | ((m << 20) & 0x7FFFFF)
    } else if m >= 0x4 {
        (129u32 << 23) | ((m << 21) & 0x7FFFFF)
    } else if m >= 0x2 {
        (128u32 << 23) | ((m << 22) & 0x7FFFFF)
    } else {
        127u32 << 23
    }
}

/// Integer below two to the twenty-fourth nearest the float whose bit
/// pattern is `bits`, truncating toward zero and clamping at the range's
/// ends. Total over every bit pattern.
pub open spec fn pf32_to_int24(bits: u32) -> u32 {
    if bits >= 0x80000000 {
        0
    } else {
        let e: u32 = bits >> 23;
        let mfull: u32 = 0x800000u32 | (bits & 0x7FFFFF);
        if e < 127 {
            0
        } else if e > 150 {
            0xFFFFFF
        } else {
            mfull >> ((150 - e) as u32)
        }
    }
}

/// The quantization grid is a fixed point: re-quantizing an unpacked byte
/// gives the byte back.
pub proof fn lemma_quant_dequant(b: u8)
    ensures
        quant_bits(dequant_byte(b)) == b,
{
    assert(quant_bits(dequant_byte(b)) == b) by (bit_vector);
}

/// Rebuilding the float of a small integer and reading it back is exact.
pub proof fn lemma_int24_fixed_point(n: u32)
    requires
        n < 0x1000000,
    ensures
        pf32_to_int24(int24_to_pf32(n)) == n,
{
    assert(n < 0x1000000 ==> pf32_to_int24(int24_to_pf32(n)) == n) by (bit_vector);
}

/// Three quantized direction components laid out in the low three bytes of
/// a 32-bit word; the top byte is left clear by the packer.
pub open spec fn unpack_bytes(n: u32) -> Vec3<u32> {
    Vec3 {
        x: dequant_byte((n & 0xFF) as u8),
        y: dequant_byte(((n >> 8) & 0xFF) as u8),
        z: dequant_byte(((n >> 16) & 0xFF) as u8),
    }
}

pub open spec fn pack_bytes(v: Vec3<u32>) -> u32 {
    (quant_bits(v.x) as u32) | ((quant_bits(v.y) as u32) << 8) | ((quant_bits(v.z) as u32) << 16)
}

pub proof fn lemma_pack_unpack_bytes(n: u32)
    requires
        n < 0x1000000,
    ensures
        pack_bytes(unpack_bytes(n)) == n,
{
    lemma_quant_dequant((n & 0xFF) as u8);
    lemma_quant_dequant(((n >> 8) & 0xFF) as u8);
    lemma_quant_dequant(((n >> 16) & 0xFF) as u8);
    assert(n < 0x1000000 ==> (((n & 0xFF) as u8) as u32) | ((((n >> 8) & 0xFF) as u8) as u32) << 8
        | ((((n >> 16) & 0xFF) as u8) as u32) << 16 == n) by (bit_vector);
}

/// Packed components always fit in the low three bytes.
pub proof fn lemma_pack_bytes_small(v: Vec3<u32>)
    ensures
        pack_bytes(v) < 0x1000000,
{
    let qx = quant_bits(v.x);
    let qy = quant_bits(v.y);
    let qz = quant_bits(v.z);
    assert((qx as u32) | ((qy as u32) << 8) | ((qz as u32) << 16) < 0x1000000) by (bit_vector);
}

/// A direction quantized to one byte per component, stored as the bit
/// pattern of the float whose value is the three bytes read as one integer.
#[derive(Clone, Copy, PartialEq, Eq, Structural, Debug)]
pub struct PackedNormalF32(pub u32);

/// A direction quantized to one byte per component, stored in the low three
/// bytes of an integer word.
#[derive(Clone, Copy, PartialEq, Eq, Structural, Debug)]
pub struct PackedNormalU32(pub u32);

impl PackedNormalF32 {
    pub open spec fn unpack_spec(self) -> Vec3<u32> {
        unpack_bytes(pf32_to_int24(self.0))
    }

    pub open spec fn pack_spec(v: Vec3<u32>) -> PackedNormalF32 {
        PackedNormalF32(int24_to_pf32(pack_bytes(v)))
    }

    /// A packed value that re-packing its own unpacking reproduces; every
    /// value the packer emits is of this kind.
    pub open spec fn canonical(self) -> bool {
        Self::pack_spec(self.unpack_spec()) == self
    }

    /// Unpacking never fails: any bit pattern yields some direction.
    pub fn unpack(&self) -> (r: Vec3<u32>)
        ensures
            r == self.unpack_spec(),
    {
        let bits = self.0;
        let n: u32 = if bits >= 0x80000000 {
            0
        } else {
            let e: u32 = bits >> 23u32;
            let mfull: u32 = 0x800000u32 | (bits & 0x7FFFFF);
            if e < 127 {
                0
            } else if e > 150 {
                0xFFFFFF
            } else {
                mfull >> (150 - e)
            }
        };
        Vec3 {
            x: dequant_exec((n & 0xFF) as u8),
            y: dequant_exec(((n >> 8u32) & 0xFF) as u8),
            z: dequant_exec(((n >> 16u32) & 0xFF) as u8),
        }
    }

    /// Packing never fails: any component patterns quantize, saturating at
    /// the grid's ends.
    pub fn pack(v: Vec3<u32>) -> (r: Self)
        ensures
            r == Self::pack_spec(v),
            r.canonical(),
    {
        let n: u32 = (quant_exec(v.x) as u32) | ((quant_exec(v.y) as u32) << 8u32) | ((quant_exec(
            v.z,
        ) as u32) << 16u32);
        proof {
            lemma_pack_bytes_small(v);
            lemma_int24_fixed_point(pack_bytes(v));
            lemma_pack_unpack_bytes(pack_bytes(v));
        }
        PackedNormalF32(int24_exec(n))
    }
}

impl PackedNormalU32 {
    pub open spec fn unpack_spec(self) -> Vec3<u32> {
        unpack_bytes(self.0)
    }

    pub open spec fn pack_spec(v: Vec3<u32>) -> PackedNormalU32 {
        PackedNormalU32(pack_bytes(v))
    }

    /// A packed value that re-packing its own unpacking reproduces; every
    /// value the packer emits is of this kind. The top byte of such a value
    /// is clear.
    pub open spec fn canonical(self) -> bool {
        Self::pack_spec(self.unpack_spec()) == self
    }

    /// Unpacking never fails: any bit pattern yields some direction.
    pub fn unpack(&self) -> (r: Vec3<u32>)
        ensures
            r == self.unpack_spec(),
    {
        let n = self.0;
        Vec3 {
            x: dequant_exec((n & 0xFF) as u8),
            y: dequant_exec(((n >> 8u32) & 0xFF) as u8),
            z: dequant_exec(((n >> 16u32) & 0xFF) as u8),
        }
    }

    /// Packing never fails: any component patterns quantize, saturating at
    /// the grid's ends.
    pub fn pack(v: Vec3<u32>) -> (r: Self)
        ensures
            r == Self::pack_spec(v),
            r.canonical(),
    {
        proof {
            lemma_pack_bytes_small(v);
            lemma_pack_unpack_bytes(pack_bytes(v));
        }
        PackedNormalU32(
            (quant_exec(v.x) as u32) | ((quant_exec(v.y) as u32) << 8u32) | ((quant_exec(v.z)
                as u32) << 16u32),
        )
    }
}

/// Packing is a retraction: packing the unpacking of any packed value
/// reproduces that value's bits exactly, at the grid's own resolution.
pub proof fn lemma_packed_f32_fixed_point(v: Vec3<u32>)
    ensures
        PackedNormalF32::pack_spec(PackedNormalF32::pack_spec(v).unpack_spec())
            == PackedNormalF32::pack_spec(v),
{
    let n = pack_bytes(v);
    lemma_pack_bytes_small(v);
    lemma_int24_fixed_point(n);
    lemma_pack_unpack_bytes(n);
}

/// Packing is a retraction for the integer-word layout as well.
pub proof fn lemma_packed_u32_fixed_point(v: Vec3<u32>)
    ensures
        PackedNormalU32::pack_spec(PackedNormalU32::pack_spec(v).unpack_spec())
            == PackedNormalU32::pack_spec(v),
{
    lemma_pack_bytes_small(v);
    lemma_pack_unpack_bytes(pack_bytes(v));
}

fn dequant_exec(b: u8) -> (r: u32)
    ensures
        r == dequant_byte(b),
{
    let sign: u32 = if b < 128 {
        0x80000000u32
    } else {
        0u32
    };
    let d: u32 = if b >= 128 {
        (b - 128) as u32
    } else {
        (128 - b) as u32
    };
    if d == 0 {
        0
    } else if d == 128 {
        sign | (127u32 << 23u32)
    } else if d >= 64 {
        sign | (126u32 << 23u32) | ((d << 17u32) & 0x7FFFFF)
    } else if d >= 32 {
        sign | (125u32 << 23u32) | ((d << 18u32) & 0x7FFFFF)
    } else if d >= 16 {
        sign | (124u32 << 23u32) | ((d << 19u32) & 0x7FFFFF)
    } else if d >= 8 {
        sign | (123u32 << 23u32) | ((d << 20u32) & 0x7FFFFF)
    } else if d >= 4 {
        sign | (122u32 << 23u32) | ((d << 21u32) & 0x7FFFFF)
    } else if d >= 2 {
        sign | (121u32 << 23u32) | ((d << 22u32) & 0x7FFFFF)
    } else {
        sign | (120u32 << 23u32)
    }
}

fn quant_exec(bits: u32) -> (r: u8)
    ensures
        r == quant_bits(bits),
{
    let sign: bool = bits >= 0x80000000;
    let e: u32 = (bits >> 23u32) & 0xFF;
    let mfull: u32 = 0x800000u32 | (bits & 0x7FFFFF);
    let mag: u32 = if e >= 127 {
        128
    } else if e >= 120 {
        mfull >> (143 - e)
    } else {
        0
    };
    if sign {
        if mag >= 128 {
            0
        } else {
            (128 - mag) as u8
        }
    } else {
        if mag >= 127 {
            255
        } else {
            (128 + mag) as u8
        }
    }
}

fn int24_exec(n: u32) -> (r: u32)
    ensures
        r == int24_to_pf32(n),
{
    let m = n & 0xFFFFFF;
    if m == 0 {
        0
    } else if m >= 0x800000 {
        (150u32 << 23u32) | (m & 0x7FFFFF)
    } else if m >= 0x400000 {
        (149u32 << 23u32) | ((m << 1u32) & 0x7FFFFF)
    } else if m >= 0x200000 {
        (148u32 << 23u32) | ((m << 2u32) & 0x7FFFFF)
    } else if m >= 0x100000 {
        (147u32 << 23u32) | ((m << 3u32) & 0x7FFFFF)
    } else if m >= 0x80000 {
        (146u32 << 23u32) | ((m << 4u32) & 0x7FFFFF)
    } else if m >= 0x40000 {
        (145u32 << 23u32) | ((m << 5u32) & 0x7FFFFF)
    } else if m >= 0x20000 {
        (144u32 << 23u32) | ((m << 6u32) & 0x7FFFFF)
    } else if m >= 0x10000 {
        (143u32 << 23u32) | ((m << 7u32) & 0x7FFFFF)
    } else if m >= 0x8000 {
        (142u32 << 23u32) | ((m << 8u32) & 0x7FFFFF)
    } else if m >= 0x4000 {
        (141u32 << 23u32) | ((m << 9u32) & 0x7FFFFF)
    } else if m >= 0x2000 {
        (140u32 << 23u32) | ((m << 10u32) & 0x7FFFFF)
    } else if m >= 0x1000 {
        (139u32 << 23u32) | ((m << 11u32) & 0x7FFFFF)
    } else if m >= 0x800 {
        (138u32 << 23u32) | ((m << 12u32) & 0x7FFFFF)
    } else if m >= 0x400 {
        (137u32 << 23u32) | ((m << 13u32) & 0x7FFFFF)
    } else if m >= 0x200 {
        (136u32 << 23u32) | ((m << 14u32) & 0x7FFFFF)
    } else if m >= 0x100 {
        (135u32 << 23u32) | ((m << 15u32) & 0x7FFFFF)
    } else if m >= 0x80 {
        (134u32 << 23u32) | ((m << 16u32) & 0x7FFFFF)
    } else if m >= 0x40 {
        (133u32 << 23u32) | ((m << 17u32) & 0x7FFFFF)
    } else if m >= 0x20 {
        (132u32 << 23u32) | ((m << 18u32) & 0x7FFFFF)
    } else if m >= 0x10 {
        (131u32 << 23u32) | ((m << 19u32) & 0x7FFFFF)
    } else if m >= 0x8 {
        (130u32 << 23u32) | ((m << 20u32) & 0x7FFFFF)
    } else if m >= 0x4 {
        (129u32 << 23u32) | ((m << 21u32) & 0x7FFFFF)
    } else if m >= 0x2 {
        (128u32 << 23u32) | ((m << 22u32) & 0x7FFFFF)
    } else {
        127u32 << 23u32
    }
}

} // verus!
