use vstd::prelude::*;
use crate::errors::RenderBlockError;
use crate::math::{Vec2, Vec3, Vec4};

verus! {



/// Byte order of every multi-byte field that follows the container's
/// endianness marker.
#[derive(Clone, Copy, PartialEq, Eq, Structural, Debug)]
pub enum Endian {
    Little,
    Big,
}

/// Relates one executable decoding step to its specification. The step
/// returns the same value and the same next position on success, and the
/// same error on failure.
pub open spec fn agrees<T>(
    r: Result<(T, usize), RenderBlockError>,
    s: Result<(T, int), RenderBlockError>,
) -> bool {
    match (r, s) {
        (Ok((v, j)), Ok((w, k))) => v == w && j as int == k,
        (Err(a), Err(b)) => a == b,
        _ => false,
    }
}

/// Relates one executable encoding step to its specification: when the
/// specification yields bytes, the step succeeded and appended exactly those
/// bytes; when it yields an error, the step reports that error (and whatever
/// was already appended is discarded wholesale by the caller).
pub open spec fn emits(
    r: Result<(), RenderBlockError>,
    newv: Seq<u8>,
    oldv: Seq<u8>,
    s: Result<Seq<u8>, RenderBlockError>,
) -> bool {
    match s {
        Ok(bytes) => r == Ok::<(), RenderBlockError>(()) && newv == oldv + bytes,
        Err(er) => r == Err::<(), RenderBlockError>(er),
    }
}

/// Concatenation of byte strings associates; composite record proofs use
/// this ambiently to slide between groupings of the encoded fields.
pub broadcast proof fn lemma_cat_assoc(a: Seq<u8>, b: Seq<u8>, c: Seq<u8>)
    ensures
        #[trigger] ((a + b) + c) == a + (b + c),
{
    assert((a + b) + c =~= a + (b + c));
}

/// Every field-split grouping of a 2-field record's bytes equals the
/// whole: prefix-of-decoded-fields, current field, right-nested rest.
pub proof fn lemma_chain2(
    p: Seq<u8>,
    e1: Seq<u8>,
    e2: Seq<u8>,
    s: Seq<u8>,
)
    ensures
        (p) + e1 + (e2 + s) == p + (e1 + e2) + s,
        (p + e1) + e2 + (s) == p + (e1 + e2) + s,
{
    let r2 = e2 + s;
    lemma_cat_assoc(e1, e2, s);
    lemma_cat_assoc(p, e1 + e2, s);
    lemma_cat_assoc(p, e1, r2);
    lemma_cat_assoc(p + e1, e2, s);
}

/// Every field-split grouping of a 3-field record's bytes equals the
/// whole: prefix-of-decoded-fields, current field, right-nested rest.
pub proof fn lemma_chain3(
    p: Seq<u8>,
    e1: Seq<u8>,
    e2: Seq<u8>,
    e3: Seq<u8>,
    s: Seq<u8>,
)
    ensures
        (p) + e1 + (e2 + (e3 + s)) == p + (e1 + e2 + e3) + s,
        (p + e1) + e2 + (e3 + s) == p + (e1 + e2 + e3) + s,
        (p + e1 + e2) + e3 + (s) == p + (e1 + e2 + e3) + s,
{
    let r3 = e3 + s;
    let r2 = e2 + r3;
    lemma_cat_assoc(e1 + e2, e3, s);
    lemma_cat_assoc(e1, e2, r3);
    lemma_cat_assoc(p, e1 + e2 + e3, s);
    lemma_cat_assoc(p, e1, r2);
    lemma_cat_assoc(p + e1, e2, r3);
    lemma_cat_assoc(p + e1 + e2, e3, s);
}

/// Every field-split grouping of a 4-field record's bytes equals the
/// whole: prefix-of-decoded-fields, current field, right-nested rest.
pub proof fn lemma_chain4(
    p: Seq<u8>,
    e1: Seq<u8>,
    e2: Seq<u8>,
    e3: Seq<u8>,
    e4: Seq<u8>,
    s: Seq<u8>,
)
    ensures
        (p) + e1 + (e2 + (e3 + (e4 + s))) == p + (e1 + e2 + e3 + e4) + s,
        (p + e1) + e2 + (e3 + (e4 + s)) == p + (e1 + e2 + e3 + e4) + s,
        (p + e1 + e2) + e3 + (e4 + s) == p + (e1 + e2 + e3 + e4) + s,
        (p + e1 + e2 + e3) + e4 + (s) == p + (e1 + e2 + e3 + e4) + s,
{
    let r4 = e4 + s;
    let r3 = e3 + r4;
    let r2 = e2 + r3;
    lemma_cat_assoc(e1 + e2 + e3, e4, s);
    lemma_cat_assoc(e1 + e2, e3, r4);
    lemma_cat_assoc(e1, e2, r3);
    lemma_cat_assoc(p, e1 + e2 + e3 + e4, s);
    lemma_cat_assoc(p, e1, r2);
    lemma_cat_assoc(p + e1, e2, r3);
    lemma_cat_assoc(p + e1 + e2, e3, r4);
    lemma_cat_assoc(p + e1 + e2 + e3, e4, s);
}

/// Every field-split grouping of a 5-field record's bytes equals the
/// whole: prefix-of-decoded-fields, current field, right-nested rest.
pub proof fn lemma_chain5(
    p: Seq<u8>,
    e1: Seq<u8>,
    e2: Seq<u8>,
    e3: Seq<u8>,
    e4: Seq<u8>,
    e5: Seq<u8>,
    s: Seq<u8>,
)
    ensures
        (p) + e1 + (e2 + (e3 + (e4 + (e5 + s)))) == p + (e1 + e2 + e3 + e4 + e5) + s,
        (p + e1) + e2 + (e3 + (e4 + (e5 + s))) == p + (e1 + e2 + e3 + e4 + e5) + s,
        (p + e1 + e2) + e3 + (e4 + (e5 + s)) == p + (e1 + e2 + e3 + e4 + e5) + s,
        (p + e1 + e2 + e3) + e4 + (e5 + s) == p + (e1 + e2 + e3 + e4 + e5) + s,
        (p + e1 + e2 + e3 + e4) + e5 + (s) == p + (e1 + e2 + e3 + e4 + e5) + s,
{
    let r5 = e5 + s;
    let r4 = e4 + r5;
    let r3 = e3 + r4;
    let r2 = e2 + r3;
    lemma_cat_assoc(e1 + e2 + e3 + e4, e5, s);
    lemma_cat_assoc(e1 + e2 + e3, e4, r5);
    lemma_cat_assoc(e1 + e2, e3, r4);
    lemma_cat_assoc(e1, e2, r3);
    lemma_cat_assoc(p, e1 + e2 + e3 + e4 + e5, s);
    lemma_cat_assoc(p, e1, r2);
    lemma_cat_assoc(p + e1, e2, r3);
    lemma_cat_assoc(p + e1 + e2, e3, r4);
    lemma_cat_assoc(p + e1 + e2 + e3, e4, r5);
    lemma_cat_assoc(p + e1 + e2 + e3 + e4, e5, s);
}

/// Every field-split grouping of a 6-field record's bytes equals the
/// whole: prefix-of-decoded-fields, current field, right-nested rest.
pub proof fn lemma_chain6(
    p: Seq<u8>,
    e1: Seq<u8>,
    e2: Seq<u8>,
    e3: Seq<u8>,
    e4: Seq<u8>,
    e5: Seq<u8>,
    e6: Seq<u8>,
    s: Seq<u8>,
)
    ensures
        (p) + e1 + (e2 + (e3 + (e4 + (e5 + (e6 + s))))) == p + (e1 + e2 + e3 + e4 + e5 + e6) + s,
        (p + e1) + e2 + (e3 + (e4 + (e5 + (e6 + s)))) == p + (e1 + e2 + e3 + e4 + e5 + e6) + s,
        (p + e1 + e2) + e3 + (e4 + (e5 + (e6 + s))) == p + (e1 + e2 + e3 + e4 + e5 + e6) + s,
        (p + e1 + e2 + e3) + e4 + (e5 + (e6 + s)) == p + (e1 + e2 + e3 + e4 + e5 + e6) + s,
        (p + e1 + e2 + e3 + e4) + e5 + (e6 + s) == p + (e1 + e2 + e3 + e4 + e5 + e6) + s,
        (p + e1 + e2 + e3 + e4 + e5) + e6 + (s) == p + (e1 + e2 + e3 + e4 + e5 + e6) + s,
{
    let r6 = e6 + s;
    let r5 = e5 + r6;
    let r4 = e4 + r5;
    let r3 = e3 + r4;
    let r2 = e2 + r3;
    lemma_cat_assoc(e1 + e2 + e3 + e4 + e5, e6, s);
    lemma_cat_assoc(e1 + e2 + e3 + e4, e5, r6);
    lemma_cat_assoc(e1 + e2 + e3, e4, r5);
    lemma_cat_assoc(e1 + e2, e3, r4);
    lemma_cat_assoc(e1, e2, r3);
    lemma_cat_assoc(p, e1 + e2 + e3 + e4 + e5 + e6, s);
    lemma_cat_assoc(p, e1, r2);
    lemma_cat_assoc(p + e1, e2, r3);
    lemma_cat_assoc(p + e1 + e2, e3, r4);
    lemma_cat_assoc(p + e1 + e2 + e3, e4, r5);
    lemma_cat_assoc(p + e1 + e2 + e3 + e4, e5, r6);
    lemma_cat_assoc(p + e1 + e2 + e3 + e4 + e5, e6, s);
}

/// Every field-split grouping of a 7-field record's bytes equals the
/// whole: prefix-of-decoded-fields, current field, right-nested rest.
pub proof fn lemma_chain7(
    p: Seq<u8>,
    e1: Seq<u8>,
    e2: Seq<u8>,
    e3: Seq<u8>,
    e4: Seq<u8>,
    e5: Seq<u8>,
    e6: Seq<u8>,
    e7: Seq<u8>,
    s: Seq<u8>,
)
    ensures
        (p) + e1 + (e2 + (e3 + (e4 + (e5 + (e6 + (e7 + s)))))) == p + (e1 + e2 + e3 + e4 + e5 + e6 + e7) + s,
        (p + e1) + e2 + (e3 + (e4 + (e5 + (e6 + (e7 + s))))) == p + (e1 + e2 + e3 + e4 + e5 + e6 + e7) + s,
        (p + e1 + e2) + e3 + (e4 + (e5 + (e6 + (e7 + s)))) == p + (e1 + e2 + e3 + e4 + e5 + e6 + e7) + s,
        (p + e1 + e2 + e3) + e4 + (e5 + (e6 + (e7 + s))) == p + (e1 + e2 + e3 + e4 + e5 + e6 + e7) + s,
        (p + e1 + e2 + e3 + e4) + e5 + (e6 + (e7 + s)) == p + (e1 + e2 + e3 + e4 + e5 + e6 + e7) + s,
        (p + e1 + e2 + e3 + e4 + e5) + e6 + (e7 + s) == p + (e1 + e2 + e3 + e4 + e5 + e6 + e7) + s,
        (p + e1 + e2 + e3 + e4 + e5 + e6) + e7 + (s) == p + (e1 + e2 + e3 + e4 + e5 + e6 + e7) + s,
{
    let r7 = e7 + s;
    let r6 = e6 + r7;
    let r5 = e5 + r6;
    let r4 = e4 + r5;
    let r3 = e3 + r4;
    let r2 = e2 + r3;
    lemma_cat_assoc(e1 + e2 + e3 + e4 + e5 + e6, e7, s);
    lemma_cat_assoc(e1 + e2 + e3 + e4 + e5, e6, r7);
    lemma_cat_assoc(e1 + e2 + e3 + e4, e5, r6);
    lemma_cat_assoc(e1 + e2 + e3, e4, r5);
    lemma_cat_assoc(e1 + e2, e3, r4);
    lemma_cat_assoc(e1, e2, r3);
    lemma_cat_assoc(p, e1 + e2 + e3 + e4 + e5 + e6 + e7, s);
    lemma_cat_assoc(p, e1, r2);
    lemma_cat_assoc(p + e1, e2, r3);
    lemma_cat_assoc(p + e1 + e2, e3, r4);
    lemma_cat_assoc(p + e1 + e2 + e3, e4, r5);
    lemma_cat_assoc(p + e1 + e2 + e3 + e4, e5, r6);
    lemma_cat_assoc(p + e1 + e2 + e3 + e4 + e5, e6, r7);
    lemma_cat_assoc(p + e1 + e2 + e3 + e4 + e5 + e6, e7, s);
}

/// The middle piece of a three-part concatenation is its own subrange.
pub proof fn lemma_cat_subrange(p: Seq<u8>, x: Seq<u8>, s: Seq<u8>)
    ensures
        (p + x + s).subrange(p.len() as int, (p.len() + x.len()) as int) == x,
{
    assert((p + x + s).subrange(p.len() as int, (p.len() + x.len()) as int) =~= x);
}

pub open spec fn enc_u8(v: u8) -> Seq<u8> {
    seq![v]
}

pub open spec fn enc_u16(e: Endian, v: u16) -> Seq<u8> {
    match e {
        Endian::Little => seq![(v & 0xff) as u8, ((v >> 8) & 0xff) as u8],
        Endian::Big => seq![((v >> 8) & 0xff) as u8, (v & 0xff) as u8],
    }
}

pub open spec fn enc_u32(e: Endian, v: u32) -> Seq<u8> {
    match e {
        Endian::Little => seq![
            (v & 0xff) as u8,
            ((v >> 8) & 0xff) as u8,
            ((v >> 16) & 0xff) as u8,
            ((v >> 24) & 0xff) as u8,
        ],
        Endian::Big => seq![
            ((v >> 24) & 0xff) as u8,
            ((v >> 16) & 0xff) as u8,
            ((v >> 8) & 0xff) as u8,
            (v & 0xff) as u8,
        ],
    }
}

pub open spec fn u16_of(e: Endian, b0: u8, b1: u8) -> u16 {
    match e {
        Endian::Little => (b0 as u16) | ((b1 as u16) << 8),
        Endian::Big => (b1 as u16) | ((b0 as u16) << 8),
    }
}

pub open spec fn u32_of(e: Endian, b0: u8, b1: u8, b2: u8, b3: u8) -> u32 {
    match e {
        Endian::Little => (b0 as u32) | ((b1 as u32) << 8) | ((b2 as u32) << 16) | ((b3 as u32)
            << 24),
        Endian::Big => (b3 as u32) | ((b2 as u32) << 8) | ((b1 as u32) << 16) | ((b0 as u32)
            << 24),
    }
}

pub open spec fn rd_u8(b: Seq<u8>, i: int) -> Result<(u8, int), RenderBlockError> {
    if 0 <= i && i + 1 <= b.len() {
        Ok((b[i], i + 1))
    } else {
        Err(RenderBlockError::Truncated)
    }
}

pub open spec fn rd_u16(b: Seq<u8>, i: int, e: Endian) -> Result<(u16, int), RenderBlockError> {
    if 0 <= i && i + 2 <= b.len() {
        Ok((u16_of(e, b[i], b[i + 1]), i + 2))
    } else {
        Err(RenderBlockError::Truncated)
    }
}

pub open spec fn rd_u32(b: Seq<u8>, i: int, e: Endian) -> Result<(u32, int), RenderBlockError> {
    if 0 <= i && i + 4 <= b.len() {
        Ok((u32_of(e, b[i], b[i + 1], b[i + 2], b[i + 3]), i + 4))
    } else {
        Err(RenderBlockError::Truncated)
    }
}

pub fn read_u8(b: &Vec<u8>, i: usize) -> (r: Result<(u8, usize), RenderBlockError>)
    requires
        i <= b@.len(),
    ensures
        agrees(r, rd_u8(b@, i as int)),
        r matches Ok((v, j)) ==> i <= j <= b@.len(),
{
    if b.len() - i >= 1 {
        Ok((b[i], i + 1))
    } else {
        Err(RenderBlockError::Truncated)
    }
}

pub fn read_u16(b: &Vec<u8>, i: usize, e: Endian) -> (r: Result<(u16, usize), RenderBlockError>)
    requires
        i <= b@.len(),
    ensures
        agrees(r, rd_u16(b@, i as int, e)),
        r matches Ok((v, j)) ==> i <= j <= b@.len(),
{
    if b.len() - i >= 2 {
        let b0 = b[i];
        let b1 = b[i + 1];
        let v = match e {
            Endian::Little => (b0 as u16) | ((b1 as u16) << 8u16),
            Endian::Big => (b1 as u16) | ((b0 as u16) << 8u16),
        };
        Ok((v, i + 2))
    } else {
        Err(RenderBlockError::Truncated)
    }
}

pub fn read_u32(b: &Vec<u8>, i: usize, e: Endian) -> (r: Result<(u32, usize), RenderBlockError>)
    requires
        i <= b@.len(),
    ensures
        agrees(r, rd_u32(b@, i as int, e)),
        r matches Ok((v, j)) ==> i <= j <= b@.len(),
{
    if b.len() - i >= 4 {
        let b0 = b[i];
        let b1 = b[i + 1];
        let b2 = b[i + 2];
        let b3 = b[i + 3];
        let v = match e {
            Endian::Little => (b0 as u32) | ((b1 as u32) << 8u32) | ((b2 as u32) << 16u32) | ((b3
                as u32) << 24u32),
            Endian::Big => (b3 as u32) | ((b2 as u32) << 8u32) | ((b1 as u32) << 16u32) | ((b0
                as u32) << 24u32),
        };
        Ok((v, i + 4))
    } else {
        Err(RenderBlockError::Truncated)
    }
}

pub fn write_u8(out: &mut Vec<u8>, v: u8)
    ensures
        final(out)@ == old(out)@ + enc_u8(v),
{
    out.push(v);
    assert(out@ =~= old(out)@ + enc_u8(v));
}

pub fn write_u16(out: &mut Vec<u8>, e: Endian, v: u16)
    ensures
        final(out)@ == old(out)@ + enc_u16(e, v),
{
    match e {
        Endian::Little => {
            out.push((v & 0xff) as u8);
            out.push(((v >> 8u16) & 0xff) as u8);
        },
        Endian::Big => {
            out.push(((v >> 8u16) & 0xff) as u8);
            out.push((v & 0xff) as u8);
        },
    }
    assert(out@ =~= old(out)@ + enc_u16(e, v));
}

pub fn write_u32(out: &mut Vec<u8>, e: Endian, v: u32)
    ensures
        final(out)@ == old(out)@ + enc_u32(e, v),
{
    match e {
        Endian::Little => {
            out.push((v & 0xff) as u8);
            out.push(((v >> 8u32) & 0xff) as u8);
            out.push(((v >> 16u32) & 0xff) as u8);
            out.push(((v >> 24u32) & 0xff) as u8);
        },
        Endian::Big => {
            out.push(((v >> 24u32) & 0xff) as u8);
            out.push(((v >> 16u32) & 0xff) as u8);
            out.push(((v >> 8u32) & 0xff) as u8);
            out.push((v & 0xff) as u8);
        },
    }
    assert(out@ =~= old(out)@ + enc_u32(e, v));
}

/// Reading right after a prefix whose tail is this field's encoding yields
/// the field back and stops right after it.
pub proof fn lemma_rd_enc_u8(p: Seq<u8>, s: Seq<u8>, v: u8)
    ensures
        rd_u8(p + enc_u8(v) + s, p.len() as int) == Ok::<(u8, int), RenderBlockError>(
            (v, p.len() as int + 1),
        ),
{
    let b = p + enc_u8(v) + s;
    assert(b[p.len() as int] == v);
}

pub proof fn lemma_rd_enc_u16(p: Seq<u8>, s: Seq<u8>, e: Endian, v: u16)
    ensures
        rd_u16(p + enc_u16(e, v) + s, p.len() as int, e) == Ok::<(u16, int), RenderBlockError>(
            (v, p.len() as int + 2),
        ),
{
    let b = p + enc_u16(e, v) + s;
    let i = p.len() as int;
    assert(b[i] == enc_u16(e, v)[0]);
    assert(b[i + 1] == enc_u16(e, v)[1]);
    match e {
        Endian::Little => {
            assert(((v & 0xff) as u8 as u16) | ((((v >> 8) & 0xff) as u8 as u16) << 8) == v)
                by (bit_vector);
        },
        Endian::Big => {
            assert(((v & 0xff) as u8 as u16) | ((((v >> 8) & 0xff) as u8 as u16) << 8) == v)
                by (bit_vector);
        },
    }
}

pub proof fn lemma_rd_enc_u32(p: Seq<u8>, s: Seq<u8>, e: Endian, v: u32)
    ensures
        rd_u32(p + enc_u32(e, v) + s, p.len() as int, e) == Ok::<(u32, int), RenderBlockError>(
            (v, p.len() as int + 4),
        ),
{
    let b = p + enc_u32(e, v) + s;
    let i = p.len() as int;
    assert(b[i] == enc_u32(e, v)[0]);
    assert(b[i + 1] == enc_u32(e, v)[1]);
    assert(b[i + 2] == enc_u32(e, v)[2]);
    assert(b[i + 3] == enc_u32(e, v)[3]);
    assert(((v & 0xff) as u8 as u32) | ((((v >> 8) & 0xff) as u8 as u32) << 8) | ((((v >> 16)
        & 0xff) as u8 as u32) << 16) | ((((v >> 24) & 0xff) as u8 as u32) << 24) == v)
        by (bit_vector);
}

pub open spec fn enc_vec2(e: Endian, v: Vec2<u32>) -> Seq<u8> {
    enc_u32(e, v.x) + enc_u32(e, v.y)
}

pub open spec fn enc_vec3(e: Endian, v: Vec3<u32>) -> Seq<u8> {
    enc_u32(e, v.x) + enc_u32(e, v.y) + enc_u32(e, v.z)
}

pub open spec fn enc_vec4(e: Endian, v: Vec4<u32>) -> Seq<u8> {
    enc_vec2(e, Vec2 { x: v.x, y: v.y }) + enc_vec2(e, Vec2 { x: v.z, y: v.w })
}

pub open spec fn rd_vec2(b: Seq<u8>, i: int, e: Endian) -> Result<
    (Vec2<u32>, int),
    RenderBlockError,
> {
    match rd_u32(b, i, e) {
        Ok((x, i1)) => match rd_u32(b, i1, e) {
            Ok((y, i2)) => Ok((Vec2 { x, y }, i2)),
            Err(er) => Err(er),
        },
        Err(er) => Err(er),
    }
}

pub open spec fn rd_vec3(b: Seq<u8>, i: int, e: Endian) -> Result<
    (Vec3<u32>, int),
    RenderBlockError,
> {
    match rd_u32(b, i, e) {
        Ok((x, i1)) => match rd_u32(b, i1, e) {
            Ok((y, i2)) => match rd_u32(b, i2, e) {
                Ok((z, i3)) => Ok((Vec3 { x, y, z }, i3)),
                Err(er) => Err(er),
            },
            Err(er) => Err(er),
        },
        Err(er) => Err(er),
    }
}

pub open spec fn rd_vec4(b: Seq<u8>, i: int, e: Endian) -> Result<
    (Vec4<u32>, int),
    RenderBlockError,
> {
    match rd_vec2(b, i, e) {
        Ok((xy, i1)) => match rd_vec2(b, i1, e) {
            Ok((zw, i2)) => Ok((Vec4 { x: xy.x, y: xy.y, z: zw.x, w: zw.y }, i2)),
            Err(er) => Err(er),
        },
        Err(er) => Err(er),
    }
}

pub fn read_vec2(b: &Vec<u8>, i: usize, e: Endian) -> (r: Result<
    (Vec2<u32>, usize),
    RenderBlockError,
>)
    requires
        i <= b@.len(),
    ensures
        agrees(r, rd_vec2(b@, i as int, e)),
        r matches Ok((v, j)) ==> i <= j <= b@.len(),
{
    let (x, i1) = match read_u32(b, i, e) {
        Ok(p) => p,
        Err(er) => { return Err(er) },
    };
    let (y, i2) = match read_u32(b, i1, e) {
        Ok(p) => p,
        Err(er) => { return Err(er) },
    };
    Ok((Vec2 { x, y }, i2))
}

pub fn read_vec3(b: &Vec<u8>, i: usize, e: Endian) -> (r: Result<
    (Vec3<u32>, usize),
    RenderBlockError,
>)
    requires
        i <= b@.len(),
    ensures
        agrees(r, rd_vec3(b@, i as int, e)),
        r matches Ok((v, j)) ==> i <= j <= b@.len(),
{
    let (x, i1) = match read_u32(b, i, e) {
        Ok(p) => p,
        Err(er) => { return Err(er) },
    };
    let (y, i2) = match read_u32(b, i1, e) {
        Ok(p) => p,
        Err(er) => { return Err(er) },
    };
    let (z, i3) = match read_u32(b, i2, e) {
        Ok(p) => p,
        Err(er) => { return Err(er) },
    };
    Ok((Vec3 { x, y, z }, i3))
}

pub fn read_vec4(b: &Vec<u8>, i: usize, e: Endian) -> (r: Result<
    (Vec4<u32>, usize),
    RenderBlockError,
>)
    requires
        i <= b@.len(),
    ensures
        agrees(r, rd_vec4(b@, i as int, e)),
        r matches Ok((v, j)) ==> i <= j <= b@.len(),
{
    let (xy, i1) = match read_vec2(b, i, e) {
        Ok(p) => p,
        Err(er) => { return Err(er) },
    };
    let (zw, i2) = match read_vec2(b, i1, e) {
        Ok(p) => p,
        Err(er) => { return Err(er) },
    };
    Ok((Vec4 { x: xy.x, y: xy.y, z: zw.x, w: zw.y }, i2))
}

pub fn write_vec2(out: &mut Vec<u8>, e: Endian, v: Vec2<u32>)
    ensures
        final(out)@ == old(out)@ + enc_vec2(e, v),
{
    write_u32(out, e, v.x);
    write_u32(out, e, v.y);
    assert(out@ =~= old(out)@ + enc_vec2(e, v));
}

pub fn write_vec3(out: &mut Vec<u8>, e: Endian, v: Vec3<u32>)
    ensures
        final(out)@ == old(out)@ + enc_vec3(e, v),
{
    write_u32(out, e, v.x);
    write_u32(out, e, v.y);
    write_u32(out, e, v.z);
    assert(out@ =~= old(out)@ + enc_vec3(e, v));
}

pub fn write_vec4(out: &mut Vec<u8>, e: Endian, v: Vec4<u32>)
    ensures
        final(out)@ == old(out)@ + enc_vec4(e, v),
{
    write_vec2(out, e, Vec2 { x: v.x, y: v.y });
    write_vec2(out, e, Vec2 { x: v.z, y: v.w });
    assert(out@ =~= old(out)@ + enc_vec4(e, v));
}

pub proof fn lemma_rd_enc_vec2(p: Seq<u8>, s: Seq<u8>, e: Endian, v: Vec2<u32>)
    ensures
        rd_vec2(p + enc_vec2(e, v) + s, p.len() as int, e) == Ok::<
            (Vec2<u32>, int),
            RenderBlockError,
        >((v, p.len() as int + 8)),
{
    let ex = enc_u32(e, v.x);
    let ey = enc_u32(e, v.y);
    lemma_chain2(p, ex, ey, s);
    lemma_rd_enc_u32(p, ey + s, e, v.x);
    lemma_rd_enc_u32(p + ex, s, e, v.y);
}

pub proof fn lemma_rd_enc_vec3(p: Seq<u8>, s: Seq<u8>, e: Endian, v: Vec3<u32>)
    ensures
        rd_vec3(p + enc_vec3(e, v) + s, p.len() as int, e) == Ok::<
            (Vec3<u32>, int),
            RenderBlockError,
        >((v, p.len() as int + 12)),
{
    let ex = enc_u32(e, v.x);
    let ey = enc_u32(e, v.y);
    let ez = enc_u32(e, v.z);
    lemma_chain3(p, ex, ey, ez, s);
    lemma_rd_enc_u32(p, ey + (ez + s), e, v.x);
    lemma_rd_enc_u32(p + ex, ez + s, e, v.y);
    lemma_rd_enc_u32(p + ex + ey, s, e, v.z);
}

pub proof fn lemma_rd_enc_vec4(p: Seq<u8>, s: Seq<u8>, e: Endian, v: Vec4<u32>)
    ensures
        rd_vec4(p + enc_vec4(e, v) + s, p.len() as int, e) == Ok::<
            (Vec4<u32>, int),
            RenderBlockError,
        >((v, p.len() as int + 16)),
{
    let exy = enc_vec2(e, Vec2 { x: v.x, y: v.y });
    let ezw = enc_vec2(e, Vec2 { x: v.z, y: v.w });
    lemma_chain2(p, exy, ezw, s);
    lemma_rd_enc_vec2(p, ezw + s, e, Vec2 { x: v.x, y: v.y });
    lemma_rd_enc_vec2(p + exy, s, e, Vec2 { x: v.z, y: v.w });
}

} // verus!
