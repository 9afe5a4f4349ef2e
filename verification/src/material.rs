use vstd::prelude::*;
use crate::errors::RenderBlockError;
use crate::wire::{agrees, emits, enc_u32, enc_u8, rd_u32, rd_u8, read_u32, read_u8, write_u32,
    write_u8, Endian};

verus! {



/// How the index stream groups into drawable primitives. The triangle-fan
/// family is representable — the codec carries it through — but consumers
/// that must rasterize reject it.
#[derive(Clone, Copy, PartialEq, Eq, Structural, Debug)]
pub enum PrimitiveType {
    TriangleList,
    IndexedTriangleList,
    TriangleStrip,
    IndexedTriangleStrip,
    TriangleFan,
    IndexedTriangleFan,
    PointSprite,
    IndexedPointSprite,
    LineList,
}

/// The drawing mode an exporter assigns to a primitive topology.
#[derive(Clone, Copy, PartialEq, Eq, Structural, Debug)]
pub enum MeshMode {
    Triangles,
    TriangleStrip,
    TriangleFan,
    Lines,
    Points,
}

/// The topology a rasterizing renderer can draw directly; the triangle-fan
/// family has none.
#[derive(Clone, Copy, PartialEq, Eq, Structural, Debug)]
pub enum Topology {
    TriangleList,
    TriangleStrip,
    PointList,
    LineList,
}

pub open spec fn prim_tag(p: PrimitiveType) -> u8 {
    match p {
        PrimitiveType::TriangleList => 0,
        PrimitiveType::IndexedTriangleList => 1,
        PrimitiveType::TriangleStrip => 2,
        PrimitiveType::IndexedTriangleStrip => 3,
        PrimitiveType::TriangleFan => 4,
        PrimitiveType::IndexedTriangleFan => 5,
        PrimitiveType::PointSprite => 6,
        PrimitiveType::IndexedPointSprite => 7,
        PrimitiveType::LineList => 8,
    }
}

pub open spec fn prim_of_tag(t: u8) -> Option<PrimitiveType> {
    if t == 0 {
        Some(PrimitiveType::TriangleList)
    } else if t == 1 {
        Some(PrimitiveType::IndexedTriangleList)
    } else if t == 2 {
        Some(PrimitiveType::TriangleStrip)
    } else if t == 3 {
        Some(PrimitiveType::IndexedTriangleStrip)
    } else if t == 4 {
        Some(PrimitiveType::TriangleFan)
    } else if t == 5 {
        Some(PrimitiveType::IndexedTriangleFan)
    } else if t == 6 {
        Some(PrimitiveType::PointSprite)
    } else if t == 7 {
        Some(PrimitiveType::IndexedPointSprite)
    } else if t == 8 {
        Some(PrimitiveType::LineList)
    } else {
        None
    }
}

/// A material: the primitive topology and eight texture path slots. Paths
/// are carried as raw bytes; resolving them is a consumer's business.
#[derive(Clone, Debug, PartialEq, Eq)]
pub struct Material {
    pub primitive_type: PrimitiveType,
    pub textures: Vec<Vec<u8>>,
}

pub struct MaterialView {
    pub primitive_type: PrimitiveType,
    pub textures: Seq<Seq<u8>>,
}

impl View for Material {
    type V = MaterialView;

    open spec fn view(&self) -> MaterialView {
        MaterialView { primitive_type: self.primitive_type, textures: self.textures.deep_view() }
    }
}

impl MaterialView {
    /// What the wire format can carry: exactly eight texture slots, each
    /// with a length its 32-bit prefix can say.
    pub open spec fn wf(self) -> bool {
        &&& self.textures.len() == 8
        &&& forall|k: int| 0 <= k < 8 ==> #[trigger] self.textures[k].len() <= 0xFFFFFFFF
    }
}

impl Material {
    /// The export-style drawing mode; total over every topology.
    pub fn mesh_mode(&self) -> (r: MeshMode)
        ensures
            r == mesh_mode_of(self.primitive_type),
    {
        match self.primitive_type {
            PrimitiveType::TriangleList => MeshMode::Triangles,
            PrimitiveType::IndexedTriangleList => MeshMode::Triangles,
            PrimitiveType::TriangleStrip => MeshMode::TriangleStrip,
            PrimitiveType::IndexedTriangleStrip => MeshMode::TriangleStrip,
            PrimitiveType::TriangleFan => MeshMode::TriangleFan,
            PrimitiveType::IndexedTriangleFan => MeshMode::TriangleFan,
            PrimitiveType::PointSprite => MeshMode::Points,
            PrimitiveType::IndexedPointSprite => MeshMode::Points,
            PrimitiveType::LineList => MeshMode::Lines,
        }
    }

    /// The texture path slots, for consumers.
    pub fn textures(&self) -> (r: &Vec<Vec<u8>>)
        ensures
            r.deep_view() == self@.textures,
    {
        &self.textures
    }
}

pub open spec fn mesh_mode_of(p: PrimitiveType) -> MeshMode {
    match p {
        PrimitiveType::TriangleList => MeshMode::Triangles,
        PrimitiveType::IndexedTriangleList => MeshMode::Triangles,
        PrimitiveType::TriangleStrip => MeshMode::TriangleStrip,
        PrimitiveType::IndexedTriangleStrip => MeshMode::TriangleStrip,
        PrimitiveType::TriangleFan => MeshMode::TriangleFan,
        PrimitiveType::IndexedTriangleFan => MeshMode::TriangleFan,
        PrimitiveType::PointSprite => MeshMode::Points,
        PrimitiveType::IndexedPointSprite => MeshMode::Points,
        PrimitiveType::LineList => MeshMode::Lines,
    }
}

/// The rasterizer topology for a primitive, or the error a renderer
/// carries for the topologies it cannot draw — exactly the triangle-fan
/// family.
pub fn rasterize_topology(p: PrimitiveType) -> (r: Result<Topology, RenderBlockError>)
    ensures
        (match p {
            PrimitiveType::TriangleFan | PrimitiveType::IndexedTriangleFan => r == Err::<
                Topology,
                RenderBlockError,
            >(RenderBlockError::UnsupportedPrimitive { tag: prim_tag(p) }),
            PrimitiveType::TriangleList | PrimitiveType::IndexedTriangleList => r == Ok::<
                Topology,
                RenderBlockError,
            >(Topology::TriangleList),
            PrimitiveType::TriangleStrip | PrimitiveType::IndexedTriangleStrip => r == Ok::<
                Topology,
                RenderBlockError,
            >(Topology::TriangleStrip),
            PrimitiveType::PointSprite | PrimitiveType::IndexedPointSprite => r == Ok::<
                Topology,
                RenderBlockError,
            >(Topology::PointList),
            PrimitiveType::LineList => r == Ok::<Topology, RenderBlockError>(Topology::LineList),
        }),
{
    match p {
        PrimitiveType::TriangleList => Ok(Topology::TriangleList),
        PrimitiveType::IndexedTriangleList => Ok(Topology::TriangleList),
        PrimitiveType::TriangleStrip => Ok(Topology::TriangleStrip),
        PrimitiveType::IndexedTriangleStrip => Ok(Topology::TriangleStrip),
        PrimitiveType::TriangleFan => Err(
            RenderBlockError::UnsupportedPrimitive { tag: 4 },
        ),
        PrimitiveType::IndexedTriangleFan => Err(
            RenderBlockError::UnsupportedPrimitive { tag: 5 },
        ),
        PrimitiveType::PointSprite => Ok(Topology::PointList),
        PrimitiveType::IndexedPointSprite => Ok(Topology::PointList),
        PrimitiveType::LineList => Ok(Topology::LineList),
    }
}

/// One texture path: a 32-bit byte count, then that many path bytes.
pub open spec fn rd_texture(b: Seq<u8>, i: int, e: Endian) -> Result<
    (Seq<u8>, int),
    RenderBlockError,
> {
    match rd_u32(b, i, e) {
        Ok((n, j)) => if j + n <= b.len() {
            Ok((b.subrange(j, j + n), j + n))
        } else {
            Err(RenderBlockError::Truncated)
        },
        Err(er) => Err(er),
    }
}

pub open spec fn enc_texture(e: Endian, t: Seq<u8>) -> Result<Seq<u8>, RenderBlockError> {
    if t.len() > 0xFFFFFFFF {
        Err(RenderBlockError::LengthOverflow)
    } else {
        Ok(enc_u32(e, t.len() as u32) + t)
    }
}

#[verifier::opaque]
pub open spec fn rd_textures(b: Seq<u8>, i: int, e: Endian, k: nat, acc: Seq<Seq<u8>>) -> Result<
    (Seq<Seq<u8>>, int),
    RenderBlockError,
>
    decreases k,
{
    if k == 0 {
        Ok((acc, i))
    } else {
        match rd_texture(b, i, e) {
            Ok((t, j)) => rd_textures(b, j, e, (k - 1) as nat, acc.push(t)),
            Err(er) => Err(er),
        }
    }
}

#[verifier::opaque]
pub open spec fn enc_textures(ts: Seq<Seq<u8>>, e: Endian) -> Result<Seq<u8>, RenderBlockError>
    decreases ts.len(),
{
    if ts.len() == 0 {
        Ok(Seq::empty())
    } else {
        match enc_texture(e, ts[0]) {
            Ok(h) => match enc_textures(ts.drop_first(), e) {
                Ok(t) => Ok(h + t),
                Err(er) => Err(er),
            },
            Err(er) => Err(er),
        }
    }
}

/// A material record: the primitive tag, then the eight texture paths.
pub open spec fn rd_material(b: Seq<u8>, i: int, e: Endian) -> Result<
    (MaterialView, int),
    RenderBlockError,
> {
    match rd_u8(b, i) {
        Ok((tag, j)) => match prim_of_tag(tag) {
            Some(primitive_type) => match rd_textures(b, j, e, 8, Seq::empty()) {
                Ok((textures, k)) => Ok((MaterialView { primitive_type, textures }, k)),
                Err(er) => Err(er),
            },
            None => Err(RenderBlockError::UnsupportedPrimitive { tag }),
        },
        Err(er) => Err(er),
    }
}

/// Encoding a material fails on a slot list that is not exactly eight long,
/// or on a path longer than its count field can say.
pub open spec fn enc_material(e: Endian, m: MaterialView) -> Result<Seq<u8>, RenderBlockError> {
    if m.textures.len() != 8 {
        Err(RenderBlockError::InvalidArrayLength)
    } else {
        match enc_textures(m.textures, e) {
            Ok(body) => Ok(enc_u8(prim_tag(m.primitive_type)) + body),
            Err(er) => Err(er),
        }
    }
}

/// Copies `n` bytes starting at `i` into an owned buffer.
fn copy_range(b: &Vec<u8>, i: usize, n: usize) -> (r: Vec<u8>)
    requires
        i + n <= b@.len(),
    ensures
        r@ == b@.subrange(i as int, i as int + n as int),
{
    let blen = b.len();
    let mut r: Vec<u8> = Vec::new();
    let mut k: usize = 0;
    while k < n
        invariant
            i + n <= blen,
            blen == b@.len(),
            k <= n,
            r@ == b@.subrange(i as int, i as int + k as int),
        decreases n - k,
    {
        r.push(b[i + k]);
        assert(r@ =~= b@.subrange(i as int, i as int + (k + 1) as int));
        k = k + 1;
    }
    r
}

/// Appends every byte of `t`.
fn push_bytes(out: &mut Vec<u8>, t: &Vec<u8>)
    ensures
        final(out)@ == old(out)@ + t@,
{
    let mut k: usize = 0;
    while k < t.len()
        invariant
            k <= t@.len(),
            out@ == old(out)@ + t@.subrange(0, k as int),
        decreases t@.len() - k,
    {
        out.push(t[k]);
        assert(out@ =~= old(out)@ + t@.subrange(0, (k + 1) as int));
        k = k + 1;
    }
    assert(t@.subrange(0, t@.len() as int) =~= t@);
}

fn read_texture(b: &Vec<u8>, i: usize, e: Endian) -> (r: Result<(Vec<u8>, usize), RenderBlockError>)
    requires
        i <= b@.len(),
    ensures
        (match r {
            Ok((t, j)) => rd_texture(b@, i as int, e) == Ok::<(Seq<u8>, int), RenderBlockError>(
                (t@, j as int),
            ) && i <= j <= b@.len(),
            Err(er) => rd_texture(b@, i as int, e) == Err::<(Seq<u8>, int), RenderBlockError>(er),
        }),
{
    let (n, j) = match read_u32(b, i, e) {
        Ok(p) => p,
        Err(er) => { return Err(er) },
    };
    if n as u64 <= (b.len() - j) as u64 {
        let t = copy_range(b, j, n as usize);
        Ok((t, j + n as usize))
    } else {
        Err(RenderBlockError::Truncated)
    }
}

fn write_texture(out: &mut Vec<u8>, t: &Vec<u8>, e: Endian) -> (r: Result<(), RenderBlockError>)
    ensures
        emits(r, final(out)@, old(out)@, enc_texture(e, t@)),
{
    if t.len() as u64 > 0xFFFFFFFFu64 {
        return Err(RenderBlockError::LengthOverflow);
    }
    write_u32(out, e, t.len() as u32);
    push_bytes(out, t);
    assert(out@ =~= old(out)@ + (enc_u32(e, t@.len() as u32) + t@));
    Ok(())
}

pub fn read_material(b: &Vec<u8>, i: usize, e: Endian) -> (r: Result<
    (Material, usize),
    RenderBlockError,
>)
    requires
        i <= b@.len(),
    ensures
        (match r {
            Ok((m, j)) => rd_material(b@, i as int, e) == Ok::<(MaterialView, int),
                RenderBlockError>((m@, j as int)) && i <= j <= b@.len(),
            Err(er) => rd_material(b@, i as int, e) == Err::<(MaterialView, int),
                RenderBlockError>(er),
        }),
{
    let (tag, j) = match read_u8(b, i) {
        Ok(p) => p,
        Err(er) => { return Err(er) },
    };
    let primitive_type = match read_prim_of_tag(tag) {
        Some(p) => p,
        None => { return Err(RenderBlockError::UnsupportedPrimitive { tag }) },
    };
    let mut textures: Vec<Vec<u8>> = Vec::new();
    proof {
        reveal(rd_textures);
        assert(textures.deep_view() =~= Seq::<Seq<u8>>::empty());
    }
    let mut pos: usize = j;
    let mut k: u8 = 0;
    while k < 8
        invariant
            i <= pos <= b@.len(),
            k <= 8,
            rd_u8(b@, i as int) == Ok::<(u8, int), RenderBlockError>((tag, j as int)),
            prim_of_tag(tag) == Some(primitive_type),
            textures.deep_view().len() == k as nat,
            rd_textures(b@, j as int, e, 8, Seq::empty()) == rd_textures(
                b@,
                pos as int,
                e,
                (8 - k) as nat,
                textures.deep_view(),
            ),
        decreases 8 - k,
    {
        proof {
            reveal(rd_textures);
        }
        match read_texture(b, pos, e) {
            Ok((t, j2)) => {
                let ghost dv = textures.deep_view();
                let ghost tv = t@;
                proof {
                    assert(t.deep_view() =~= tv);
                }
                textures.push(t);
                proof {
                    assert(textures.deep_view() =~= dv.push(tv));
                }
                pos = j2;
                k = k + 1;
            },
            Err(er) => {
                proof {
                    assert(rd_texture(b@, pos as int, e) == Err::<(Seq<u8>, int), RenderBlockError>(
                        er,
                    ));
                    assert(rd_textures(b@, pos as int, e, (8 - k) as nat, textures.deep_view())
                        == Err::<(Seq<Seq<u8>>, int), RenderBlockError>(er));
                }
                return Err(er);
            },
        }
    }
    proof {
        reveal(rd_textures);
    }
    Ok((Material { primitive_type, textures }, pos))
}

pub fn write_material(out: &mut Vec<u8>, m: &Material, e: Endian) -> (r: Result<
    (),
    RenderBlockError,
>)
    ensures
        emits(r, final(out)@, old(out)@, enc_material(e, m@)),
{
    if m.textures.len() != 8 {
        return Err(RenderBlockError::InvalidArrayLength);
    }
    write_u8(out, prim_tag_exec(m.primitive_type));
    let ghost base = out@;
    let mut k: usize = 0;
    while k < m.textures.len()
        invariant
            m.textures@.len() == 8,
            k <= 8,
            out@ == base + partial_textures(m@.textures, e, k as int),
            enc_textures_ok_to(m@.textures, e, k as int),
        decreases m.textures@.len() - k,
    {
        let t = &m.textures[k];
        proof {
            assert(t@ == m@.textures[k as int]);
        }
        match write_texture(out, t, e) {
            Ok(u) => {
                proof {
                    lemma_enc_textures_step(m@.textures, e, k as int);
                    assert((base + partial_textures(m@.textures, e, k as int)) + (enc_u32(
                        e,
                        m@.textures[k as int].len() as u32,
                    ) + m@.textures[k as int]) =~= base + partial_textures(
                        m@.textures,
                        e,
                        k as int + 1,
                    ));
                }
            },
            Err(er) => {
                proof {
                    lemma_enc_textures_err(m@.textures, e, k as int, er);
                }
                return Err(er);
            },
        }
        k = k + 1;
    }
    proof {
        lemma_enc_textures_done(m@.textures, e);
        let body = enc_textures(m@.textures, e)->Ok_0;
        assert(base + body =~= old(out)@ + (enc_u8(prim_tag(m@.primitive_type)) + body));
    }
    Ok(())
}

/// The bytes of the first `k` texture slots, when each of them encodes.
pub open spec fn partial_textures(ts: Seq<Seq<u8>>, e: Endian, k: int) -> Seq<u8>
    decreases k,
{
    if k <= 0 {
        Seq::empty()
    } else {
        partial_textures(ts, e, k - 1) + enc_u32(e, ts[k - 1].len() as u32) + ts[k - 1]
    }
}

/// The first `k` texture slots all fit their count fields.
pub open spec fn enc_textures_ok_to(ts: Seq<Seq<u8>>, e: Endian, k: int) -> bool {
    forall|j: int| 0 <= j < k ==> #[trigger] ts[j].len() <= 0xFFFFFFFF
}

proof fn lemma_enc_textures_step(ts: Seq<Seq<u8>>, e: Endian, k: int)
    requires
        0 <= k < ts.len(),
        ts[k].len() <= 0xFFFFFFFF,
    ensures
        partial_textures(ts, e, k + 1) == partial_textures(ts, e, k) + enc_u32(
            e,
            ts[k].len() as u32,
        ) + ts[k],
{
    reveal(enc_textures);
}

/// When a slot overflows its count field, the whole texture list encoding
/// reports that error — provided the slots before it were fine.
proof fn lemma_enc_textures_err(ts: Seq<Seq<u8>>, e: Endian, k: int, er: RenderBlockError)
    requires
        0 <= k < ts.len(),
        enc_textures_ok_to(ts, e, k),
        enc_texture(e, ts[k]) == Err::<Seq<u8>, RenderBlockError>(er),
    ensures
        enc_textures(ts.skip(k), e) == Err::<Seq<u8>, RenderBlockError>(er),
        enc_textures(ts, e) == Err::<Seq<u8>, RenderBlockError>(er),
    decreases k,
{
    reveal(enc_textures);
    if k == 0 {
        assert(ts.skip(0) =~= ts);
        assert(ts[0].len() > 0xFFFFFFFF);
    } else {
        assert(ts.drop_first() =~= ts.skip(1));
        assert(ts.skip(1)[k - 1] == ts[k]);
        assert(enc_textures_ok_to(ts.skip(1), e, k - 1));
        lemma_enc_textures_err(ts.skip(1), e, k - 1, er);
        assert(ts.skip(1).skip(k - 1) =~= ts.skip(k));
        assert(ts[0].len() <= 0xFFFFFFFF);
    }
}

/// When every slot fits, the texture list encoding is the concatenation of
/// the slot encodings.
proof fn lemma_enc_textures_done_from(ts: Seq<Seq<u8>>, e: Endian, k: int)
    requires
        0 <= k <= ts.len(),
        enc_textures_ok_to(ts, e, ts.len() as int),
    ensures
        enc_textures(ts.skip(k), e) matches Ok(bytes) && partial_textures(ts, e, k) + bytes
            == partial_textures(ts, e, ts.len() as int),
    decreases ts.len() - k,
{
    reveal(enc_textures);
    if k == ts.len() {
        assert(ts.skip(k).len() == 0);
        assert(partial_textures(ts, e, k) + Seq::<u8>::empty() =~= partial_textures(ts, e, k));
    } else {
        lemma_enc_textures_done_from(ts, e, k + 1);
        assert(ts.skip(k)[0] == ts[k]);
        assert(ts.skip(k).drop_first() =~= ts.skip(k + 1));
        let h = enc_u32(e, ts[k].len() as u32) + ts[k];
        let rest = enc_textures(ts.skip(k + 1), e)->Ok_0;
        assert(enc_textures(ts.skip(k), e) == Ok::<Seq<u8>, RenderBlockError>(h + rest));
        assert(partial_textures(ts, e, k) + (h + rest) =~= (partial_textures(ts, e, k) + h)
            + rest);
        assert(partial_textures(ts, e, k) + h =~= partial_textures(ts, e, k + 1));
    }
}

proof fn lemma_enc_textures_done(ts: Seq<Seq<u8>>, e: Endian)
    requires
        enc_textures_ok_to(ts, e, ts.len() as int),
    ensures
        enc_textures(ts, e) matches Ok(bytes) && bytes == partial_textures(ts, e, ts.len() as int),
    decreases ts.len(),
{
    reveal(enc_textures);
    lemma_enc_textures_done_from(ts, e, 0);
    assert(ts.skip(0) =~= ts);
    let bytes = enc_textures(ts, e)->Ok_0;
    assert(Seq::<u8>::empty() + bytes =~= bytes);
}

fn prim_tag_exec(p: PrimitiveType) -> (r: u8)
    ensures
        r == prim_tag(p),
{
    match p {
        PrimitiveType::TriangleList => 0,
        PrimitiveType::IndexedTriangleList => 1,
        PrimitiveType::TriangleStrip => 2,
        PrimitiveType::IndexedTriangleStrip => 3,
        PrimitiveType::TriangleFan => 4,
        PrimitiveType::IndexedTriangleFan => 5,
        PrimitiveType::PointSprite => 6,
        PrimitiveType::IndexedPointSprite => 7,
        PrimitiveType::LineList => 8,
    }
}

fn read_prim_of_tag(t: u8) -> (r: Option<PrimitiveType>)
    ensures
        r == prim_of_tag(t),
{
    if t == 0 {
        Some(PrimitiveType::TriangleList)
    } else if t == 1 {
        Some(PrimitiveType::IndexedTriangleList)
    } else if t == 2 {
        Some(PrimitiveType::TriangleStrip)
    } else if t == 3 {
        Some(PrimitiveType::IndexedTriangleStrip)
    } else if t == 4 {
        Some(PrimitiveType::TriangleFan)
    } else if t == 5 {
        Some(PrimitiveType::IndexedTriangleFan)
    } else if t == 6 {
        Some(PrimitiveType::PointSprite)
    } else if t == 7 {
        Some(PrimitiveType::IndexedPointSprite)
    } else if t == 8 {
        Some(PrimitiveType::LineList)
    } else {
        None
    }
}

/// The primitive tag map is its own inverse: decoding an encoded tag gives
/// the topology back.
pub proof fn lemma_prim_tag_roundtrip(p: PrimitiveType)
    ensures
        prim_of_tag(prim_tag(p)) == Some(p),
{
}

/// Decoding an encoded texture path yields the path back.
pub proof fn lemma_rd_enc_texture(t: Seq<u8>, p: Seq<u8>, sfx: Seq<u8>, e: Endian)
    requires
        t.len() <= 0xFFFFFFFF,
    ensures
        enc_texture(e, t) == Ok::<Seq<u8>, RenderBlockError>(enc_u32(e, t.len() as u32) + t),
        rd_texture(p + (enc_u32(e, t.len() as u32) + t) + sfx, p.len() as int, e) == Ok::<
            (Seq<u8>, int),
            RenderBlockError,
        >((t, p.len() as int + 4 + t.len() as int)),
{
    let count = enc_u32(e, t.len() as u32);
    crate::wire::lemma_chain2(p, count, t, sfx);
    crate::wire::lemma_rd_enc_u32(p, t + sfx, e, t.len() as u32);
    crate::wire::lemma_cat_subrange(p + count, t, sfx);
}

/// A texture list whose slots all fit their count fields encodes.
proof fn lemma_enc_textures_is_ok(ts: Seq<Seq<u8>>, e: Endian)
    requires
        forall|k: int| 0 <= k < ts.len() ==> #[trigger] ts[k].len() <= 0xFFFFFFFF,
    ensures
        enc_textures(ts, e) is Ok,
    decreases ts.len(),
{
    reveal(enc_textures);
    if ts.len() > 0 {
        lemma_enc_textures_is_ok(ts.drop_first(), e);
    }
}

/// One step of the texture-list decoding argument.
#[verifier::spinoff_prover]
#[verifier::rlimit(100)]
proof fn lemma_rd_enc_textures_step(
    ts: Seq<Seq<u8>>,
    p: Seq<u8>,
    sfx: Seq<u8>,
    e: Endian,
    acc: Seq<Seq<u8>>,
)
    requires
        ts.len() > 0,
        forall|k: int| 0 <= k < ts.len() ==> #[trigger] ts[k].len() <= 0xFFFFFFFF,
    ensures
        enc_textures(ts.drop_first(), e) is Ok,
        enc_textures(ts, e) == Ok::<Seq<u8>, RenderBlockError>(
            (enc_u32(e, ts[0].len() as u32) + ts[0]) + enc_textures(ts.drop_first(), e)->Ok_0,
        ),
        p + ((enc_u32(e, ts[0].len() as u32) + ts[0]) + enc_textures(ts.drop_first(), e)->Ok_0)
            + sfx == (p + (enc_u32(e, ts[0].len() as u32) + ts[0])) + enc_textures(
            ts.drop_first(),
            e,
        )->Ok_0 + sfx,
        rd_textures(
            p + ((enc_u32(e, ts[0].len() as u32) + ts[0]) + enc_textures(
                ts.drop_first(),
                e,
            )->Ok_0) + sfx,
            p.len() as int,
            e,
            ts.len(),
            acc,
        ) == rd_textures(
            p + ((enc_u32(e, ts[0].len() as u32) + ts[0]) + enc_textures(
                ts.drop_first(),
                e,
            )->Ok_0) + sfx,
            p.len() as int + 4 + ts[0].len() as int,
            e,
            (ts.len() - 1) as nat,
            acc.push(ts[0]),
        ),
{
    reveal(enc_textures);
    reveal(rd_textures);
    lemma_enc_textures_is_ok(ts.drop_first(), e);
    let h = enc_u32(e, ts[0].len() as u32) + ts[0];
    let rest = enc_textures(ts.drop_first(), e)->Ok_0;
    crate::wire::lemma_chain2(p, h, rest, sfx);
    lemma_rd_enc_texture(ts[0], p, rest + sfx, e);
}

/// An empty texture list decodes to the accumulator unchanged.
proof fn lemma_rd_textures_zero(b: Seq<u8>, i: int, e: Endian, acc: Seq<Seq<u8>>)
    ensures
        rd_textures(b, i, e, 0, acc) == Ok::<(Seq<Seq<u8>>, int), RenderBlockError>((acc, i)),
        enc_textures(Seq::<Seq<u8>>::empty(), e) == Ok::<Seq<u8>, RenderBlockError>(
            Seq::<u8>::empty(),
        ),
{
    reveal(rd_textures);
    reveal(enc_textures);
}

/// Decoding an encoded texture list yields the paths back.
#[verifier::rlimit(100)]
pub proof fn lemma_rd_enc_textures(
    ts: Seq<Seq<u8>>,
    p: Seq<u8>,
    sfx: Seq<u8>,
    e: Endian,
    acc: Seq<Seq<u8>>,
)
    requires
        forall|k: int| 0 <= k < ts.len() ==> #[trigger] ts[k].len() <= 0xFFFFFFFF,
    ensures
        enc_textures(ts, e) matches Ok(bytes) && rd_textures(
            p + bytes + sfx,
            p.len() as int,
            e,
            ts.len(),
            acc,
        ) == Ok::<(Seq<Seq<u8>>, int), RenderBlockError>(
            (acc + ts, (p.len() + bytes.len()) as int),
        ),
    decreases ts.len(),
{
    if ts.len() == 0 {
        lemma_rd_textures_zero(p + Seq::<u8>::empty() + sfx, p.len() as int, e, acc);
        assert(acc + ts =~= acc);
        assert(ts =~= Seq::<Seq<u8>>::empty());
    } else {
        lemma_rd_enc_textures_step(ts, p, sfx, e, acc);
        let h = enc_u32(e, ts[0].len() as u32) + ts[0];
        lemma_rd_enc_textures(ts.drop_first(), p + h, sfx, e, acc.push(ts[0]));
        assert(acc.push(ts[0]) + ts.drop_first() =~= acc + ts);
    }
}

/// Decoding an encoded material yields the material back.
pub proof fn lemma_rd_enc_material(m: MaterialView, p: Seq<u8>, sfx: Seq<u8>, e: Endian)
    requires
        m.wf(),
    ensures
        enc_material(e, m) matches Ok(bytes) && rd_material(p + bytes + sfx, p.len() as int, e)
            == Ok::<(MaterialView, int), RenderBlockError>(
            (m, (p.len() + bytes.len()) as int),
        ),
{
    lemma_prim_tag_roundtrip(m.primitive_type);
    let tag = enc_u8(prim_tag(m.primitive_type));
    lemma_rd_enc_textures(m.textures, p + tag, sfx, e, Seq::empty());
    let body = enc_textures(m.textures, e)->Ok_0;
    crate::wire::lemma_chain2(p, tag, body, sfx);
    crate::wire::lemma_rd_enc_u8(p, body + sfx, prim_tag(m.primitive_type));
    assert(Seq::<Seq<u8>>::empty() + m.textures =~= m.textures);
    assert(m == (MaterialView { primitive_type: m.primitive_type, textures: m.textures }));
}

/// A sound material always encodes.
#[verifier::spinoff_prover]
#[verifier::rlimit(100)]
pub proof fn lemma_enc_material_ok(m: MaterialView, e: Endian)
    requires
        m.wf(),
    ensures
        enc_material(e, m) is Ok,
{
    lemma_rd_enc_material(m, Seq::empty(), Seq::empty(), e);
}

} // verus!

