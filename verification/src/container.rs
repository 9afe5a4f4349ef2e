use vstd::prelude::*;
use crate::blocks::dispatch::{enc_block, lemma_rd_enc_block, rd_block, read_block, write_block,
    RenderBlock, RenderBlockView};
use crate::errors::RenderBlockError;
use crate::math::Vec3;
use crate::wire::{enc_u32, enc_vec3, lemma_rd_enc_u32, lemma_rd_enc_vec3, rd_u32, rd_vec3,
    read_u32, read_vec3, write_u32, write_vec3, Endian};

verus! {

/// The four marker bytes that open every container and name its byte
/// order; everything after them is read under that order.
pub open spec fn marker_bytes(e: Endian) -> Seq<u8> {
    match e {
        Endian::Little => seq![5u8, 0u8, 0u8, 0u8],
        Endian::Big => seq![0u8, 0u8, 0u8, 5u8],
    }
}

/// The five signature bytes after the marker, the letters R B M D L.
pub open spec fn magic_bytes() -> Seq<u8> {
    seq![82u8, 66u8, 77u8, 68u8, 76u8]
}

/// The whole decoded container: byte order, version triple, bounding box
/// and the ordered block list. Bounds are raw float bit patterns with no
/// ordering invariant — they pass through untouched.
#[derive(Clone, Debug, PartialEq, Eq)]
pub struct RenderBlockModel {
    pub endian: Endian,
    pub version: Vec3<u32>,
    pub min: Vec3<u32>,
    pub max: Vec3<u32>,
    pub blocks: Vec<RenderBlock>,
}

pub struct RenderBlockModelView {
    pub endian: Endian,
    pub version: Vec3<u32>,
    pub min: Vec3<u32>,
    pub max: Vec3<u32>,
    pub blocks: Seq<RenderBlockView>,
}

pub open spec fn blocks_view(v: Seq<RenderBlock>) -> Seq<RenderBlockView> {
    v.map_values(|x: RenderBlock| x@)
}

impl View for RenderBlockModel {
    type V = RenderBlockModelView;

    open spec fn view(&self) -> RenderBlockModelView {
        RenderBlockModelView {
            endian: self.endian,
            version: self.version,
            min: self.min,
            max: self.max,
            blocks: blocks_view(self.blocks@),
        }
    }
}

impl RenderBlockModelView {
    /// What the format supports and can reproduce: the one supported
    /// version line, a block count that fits its field, and sound blocks.
    pub open spec fn wf(self) -> bool {
        &&& self.version.x == 1
        &&& self.version.y == 13
        &&& self.blocks.len() <= 0xFFFFFFFF
        &&& forall|k: int| 0 <= k < self.blocks.len() ==> (#[trigger] self.blocks[k]).wf()
    }

    /// The same container under the other byte order; nothing but the
    /// marker and the byte order of every field changes.
    pub open spec fn with_endian(self, e: Endian) -> RenderBlockModelView {
        RenderBlockModelView {
            endian: e,
            version: self.version,
            min: self.min,
            max: self.max,
            blocks: self.blocks,
        }
    }
}

/// The endianness marker: two legal patterns, anything else is a malformed
/// header; a stream shorter than the marker is truncated.
pub open spec fn rd_marker(b: Seq<u8>) -> Result<Endian, RenderBlockError> {
    if b.len() < 4 {
        Err(RenderBlockError::Truncated)
    } else if b[0] == 5 && b[1] == 0 && b[2] == 0 && b[3] == 0 {
        Ok(Endian::Little)
    } else if b[0] == 0 && b[1] == 0 && b[2] == 0 && b[3] == 5 {
        Ok(Endian::Big)
    } else {
        Err(RenderBlockError::MalformedHeader)
    }
}

/// The signature after the marker.
pub open spec fn rd_magic(b: Seq<u8>) -> Result<int, RenderBlockError> {
    if b.len() < 9 {
        Err(RenderBlockError::Truncated)
    } else if b[4] == 82 && b[5] == 66 && b[6] == 77 && b[7] == 68 && b[8] == 76 {
        Ok(9)
    } else {
        Err(RenderBlockError::MalformedHeader)
    }
}

#[verifier::opaque]
pub open spec fn rd_blocks(
    b: Seq<u8>,
    i: int,
    e: Endian,
    n: nat,
    acc: Seq<RenderBlockView>,
) -> Result<(Seq<RenderBlockView>, int), RenderBlockError>
    decreases n,
{
    if n == 0 {
        Ok((acc, i))
    } else {
        match rd_block(b, i, e) {
            Ok((v, j)) => rd_blocks(b, j, e, (n - 1) as nat, acc.push(v)),
            Err(er) => Err(er),
        }
    }
}

#[verifier::opaque]
pub open spec fn enc_blocks(s: Seq<RenderBlockView>, e: Endian) -> Result<
    Seq<u8>,
    RenderBlockError,
>
    decreases s.len(),
{
    if s.len() == 0 {
        Ok(Seq::empty())
    } else {
        match enc_block(e, s[0]) {
            Ok(h) => match enc_blocks(s.drop_first(), e) {
                Ok(t) => Ok(h + t),
                Err(er) => Err(er),
            },
            Err(er) => Err(er),
        }
    }
}

/// A whole container: marker, signature, version triple (gated to the one
/// supported line), bounding box, block count, then the blocks. Bytes past
/// the counted blocks are ignored.
#[verifier::opaque]
pub open spec fn rd_model(b: Seq<u8>) -> Result<RenderBlockModelView, RenderBlockError> {
    match rd_marker(b) {
        Ok(endian) => match rd_magic(b) {
            Ok(i9) => match rd_vec3(b, 9, endian) {
                Ok((version, i21)) => if !(version.x == 1 && version.y == 13) {
                    Err(
                        RenderBlockError::UnsupportedVersion {
                            major: version.x,
                            minor: version.y,
                            patch: version.z,
                        },
                    )
                } else {
                    match rd_vec3(b, i21, endian) {
                        Ok((mn, i33)) => match rd_vec3(b, i33, endian) {
                            Ok((mx, i45)) => match rd_u32(b, i45, endian) {
                                Ok((n, i49)) => match rd_blocks(
                                    b,
                                    i49,
                                    endian,
                                    n as nat,
                                    Seq::empty(),
                                ) {
                                    Ok((blocks, end)) => Ok(
                                        RenderBlockModelView {
                                            endian,
                                            version,
                                            min: mn,
                                            max: mx,
                                            blocks,
                                        },
                                    ),
                                    Err(er) => Err(er),
                                },
                                Err(er) => Err(er),
                            },
                            Err(er) => Err(er),
                        },
                        Err(er) => Err(er),
                    }
                },
                Err(er) => Err(er),
            },
            Err(er) => Err(er),
        },
        Err(er) => Err(er),
    }
}

/// Encoding re-derives the marker and signature from the target
/// configuration; a version off the supported line is refused before a
/// byte is produced, exactly as decoding refuses it.
pub open spec fn enc_model(c: RenderBlockModelView) -> Result<Seq<u8>, RenderBlockError> {
    if !(c.version.x == 1 && c.version.y == 13) {
        Err(
            RenderBlockError::UnsupportedVersion {
                major: c.version.x,
                minor: c.version.y,
                patch: c.version.z,
            },
        )
    } else if c.blocks.len() > 0xFFFFFFFF {
        Err(RenderBlockError::LengthOverflow)
    } else {
        match enc_blocks(c.blocks, c.endian) {
            Ok(bs) => Ok(
                marker_bytes(c.endian) + magic_bytes() + enc_vec3(c.endian, c.version) + enc_vec3(
                    c.endian,
                    c.min,
                ) + enc_vec3(c.endian, c.max) + enc_u32(c.endian, c.blocks.len() as u32) + bs,
            ),
            Err(er) => Err(er),
        }
    }
}

impl RenderBlockModel {
    /// Decodes a whole container from bytes; either the full tree comes
    /// back or the first failure in stream order does.
    #[verifier::spinoff_prover]
    #[verifier::rlimit(100)]
    pub fn decode(b: &Vec<u8>) -> (r: Result<RenderBlockModel, RenderBlockError>)
        ensures
            (match r {
                Ok(m) => rd_model(b@) == Ok::<RenderBlockModelView, RenderBlockError>(m@),
                Err(er) => rd_model(b@) == Err::<RenderBlockModelView, RenderBlockError>(er),
            }),
    {
        proof {
            reveal(rd_model);
        }
        if b.len() < 4 {
            return Err(RenderBlockError::Truncated);
        }
        let endian = if b[0] == 5 && b[1] == 0 && b[2] == 0 && b[3] == 0 {
            Endian::Little
        } else if b[0] == 0 && b[1] == 0 && b[2] == 0 && b[3] == 5 {
            Endian::Big
        } else {
            return Err(RenderBlockError::MalformedHeader);
        };
        if b.len() < 9 {
            return Err(RenderBlockError::Truncated);
        }
        if !(b[4] == 82 && b[5] == 66 && b[6] == 77 && b[7] == 68 && b[8] == 76) {
            return Err(RenderBlockError::MalformedHeader);
        }
        let (version, i21) = match read_vec3(b, 9, endian) {
            Ok(p) => p,
            Err(er) => { return Err(er) },
        };
        if !(version.x == 1 && version.y == 13) {
            return Err(
                RenderBlockError::UnsupportedVersion {
                    major: version.x,
                    minor: version.y,
                    patch: version.z,
                },
            );
        }
        let (mn, i33) = match read_vec3(b, i21, endian) {
            Ok(p) => p,
            Err(er) => { return Err(er) },
        };
        let (mx, i45) = match read_vec3(b, i33, endian) {
            Ok(p) => p,
            Err(er) => { return Err(er) },
        };
        let (n, i49) = match read_u32(b, i45, endian) {
            Ok(p) => p,
            Err(er) => { return Err(er) },
        };
        let mut blocks: Vec<RenderBlock> = Vec::new();
        proof {
            reveal(rd_blocks);
            assert(blocks_view(blocks@) =~= Seq::<RenderBlockView>::empty());
        }
        let mut pos: usize = i49;
        let mut k: u32 = 0;
        while k < n
            invariant
                pos <= b@.len(),
                k <= n,
                rd_marker(b@) == Ok::<Endian, RenderBlockError>(endian),
                rd_magic(b@) == Ok::<int, RenderBlockError>(9),
                rd_vec3(b@, 9, endian) == Ok::<(Vec3<u32>, int), RenderBlockError>(
                    (version, i21 as int),
                ),
                version.x == 1 && version.y == 13,
                rd_vec3(b@, i21 as int, endian) == Ok::<(Vec3<u32>, int), RenderBlockError>(
                    (mn, i33 as int),
                ),
                rd_vec3(b@, i33 as int, endian) == Ok::<(Vec3<u32>, int), RenderBlockError>(
                    (mx, i45 as int),
                ),
                rd_u32(b@, i45 as int, endian) == Ok::<(u32, int), RenderBlockError>(
                    (n, i49 as int),
                ),
                blocks_view(blocks@).len() == k as nat,
                rd_blocks(b@, i49 as int, endian, n as nat, Seq::empty()) == rd_blocks(
                    b@,
                    pos as int,
                    endian,
                    (n - k) as nat,
                    blocks_view(blocks@),
                ),
            decreases n - k,
        {
            proof {
                reveal(rd_blocks);
            }
            match read_block(b, pos, endian) {
                Ok((v, j)) => {
                    let ghost bv = blocks_view(blocks@);
                    let ghost vv = v@;
                    blocks.push(v);
                    proof {
                        assert(blocks_view(blocks@) =~= bv.push(vv));
                    }
                    pos = j;
                    k = k + 1;
                },
                Err(er) => {
                    proof {
                        reveal(rd_blocks);
                        reveal(rd_model);
                    }
                    return Err(er);
                },
            }
        }
        proof {
            reveal(rd_blocks);
            reveal(rd_model);
        }
        Ok(RenderBlockModel { endian, version, min: mn, max: mx, blocks })
    }

    /// Encodes a whole container to bytes; on failure the partial buffer is
    /// discarded and only the first offending value in stream order is
    /// reported.
    #[verifier::spinoff_prover]
    #[verifier::rlimit(100)]
    pub fn encode(&self) -> (r: Result<Vec<u8>, RenderBlockError>)
        ensures
            (match r {
                Ok(v) => enc_model(self@) == Ok::<Seq<u8>, RenderBlockError>(v@),
                Err(er) => enc_model(self@) == Err::<Seq<u8>, RenderBlockError>(er),
            }),
    {
        if !(self.version.x == 1 && self.version.y == 13) {
            return Err(
                RenderBlockError::UnsupportedVersion {
                    major: self.version.x,
                    minor: self.version.y,
                    patch: self.version.z,
                },
            );
        }
        let n = self.blocks.len();
        if n as u64 > 0xFFFFFFFFu64 {
            return Err(RenderBlockError::LengthOverflow);
        }
        let e = self.endian;
        let mut out: Vec<u8> = Vec::new();
        match e {
            Endian::Little => {
                out.push(5);
                out.push(0);
                out.push(0);
                out.push(0);
            },
            Endian::Big => {
                out.push(0);
                out.push(0);
                out.push(0);
                out.push(5);
            },
        }
        out.push(82);
        out.push(66);
        out.push(77);
        out.push(68);
        out.push(76);
        proof {
            assert(out@ =~= marker_bytes(e) + magic_bytes());
        }
        write_vec3(&mut out, e, self.version);
        write_vec3(&mut out, e, self.min);
        write_vec3(&mut out, e, self.max);
        write_u32(&mut out, e, n as u32);
        let ghost base = out@;
        proof {
            reveal(enc_blocks);
            assert(partial_blocks(self@.blocks, e, 0) =~= Seq::<u8>::empty());
            assert(out@ =~= base + partial_blocks(self@.blocks, e, 0));
        }
        let mut k: usize = 0;
        while k < n
            invariant
                self@.version.x == 1 && self@.version.y == 13,
                self@.version == self.version,
                self@.min == self.min,
                self@.max == self.max,
                n == self@.blocks.len(),
                n == self.blocks@.len(),
                n <= 0xFFFFFFFF,
                k <= n,
                e == self@.endian,
                self@.blocks == blocks_view(self.blocks@),
                out@ == base + partial_blocks(self@.blocks, e, k as int),
                enc_blocks_ok_to(self@.blocks, e, k as int),
            decreases n - k,
        {
            let x = &self.blocks[k];
            proof {
                assert(x@ == self@.blocks[k as int]);
            }
            match write_block(&mut out, x, e) {
                Ok(u) => {
                    proof {
                        lemma_partial_blocks_step(self@.blocks, e, k as int);
                        assert((base + partial_blocks(self@.blocks, e, k as int)) + enc_block(
                            e,
                            self@.blocks[k as int],
                        )->Ok_0 =~= base + partial_blocks(self@.blocks, e, k as int + 1));
                    }
                },
                Err(er) => {
                    proof {
                        lemma_enc_blocks_err(self@.blocks, e, k as int, er);
                    }
                    return Err(er);
                },
            }
            k = k + 1;
        }
        proof {
            lemma_enc_blocks_done(self@.blocks, e);
            let bs = enc_blocks(self@.blocks, e)->Ok_0;
            assert(base + bs =~= marker_bytes(e) + magic_bytes() + enc_vec3(e, self@.version)
                + enc_vec3(e, self@.min) + enc_vec3(e, self@.max) + enc_u32(
                e,
                self@.blocks.len() as u32,
            ) + bs);
        }
        Ok(out)
    }
}

/// The bytes of the first `k` blocks, when each of them encodes.
pub open spec fn partial_blocks(s: Seq<RenderBlockView>, e: Endian, k: int) -> Seq<u8>
    decreases k,
{
    if k <= 0 {
        Seq::empty()
    } else {
        partial_blocks(s, e, k - 1) + enc_block(e, s[k - 1])->Ok_0
    }
}

pub open spec fn enc_blocks_ok_to(s: Seq<RenderBlockView>, e: Endian, k: int) -> bool {
    forall|j: int| 0 <= j < k ==> (#[trigger] enc_block(e, s[j])) is Ok
}

proof fn lemma_partial_blocks_step(s: Seq<RenderBlockView>, e: Endian, k: int)
    requires
        0 <= k < s.len(),
    ensures
        partial_blocks(s, e, k + 1) == partial_blocks(s, e, k) + enc_block(e, s[k])->Ok_0,
{
}

/// When a block refuses to encode, the whole list reports that error —
/// provided the blocks before it were fine.
proof fn lemma_enc_blocks_err(s: Seq<RenderBlockView>, e: Endian, k: int, er: RenderBlockError)
    requires
        0 <= k < s.len(),
        enc_blocks_ok_to(s, e, k),
        enc_block(e, s[k]) == Err::<Seq<u8>, RenderBlockError>(er),
    ensures
        enc_blocks(s.skip(k), e) == Err::<Seq<u8>, RenderBlockError>(er),
        enc_blocks(s, e) == Err::<Seq<u8>, RenderBlockError>(er),
    decreases k,
{
    reveal(enc_blocks);
    if k == 0 {
        assert(s.skip(0) =~= s);
    } else {
        assert(s.drop_first() =~= s.skip(1));
        assert(s.skip(1)[k - 1] == s[k]);
        assert(enc_blocks_ok_to(s.skip(1), e, k - 1));
        lemma_enc_blocks_err(s.skip(1), e, k - 1, er);
        assert(s.skip(1).skip(k - 1) =~= s.skip(k));
    }
}

/// When every block encodes, the list's bytes are the concatenation of the
/// block encodings.
#[verifier::spinoff_prover]
#[verifier::rlimit(100)]
proof fn lemma_enc_blocks_done_from(s: Seq<RenderBlockView>, e: Endian, k: int)
    requires
        0 <= k <= s.len(),
        enc_blocks_ok_to(s, e, s.len() as int),
    ensures
        enc_blocks(s.skip(k), e) matches Ok(bytes) && partial_blocks(s, e, k) + bytes
            == partial_blocks(s, e, s.len() as int),
    decreases s.len() - k,
{
    reveal(enc_blocks);
    if k == s.len() {
        assert(s.skip(k).len() == 0);
        assert(partial_blocks(s, e, k) + Seq::<u8>::empty() =~= partial_blocks(s, e, k));
    } else {
        lemma_enc_blocks_done_from(s, e, k + 1);
        assert(s.skip(k)[0] == s[k]);
        assert(s.skip(k).drop_first() =~= s.skip(k + 1));
        let h = enc_block(e, s[k])->Ok_0;
        let rest = enc_blocks(s.skip(k + 1), e)->Ok_0;
        assert(enc_blocks(s.skip(k), e) == Ok::<Seq<u8>, RenderBlockError>(h + rest));
        assert(partial_blocks(s, e, k) + (h + rest) =~= (partial_blocks(s, e, k) + h) + rest);
        assert(partial_blocks(s, e, k) + h =~= partial_blocks(s, e, k + 1));
    }
}

proof fn lemma_enc_blocks_done(s: Seq<RenderBlockView>, e: Endian)
    requires
        enc_blocks_ok_to(s, e, s.len() as int),
    ensures
        enc_blocks(s, e) matches Ok(bytes) && bytes == partial_blocks(s, e, s.len() as int),
{
    lemma_enc_blocks_done_from(s, e, 0);
    assert(s.skip(0) =~= s);
    let bytes = enc_blocks(s, e)->Ok_0;
    assert(Seq::<u8>::empty() + bytes =~= bytes);
}

/// One step of the block-list decoding argument.
#[verifier::spinoff_prover]
#[verifier::rlimit(100)]
proof fn lemma_rd_enc_blocks_step(
    s: Seq<RenderBlockView>,
    p: Seq<u8>,
    sfx: Seq<u8>,
    e: Endian,
    acc: Seq<RenderBlockView>,
)
    requires
        s.len() > 0,
        forall|k: int| 0 <= k < s.len() ==> (#[trigger] s[k]).wf(),
    ensures
        enc_block(e, s[0]) is Ok,
        enc_blocks(s.drop_first(), e) is Ok,
        enc_blocks(s, e) == Ok::<Seq<u8>, RenderBlockError>(
            enc_block(e, s[0])->Ok_0 + enc_blocks(s.drop_first(), e)->Ok_0,
        ),
        p + (enc_block(e, s[0])->Ok_0 + enc_blocks(s.drop_first(), e)->Ok_0) + sfx == (p
            + enc_block(e, s[0])->Ok_0) + enc_blocks(s.drop_first(), e)->Ok_0 + sfx,
        rd_blocks(
            p + (enc_block(e, s[0])->Ok_0 + enc_blocks(s.drop_first(), e)->Ok_0) + sfx,
            p.len() as int,
            e,
            s.len(),
            acc,
        ) == rd_blocks(
            p + (enc_block(e, s[0])->Ok_0 + enc_blocks(s.drop_first(), e)->Ok_0) + sfx,
            p.len() as int + enc_block(e, s[0])->Ok_0.len(),
            e,
            (s.len() - 1) as nat,
            acc.push(s[0]),
        ),
{
    reveal(enc_blocks);
    reveal(rd_blocks);
    lemma_enc_blocks_is_ok(s.drop_first(), e);
    lemma_rd_enc_block(s[0], p, enc_blocks(s.drop_first(), e)->Ok_0 + sfx, e);
    let h = enc_block(e, s[0])->Ok_0;
    let rest = enc_blocks(s.drop_first(), e)->Ok_0;
    crate::wire::lemma_chain2(p, h, rest, sfx);
}

proof fn lemma_enc_blocks_is_ok(s: Seq<RenderBlockView>, e: Endian)
    requires
        forall|k: int| 0 <= k < s.len() ==> (#[trigger] s[k]).wf(),
    ensures
        enc_blocks(s, e) is Ok,
    decreases s.len(),
{
    reveal(enc_blocks);
    if s.len() > 0 {
        lemma_rd_enc_block(s[0], Seq::empty(), Seq::empty(), e);
        lemma_enc_blocks_is_ok(s.drop_first(), e);
    }
}

proof fn lemma_rd_blocks_zero(b: Seq<u8>, i: int, e: Endian, acc: Seq<RenderBlockView>)
    ensures
        rd_blocks(b, i, e, 0, acc) == Ok::<(Seq<RenderBlockView>, int), RenderBlockError>(
            (acc, i),
        ),
        enc_blocks(Seq::<RenderBlockView>::empty(), e) == Ok::<Seq<u8>, RenderBlockError>(
            Seq::<u8>::empty(),
        ),
{
    reveal(rd_blocks);
    reveal(enc_blocks);
}

/// Decoding an encoded block list yields the blocks back.
#[verifier::rlimit(100)]
pub proof fn lemma_rd_enc_blocks(
    s: Seq<RenderBlockView>,
    p: Seq<u8>,
    sfx: Seq<u8>,
    e: Endian,
    acc: Seq<RenderBlockView>,
)
    requires
        forall|k: int| 0 <= k < s.len() ==> (#[trigger] s[k]).wf(),
    ensures
        enc_blocks(s, e) matches Ok(bytes) && rd_blocks(
            p + bytes + sfx,
            p.len() as int,
            e,
            s.len(),
            acc,
        ) == Ok::<(Seq<RenderBlockView>, int), RenderBlockError>(
            (acc + s, (p.len() + bytes.len()) as int),
        ),
    decreases s.len(),
{
    if s.len() == 0 {
        lemma_rd_blocks_zero(p + Seq::<u8>::empty() + sfx, p.len() as int, e, acc);
        assert(acc + s =~= acc);
        assert(s =~= Seq::<RenderBlockView>::empty());
    } else {
        lemma_rd_enc_blocks_step(s, p, sfx, e, acc);
        let h = enc_block(e, s[0])->Ok_0;
        lemma_rd_enc_blocks(s.drop_first(), p + h, sfx, e, acc.push(s[0]));
        assert(acc.push(s[0]) + s.drop_first() =~= acc + s);
    }
}

/// The full encoded container byte string, with the block bytes resolved.
pub open spec fn model_bytes(c: RenderBlockModelView, bs: Seq<u8>) -> Seq<u8> {
    marker_bytes(c.endian) + magic_bytes() + enc_vec3(c.endian, c.version) + enc_vec3(
        c.endian,
        c.min,
    ) + enc_vec3(c.endian, c.max) + enc_u32(c.endian, c.blocks.len() as u32) + bs
}

/// The marker and signature facts of an encoded container.
#[verifier::spinoff_prover]
#[verifier::rlimit(100)]
proof fn lemma_model_fact_header(c: RenderBlockModelView, bs: Seq<u8>, b: Seq<u8>)
    requires
        b == model_bytes(c, bs),
    ensures
        rd_marker(b) == Ok::<Endian, RenderBlockError>(c.endian),
        rd_magic(b) == Ok::<int, RenderBlockError>(9),
{
    assert(b.len() >= 9);
    assert(b[0] == marker_bytes(c.endian)[0]);
    assert(b[1] == marker_bytes(c.endian)[1]);
    assert(b[2] == marker_bytes(c.endian)[2]);
    assert(b[3] == marker_bytes(c.endian)[3]);
    assert(b[4] == 82);
    assert(b[5] == 66);
    assert(b[6] == 77);
    assert(b[7] == 68);
    assert(b[8] == 76);
}

/// The version-triple fact of an encoded container.
#[verifier::spinoff_prover]
#[verifier::rlimit(100)]
proof fn lemma_model_fact_version(c: RenderBlockModelView, bs: Seq<u8>, b: Seq<u8>)
    requires
        b == model_bytes(c, bs),
    ensures
        rd_vec3(b, 9, c.endian) == Ok::<(Vec3<u32>, int), RenderBlockError>((c.version, 21)),
{
    let emp = Seq::<u8>::empty();
    let e = c.endian;
    let c0 = marker_bytes(e);
    let c1 = magic_bytes();
    let c2 = enc_vec3(e, c.version);
    let c3 = enc_vec3(e, c.min);
    let c4 = enc_vec3(e, c.max);
    let c5 = enc_u32(e, c.blocks.len() as u32);
    assert(c0.len() == 4);
    assert(c1.len() == 5);
    assert(c2.len() == 12);
    assert(c3.len() == 12);
    assert(c4.len() == 12);
    assert(c5.len() == 4);
    crate::wire::lemma_chain7(emp, c0, c1, c2, c3, c4, c5, bs, emp);
    assert(emp + (c0 + c1 + c2 + c3 + c4 + c5 + bs) + emp =~= b);
    lemma_rd_enc_vec3(emp + c0 + c1, c3 + (c4 + (c5 + (bs + emp))), e, c.version);
}

/// The minimum-corner fact of an encoded container.
#[verifier::spinoff_prover]
#[verifier::rlimit(100)]
proof fn lemma_model_fact_min(c: RenderBlockModelView, bs: Seq<u8>, b: Seq<u8>)
    requires
        b == model_bytes(c, bs),
    ensures
        rd_vec3(b, 21, c.endian) == Ok::<(Vec3<u32>, int), RenderBlockError>((c.min, 33)),
{
    let emp = Seq::<u8>::empty();
    let e = c.endian;
    let c0 = marker_bytes(e);
    let c1 = magic_bytes();
    let c2 = enc_vec3(e, c.version);
    let c3 = enc_vec3(e, c.min);
    let c4 = enc_vec3(e, c.max);
    let c5 = enc_u32(e, c.blocks.len() as u32);
    assert(c0.len() == 4);
    assert(c1.len() == 5);
    assert(c2.len() == 12);
    assert(c3.len() == 12);
    assert(c4.len() == 12);
    assert(c5.len() == 4);
    crate::wire::lemma_chain7(emp, c0, c1, c2, c3, c4, c5, bs, emp);
    assert(emp + (c0 + c1 + c2 + c3 + c4 + c5 + bs) + emp =~= b);
    lemma_rd_enc_vec3(emp + c0 + c1 + c2, c4 + (c5 + (bs + emp)), e, c.min);
}

/// The maximum-corner fact of an encoded container.
#[verifier::spinoff_prover]
#[verifier::rlimit(100)]
proof fn lemma_model_fact_max(c: RenderBlockModelView, bs: Seq<u8>, b: Seq<u8>)
    requires
        b == model_bytes(c, bs),
    ensures
        rd_vec3(b, 33, c.endian) == Ok::<(Vec3<u32>, int), RenderBlockError>((c.max, 45)),
{
    let emp = Seq::<u8>::empty();
    let e = c.endian;
    let c0 = marker_bytes(e);
    let c1 = magic_bytes();
    let c2 = enc_vec3(e, c.version);
    let c3 = enc_vec3(e, c.min);
    let c4 = enc_vec3(e, c.max);
    let c5 = enc_u32(e, c.blocks.len() as u32);
    assert(c0.len() == 4);
    assert(c1.len() == 5);
    assert(c2.len() == 12);
    assert(c3.len() == 12);
    assert(c4.len() == 12);
    assert(c5.len() == 4);
    crate::wire::lemma_chain7(emp, c0, c1, c2, c3, c4, c5, bs, emp);
    assert(emp + (c0 + c1 + c2 + c3 + c4 + c5 + bs) + emp =~= b);
    lemma_rd_enc_vec3(emp + c0 + c1 + c2 + c3, c5 + (bs + emp), e, c.max);
}

/// The block-count and block-list facts of an encoded container.
#[verifier::spinoff_prover]
#[verifier::rlimit(100)]
proof fn lemma_model_fact_blocks(c: RenderBlockModelView, bs: Seq<u8>, b: Seq<u8>)
    requires
        c.wf(),
        enc_blocks(c.blocks, c.endian) == Ok::<Seq<u8>, RenderBlockError>(bs),
        b == model_bytes(c, bs),
    ensures
        rd_u32(b, 45, c.endian) == Ok::<(u32, int), RenderBlockError>(
            (c.blocks.len() as u32, 49),
        ),
        rd_blocks(b, 49, c.endian, c.blocks.len(), Seq::empty()) == Ok::<
            (Seq<RenderBlockView>, int),
            RenderBlockError,
        >((c.blocks, 49 + bs.len() as int)),
{
    let emp = Seq::<u8>::empty();
    let e = c.endian;
    let c0 = marker_bytes(e);
    let c1 = magic_bytes();
    let c2 = enc_vec3(e, c.version);
    let c3 = enc_vec3(e, c.min);
    let c4 = enc_vec3(e, c.max);
    let c5 = enc_u32(e, c.blocks.len() as u32);
    assert(c0.len() == 4);
    assert(c1.len() == 5);
    assert(c2.len() == 12);
    assert(c3.len() == 12);
    assert(c4.len() == 12);
    assert(c5.len() == 4);
    crate::wire::lemma_chain7(emp, c0, c1, c2, c3, c4, c5, bs, emp);
    assert(emp + (c0 + c1 + c2 + c3 + c4 + c5 + bs) + emp =~= b);
    lemma_rd_enc_u32(emp + c0 + c1 + c2 + c3 + c4, bs + emp, e, c.blocks.len() as u32);
    lemma_rd_enc_blocks(c.blocks, emp + c0 + c1 + c2 + c3 + c4 + c5, emp, e, Seq::empty());
    assert(Seq::<RenderBlockView>::empty() + c.blocks =~= c.blocks);
}

/// Chaining the header and block facts through the container reader.
#[verifier::spinoff_prover]
#[verifier::rlimit(100)]
proof fn lemma_model_assemble(c: RenderBlockModelView, bs: Seq<u8>, b: Seq<u8>)
    requires
        c.wf(),
        rd_marker(b) == Ok::<Endian, RenderBlockError>(c.endian),
        rd_magic(b) == Ok::<int, RenderBlockError>(9),
        rd_vec3(b, 9, c.endian) == Ok::<(Vec3<u32>, int), RenderBlockError>((c.version, 21)),
        rd_vec3(b, 21, c.endian) == Ok::<(Vec3<u32>, int), RenderBlockError>((c.min, 33)),
        rd_vec3(b, 33, c.endian) == Ok::<(Vec3<u32>, int), RenderBlockError>((c.max, 45)),
        rd_u32(b, 45, c.endian) == Ok::<(u32, int), RenderBlockError>(
            (c.blocks.len() as u32, 49),
        ),
        rd_blocks(b, 49, c.endian, c.blocks.len(), Seq::empty()) == Ok::<
            (Seq<RenderBlockView>, int),
            RenderBlockError,
        >((c.blocks, 49 + bs.len() as int)),
    ensures
        rd_model(b) == Ok::<RenderBlockModelView, RenderBlockError>(c),
{
    reveal(rd_model);
    assert((c.blocks.len() as u32) as nat == c.blocks.len());
    assert(c == (RenderBlockModelView {
        endian: c.endian,
        version: c.version,
        min: c.min,
        max: c.max,
        blocks: c.blocks,
    }));
}

/// Round-trip identity: every sound container comes back unchanged, field
/// for field, from decoding its own encoding — the float fields bit for
/// bit, since they are carried as raw patterns.
#[verifier::spinoff_prover]
#[verifier::rlimit(100)]
pub proof fn lemma_decode_encode_roundtrip(c: RenderBlockModelView)
    requires
        c.wf(),
    ensures
        enc_model(c) matches Ok(bytes) && rd_model(bytes) == Ok::<
            RenderBlockModelView,
            RenderBlockError,
        >(c),
{
    lemma_enc_blocks_is_ok(c.blocks, c.endian);
    let bs = enc_blocks(c.blocks, c.endian)->Ok_0;
    let b = model_bytes(c, bs);
    assert(enc_model(c) == Ok::<Seq<u8>, RenderBlockError>(b));
    lemma_model_fact_header(c, bs, b);
    lemma_model_fact_version(c, bs, b);
    lemma_model_fact_min(c, bs, b);
    lemma_model_fact_max(c, bs, b);
    lemma_model_fact_blocks(c, bs, b);
    lemma_model_assemble(c, bs, b);
}

/// Endianness symmetry: the same container encodes and round-trips under
/// either byte order; the two results differ in nothing but the recorded
/// order, and each decodes back to its own in-memory value.
pub proof fn lemma_endian_symmetry(c: RenderBlockModelView)
    requires
        c.wf(),
    ensures
        enc_model(c.with_endian(Endian::Little)) matches Ok(bl) && rd_model(bl) == Ok::<
            RenderBlockModelView,
            RenderBlockError,
        >(c.with_endian(Endian::Little)),
        enc_model(c.with_endian(Endian::Big)) matches Ok(bb) && rd_model(bb) == Ok::<
            RenderBlockModelView,
            RenderBlockError,
        >(c.with_endian(Endian::Big)),
{
    lemma_decode_encode_roundtrip(c.with_endian(Endian::Little));
    lemma_decode_encode_roundtrip(c.with_endian(Endian::Big));
}

/// Version gating: any header whose version triple is off the supported
/// line decodes to exactly the unsupported-version error naming that
/// triple, whatever follows it.
#[verifier::spinoff_prover]
#[verifier::rlimit(100)]
pub proof fn lemma_version_gating(e: Endian, ver: Vec3<u32>, rest: Seq<u8>)
    requires
        !(ver.x == 1 && ver.y == 13),
    ensures
        rd_model(marker_bytes(e) + magic_bytes() + enc_vec3(e, ver) + rest) == Err::<
            RenderBlockModelView,
            RenderBlockError,
        >(
            RenderBlockError::UnsupportedVersion {
                major: ver.x,
                minor: ver.y,
                patch: ver.z,
            },
        ),
{
    reveal(rd_model);
    let emp = Seq::<u8>::empty();
    let c0 = marker_bytes(e);
    let c1 = magic_bytes();
    let c2 = enc_vec3(e, ver);
    let b = c0 + c1 + c2 + rest;
    crate::wire::lemma_chain4(emp, c0, c1, c2, rest, emp);
    assert(emp + (c0 + c1 + c2 + rest) + emp =~= b);
    assert(b[0] == c0[0]);
    assert(b[1] == c0[1]);
    assert(b[2] == c0[2]);
    assert(b[3] == c0[3]);
    assert(b[4] == 82);
    assert(b[5] == 66);
    assert(b[6] == 77);
    assert(b[7] == 68);
    assert(b[8] == 76);
    lemma_rd_enc_vec3(emp + c0 + c1, rest + emp, e, ver);
}

} // verus!
