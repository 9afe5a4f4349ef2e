use vstd::prelude::*;
use crate::errors::RenderBlockError;
use crate::wire::{agrees, emits, enc_u16, enc_u32, rd_u16, rd_u32, read_u16, read_u32, write_u16,
    write_u32, Endian};

verus! {



/// A fixed-size wire record, read and written element by element by the
/// length-prefixed buffer engine. The per-element arguments come from the
/// enclosing block (the record's bytes are not self-describing): a layout
/// selector, or the bone-width switch of the skinned position records.
pub trait Vertex: Sized + Copy {
    type Args: Copy;

    /// Which in-memory values this wire form can carry faithfully. Most
    /// layouts carry every value; the four-bone skinned position form has
    /// room for only the first four bone slots, so it asks the others to be
    /// clear.
    spec fn wf(self, a: Self::Args) -> bool;

    /// The record's wire bytes under byte order `e`.
    spec fn enc(self, e: Endian, a: Self::Args) -> Seq<u8>;

    /// One decoding step at position `i`.
    spec fn rd(b: Seq<u8>, i: int, e: Endian, a: Self::Args) -> Result<
        (Self, int),
        RenderBlockError,
    >;

    /// Decoding right after a prefix whose tail is this record's encoding
    /// yields the record back and stops right after it.
    proof fn lemma_rd_enc(self, p: Seq<u8>, s: Seq<u8>, e: Endian, a: Self::Args)
        requires
            self.wf(a),
        ensures
            Self::rd(p + self.enc(e, a) + s, p.len() as int, e, a) == Ok::<
                (Self, int),
                RenderBlockError,
            >((self, (p.len() + self.enc(e, a).len()) as int)),
    ;

    fn read(b: &Vec<u8>, i: usize, e: Endian, a: Self::Args) -> (r: Result<
        (Self, usize),
        RenderBlockError,
    >)
        requires
            i <= b@.len(),
        ensures
            agrees(r, Self::rd(b@, i as int, e, a)),
            r matches Ok((v, j)) ==> i <= j <= b@.len(),
    ;

    fn write(&self, out: &mut Vec<u8>, e: Endian, a: Self::Args)
        ensures
            final(out)@ == old(out)@ + self.enc(e, a),
    ;
}

/// An owned, length-prefixed sequence of vertex records.
#[derive(Clone, Debug, PartialEq, Eq)]
pub struct VertexBuffer<T>(pub Vec<T>);

impl<T> View for VertexBuffer<T> {
    type V = Seq<T>;

    open spec fn view(&self) -> Seq<T> {
        self.0@
    }
}

/// An owned, length-prefixed sequence of vertex indices. Its invariant —
/// every entry is below the owning vertex count — is enforced both when
/// decoding and when encoding.
#[derive(Clone, Debug, PartialEq, Eq)]
pub struct IndexBuffer(pub Vec<u16>);

impl View for IndexBuffer {
    type V = Seq<u16>;

    open spec fn view(&self) -> Seq<u16> {
        self.0@
    }
}

#[verifier::opaque]
pub open spec fn rd_elems<T: Vertex>(
    b: Seq<u8>,
    i: int,
    e: Endian,
    a: T::Args,
    n: nat,
    acc: Seq<T>,
) -> Result<(Seq<T>, int), RenderBlockError>
    decreases n,
{
    if n == 0 {
        Ok((acc, i))
    } else {
        match T::rd(b, i, e, a) {
            Ok((v, j)) => rd_elems(b, j, e, a, (n - 1) as nat, acc.push(v)),
            Err(er) => Err(er),
        }
    }
}

/// A vertex buffer: a 32-bit element count, then that many records.
pub open spec fn rd_vertex_buffer<T: Vertex>(b: Seq<u8>, i: int, e: Endian, a: T::Args) -> Result<
    (Seq<T>, int),
    RenderBlockError,
> {
    match rd_u32(b, i, e) {
        Ok((n, j)) => rd_elems::<T>(b, j, e, a, n as nat, Seq::empty()),
        Err(er) => Err(er),
    }
}

#[verifier::opaque]
pub open spec fn enc_elems<T: Vertex>(s: Seq<T>, e: Endian, a: T::Args) -> Seq<u8>
    decreases s.len(),
{
    if s.len() == 0 {
        Seq::empty()
    } else {
        s[0].enc(e, a) + enc_elems(s.drop_first(), e, a)
    }
}

/// Encoding fails only when the element count does not fit the 32-bit
/// count field.
pub open spec fn enc_vertex_buffer<T: Vertex>(s: Seq<T>, e: Endian, a: T::Args) -> Result<
    Seq<u8>,
    RenderBlockError,
> {
    if s.len() > 0xFFFFFFFF {
        Err(RenderBlockError::LengthOverflow)
    } else {
        Ok(enc_u32(e, s.len() as u32) + enc_elems(s, e, a))
    }
}

pub fn read_vertex_buffer<T: Vertex>(b: &Vec<u8>, i: usize, e: Endian, a: T::Args) -> (r: Result<
    (VertexBuffer<T>, usize),
    RenderBlockError,
>)
    requires
        i <= b@.len(),
    ensures
        (match r {
            Ok((vb, j)) => rd_vertex_buffer::<T>(b@, i as int, e, a) == Ok::<
                (Seq<T>, int),
                RenderBlockError,
            >((vb@, j as int)) && i <= j <= b@.len(),
            Err(er) => rd_vertex_buffer::<T>(b@, i as int, e, a) == Err::<
                (Seq<T>, int),
                RenderBlockError,
            >(er),
        }),
{
    let (n, start) = match read_u32(b, i, e) {
        Ok(p) => p,
        Err(er) => { return Err(er) },
    };
    let mut vs: Vec<T> = Vec::new();
    let mut pos: usize = start;
    let mut k: u32 = 0;
    proof {
        reveal(rd_elems);
    }
    while k < n
        invariant
            i <= pos <= b@.len(),
            k <= n,
            vs@.len() == k as nat,
            rd_u32(b@, i as int, e) == Ok::<(u32, int), RenderBlockError>((n, start as int)),
            rd_elems::<T>(b@, start as int, e, a, n as nat, Seq::empty()) == rd_elems::<T>(
                b@,
                pos as int,
                e,
                a,
                (n - k) as nat,
                vs@,
            ),
        decreases n - k,
    {
        proof {
            reveal(rd_elems);
        }
        match T::read(b, pos, e, a) {
            Ok((v, j)) => {
                vs.push(v);
                pos = j;
                k = k + 1;
            },
            Err(er) => {
                return Err(er);
            },
        }
    }
    proof {
        reveal(rd_elems);
    }
    Ok((VertexBuffer(vs), pos))
}

pub fn write_vertex_buffer<T: Vertex>(
    out: &mut Vec<u8>,
    vb: &VertexBuffer<T>,
    e: Endian,
    a: T::Args,
) -> (r: Result<(), RenderBlockError>)
    ensures
        emits(r, final(out)@, old(out)@, enc_vertex_buffer::<T>(vb@, e, a)),
{
    let n = vb.0.len();
    if n as u64 > 0xFFFFFFFFu64 {
        return Err(RenderBlockError::LengthOverflow);
    }
    write_u32(out, e, n as u32);
    let ghost base = out@;
    proof {
        reveal(enc_elems);
        assert(enc_elems(vb@.take(0), e, a) =~= Seq::<u8>::empty());
    }
    let mut k: usize = 0;
    while k < n
        invariant
            n == vb@.len(),
            n <= 0xFFFFFFFF,
            k <= n,
            out@ == base + enc_elems(vb@.take(k as int), e, a),
        decreases n - k,
    {
        let v = vb.0[k];
        v.write(out, e, a);
        proof {
            lemma_enc_elems_snoc::<T>(vb@, e, a, k as int);
            assert(base + enc_elems(vb@.take(k as int), e, a) + v.enc(e, a) =~= base + enc_elems(
                vb@.take(k as int + 1),
                e,
                a,
            ));
        }
        k = k + 1;
    }
    proof {
        assert(vb@.take(n as int) =~= vb@);
        assert(base + enc_elems(vb@, e, a) =~= old(out)@ + (enc_u32(e, n as u32) + enc_elems(
            vb@,
            e,
            a,
        )));
    }
    Ok(())
}

/// Appending one more element extends the encoded bytes by that element's
/// record.
pub proof fn lemma_enc_elems_snoc<T: Vertex>(s: Seq<T>, e: Endian, a: T::Args, k: int)
    requires
        0 <= k < s.len(),
    ensures
        enc_elems(s.take(k + 1), e, a) == enc_elems(s.take(k), e, a) + s[k].enc(e, a),
    decreases k,
{
    reveal(enc_elems);
    if k == 0 {
        assert(s.take(1) =~= seq![s[0]]);
        assert(s.take(0) =~= Seq::<T>::empty());
        assert(seq![s[0]].drop_first() =~= Seq::<T>::empty());
        assert(enc_elems(s.take(1), e, a) =~= enc_elems(s.take(0), e, a) + s[0].enc(e, a));
    } else {
        let t = s.drop_first();
        lemma_enc_elems_snoc::<T>(t, e, a, k - 1);
        assert(s.take(k + 1).drop_first() =~= t.take(k));
        assert(s.take(k).drop_first() =~= t.take(k - 1));
        assert(s.take(k + 1)[0] == s[0]);
        assert(s.take(k)[0] == s[0]);
        assert(t[k - 1] == s[k]);
        assert(enc_elems(s.take(k + 1), e, a) == s[0].enc(e, a) + enc_elems(t.take(k), e, a));
        assert(enc_elems(s.take(k), e, a) == s[0].enc(e, a) + enc_elems(t.take(k - 1), e, a));
        assert(s[0].enc(e, a) + (enc_elems(t.take(k - 1), e, a) + t[k - 1].enc(e, a)) =~= (s[0].enc(
            e,
            a,
        ) + enc_elems(t.take(k - 1), e, a)) + s[k].enc(e, a));
    }
}

/// Decoding the concatenated element records yields the elements back.
pub proof fn lemma_rd_enc_elems<T: Vertex>(
    s: Seq<T>,
    p: Seq<u8>,
    sfx: Seq<u8>,
    e: Endian,
    a: T::Args,
    acc: Seq<T>,
)
    requires
        forall|j: int| 0 <= j < s.len() ==> #[trigger] s[j].wf(a),
    ensures
        rd_elems::<T>(p + enc_elems(s, e, a) + sfx, p.len() as int, e, a, s.len(), acc) == Ok::<
            (Seq<T>, int),
            RenderBlockError,
        >((acc + s, (p.len() + enc_elems(s, e, a).len()) as int)),
    decreases s.len(),
{
    reveal(rd_elems);
    reveal(enc_elems);
    let b = p + enc_elems(s, e, a) + sfx;
    if s.len() == 0 {
        assert(acc + s =~= acc);
    } else {
        let e0 = s[0].enc(e, a);
        let rest = enc_elems(s.drop_first(), e, a);
        assert(enc_elems(s, e, a) == e0 + rest);
        assert(b =~= p + e0 + (rest + sfx));
        s[0].lemma_rd_enc(p, rest + sfx, e, a);
        assert(forall|j: int| 0 <= j < s.drop_first().len() ==> #[trigger] s.drop_first()[j].wf(a));
        lemma_rd_enc_elems::<T>(s.drop_first(), p + e0, sfx, e, a, acc.push(s[0]));
        assert(b =~= (p + e0) + rest + sfx);
        assert(acc.push(s[0]) + s.drop_first() =~= acc + s);
    }
}

/// Decoding an encoded vertex buffer yields the same sequence back.
pub proof fn lemma_rd_enc_vertex_buffer<T: Vertex>(
    s: Seq<T>,
    p: Seq<u8>,
    sfx: Seq<u8>,
    e: Endian,
    a: T::Args,
)
    requires
        s.len() <= 0xFFFFFFFF,
        forall|j: int| 0 <= j < s.len() ==> #[trigger] s[j].wf(a),
    ensures
        enc_vertex_buffer::<T>(s, e, a) == Ok::<Seq<u8>, RenderBlockError>(
            enc_u32(e, s.len() as u32) + enc_elems(s, e, a),
        ),
        rd_vertex_buffer::<T>(
            p + (enc_u32(e, s.len() as u32) + enc_elems(s, e, a)) + sfx,
            p.len() as int,
            e,
            a,
        ) == Ok::<(Seq<T>, int), RenderBlockError>(
            (s, (p.len() + 4 + enc_elems(s, e, a).len()) as int),
        ),
{
    let count = enc_u32(e, s.len() as u32);
    let body = enc_elems(s, e, a);
    let b = p + (count + body) + sfx;
    assert(b =~= p + count + (body + sfx));
    crate::wire::lemma_rd_enc_u32(p, body + sfx, e, s.len() as u32);
    assert(b =~= (p + count) + body + sfx);
    lemma_rd_enc_elems::<T>(s, p + count, sfx, e, a, Seq::empty());
    assert(Seq::<T>::empty() + s =~= s);
}

#[verifier::opaque]
pub open spec fn rd_indices(
    b: Seq<u8>,
    i: int,
    e: Endian,
    bound: u64,
    n: nat,
    acc: Seq<u16>,
) -> Result<(Seq<u16>, int), RenderBlockError>
    decreases n,
{
    if n == 0 {
        Ok((acc, i))
    } else {
        match rd_u16(b, i, e) {
            Ok((x, j)) => if x as u64 >= bound {
                Err(
                    RenderBlockError::IndexOutOfBounds {
                        index: x,
                        position: acc.len() as u64,
                        bound,
                    },
                )
            } else {
                rd_indices(b, j, e, bound, (n - 1) as nat, acc.push(x))
            },
            Err(er) => Err(er),
        }
    }
}

/// An index buffer: a 32-bit element count, then that many 16-bit indices,
/// each of which must be below `bound`; the first offender fails the whole
/// buffer, naming the index, its position and the bound.
pub open spec fn rd_index_buffer(b: Seq<u8>, i: int, e: Endian, bound: u64) -> Result<
    (Seq<u16>, int),
    RenderBlockError,
> {
    match rd_u32(b, i, e) {
        Ok((n, j)) => rd_indices(b, j, e, bound, n as nat, Seq::empty()),
        Err(er) => Err(er),
    }
}

#[verifier::opaque]
pub open spec fn enc_indices(s: Seq<u16>, e: Endian) -> Seq<u8>
    decreases s.len(),
{
    if s.len() == 0 {
        Seq::empty()
    } else {
        enc_u16(e, s[0]) + enc_indices(s.drop_first(), e)
    }
}

#[verifier::opaque]
pub open spec fn check_indices(s: Seq<u16>, bound: u64, k: nat) -> Result<(), RenderBlockError>
    decreases s.len() - k,
{
    if k >= s.len() {
        Ok(())
    } else if s[k as int] as u64 >= bound {
        Err(RenderBlockError::IndexOutOfBounds { index: s[k as int], position: k as u64, bound })
    } else {
        check_indices(s, bound, (k + 1) as nat)
    }
}

/// Encoding checks each index against the owning vertex count before
/// emitting it, exactly as decoding does, so an invalid in-memory model
/// cannot be serialized.
pub open spec fn enc_index_buffer(s: Seq<u16>, e: Endian, bound: u64) -> Result<
    Seq<u8>,
    RenderBlockError,
> {
    if s.len() > 0xFFFFFFFF {
        Err(RenderBlockError::LengthOverflow)
    } else {
        match check_indices(s, bound, 0) {
            Ok(u) => Ok(enc_u32(e, s.len() as u32) + enc_indices(s, e)),
            Err(er) => Err(er),
        }
    }
}

pub fn read_index_buffer(b: &Vec<u8>, i: usize, e: Endian, bound: u64) -> (r: Result<
    (IndexBuffer, usize),
    RenderBlockError,
>)
    requires
        i <= b@.len(),
    ensures
        (match r {
            Ok((ib, j)) => rd_index_buffer(b@, i as int, e, bound) == Ok::<
                (Seq<u16>, int),
                RenderBlockError,
            >((ib@, j as int)) && i <= j <= b@.len(),
            Err(er) => rd_index_buffer(b@, i as int, e, bound) == Err::<
                (Seq<u16>, int),
                RenderBlockError,
            >(er),
        }),
{
    let (n, start) = match read_u32(b, i, e) {
        Ok(p) => p,
        Err(er) => { return Err(er) },
    };
    let mut ixs: Vec<u16> = Vec::new();
    let mut pos: usize = start;
    let mut k: u32 = 0;
    proof {
        reveal(rd_indices);
    }
    while k < n
        invariant
            i <= pos <= b@.len(),
            k <= n,
            ixs@.len() == k as nat,
            rd_u32(b@, i as int, e) == Ok::<(u32, int), RenderBlockError>((n, start as int)),
            rd_indices(b@, start as int, e, bound, n as nat, Seq::empty()) == rd_indices(
                b@,
                pos as int,
                e,
                bound,
                (n - k) as nat,
                ixs@,
            ),
        decreases n - k,
    {
        proof {
            reveal(rd_indices);
        }
        match read_u16(b, pos, e) {
            Ok((x, j)) => {
                if x as u64 >= bound {
                    return Err(
                        RenderBlockError::IndexOutOfBounds { index: x, position: k as u64, bound },
                    );
                }
                ixs.push(x);
                pos = j;
                k = k + 1;
            },
            Err(er) => {
                return Err(er);
            },
        }
    }
    proof {
        reveal(rd_indices);
    }
    Ok((IndexBuffer(ixs), pos))
}

pub fn write_index_buffer(out: &mut Vec<u8>, ib: &IndexBuffer, e: Endian, bound: u64) -> (r:
    Result<(), RenderBlockError>)
    ensures
        emits(r, final(out)@, old(out)@, enc_index_buffer(ib@, e, bound)),
{
    let n = ib.0.len();
    if n as u64 > 0xFFFFFFFFu64 {
        return Err(RenderBlockError::LengthOverflow);
    }
    write_u32(out, e, n as u32);
    let ghost base = out@;
    proof {
        reveal(enc_indices);
        reveal(check_indices);
        assert(enc_indices(ib@.take(0), e) =~= Seq::<u8>::empty());
    }
    let mut k: usize = 0;
    while k < n
        invariant
            n == ib@.len(),
            n <= 0xFFFFFFFF,
            k <= n,
            out@ == base + enc_indices(ib@.take(k as int), e),
            check_indices(ib@, bound, 0) == check_indices(ib@, bound, k as nat),
        decreases n - k,
    {
        proof {
            reveal(check_indices);
        }
        let x = ib.0[k];
        if x as u64 >= bound {
            return Err(RenderBlockError::IndexOutOfBounds { index: x, position: k as u64, bound });
        }
        write_u16(out, e, x);
        proof {
            lemma_enc_indices_snoc(ib@, e, k as int);
            assert(base + enc_indices(ib@.take(k as int), e) + enc_u16(e, x) =~= base + enc_indices(
                ib@.take(k as int + 1),
                e,
            ));
        }
        k = k + 1;
    }
    proof {
        reveal(check_indices);
        assert(ib@.take(n as int) =~= ib@);
        assert(base + enc_indices(ib@, e) =~= old(out)@ + (enc_u32(e, n as u32) + enc_indices(
            ib@,
            e,
        )));
    }
    Ok(())
}

pub proof fn lemma_enc_indices_snoc(s: Seq<u16>, e: Endian, k: int)
    requires
        0 <= k < s.len(),
    ensures
        enc_indices(s.take(k + 1), e) == enc_indices(s.take(k), e) + enc_u16(e, s[k]),
    decreases k,
{
    reveal(enc_indices);
    if k == 0 {
        assert(s.take(1) =~= seq![s[0]]);
        assert(s.take(0) =~= Seq::<u16>::empty());
        assert(seq![s[0]].drop_first() =~= Seq::<u16>::empty());
        assert(enc_indices(s.take(1), e) =~= enc_indices(s.take(0), e) + enc_u16(e, s[0]));
    } else {
        let t = s.drop_first();
        lemma_enc_indices_snoc(t, e, k - 1);
        assert(s.take(k + 1).drop_first() =~= t.take(k));
        assert(s.take(k).drop_first() =~= t.take(k - 1));
        assert(s.take(k + 1)[0] == s[0]);
        assert(s.take(k)[0] == s[0]);
        assert(t[k - 1] == s[k]);
        assert(enc_indices(s.take(k + 1), e) == enc_u16(e, s[0]) + enc_indices(t.take(k), e));
        assert(enc_indices(s.take(k), e) == enc_u16(e, s[0]) + enc_indices(t.take(k - 1), e));
        assert(enc_u16(e, s[0]) + (enc_indices(t.take(k - 1), e) + enc_u16(e, t[k - 1])) =~= (
        enc_u16(e, s[0]) + enc_indices(t.take(k - 1), e)) + enc_u16(e, s[k]));
    }
}

/// Decoding the concatenated index records yields the indices back when
/// every one of them is below the bound.
pub proof fn lemma_rd_enc_indices(
    s: Seq<u16>,
    p: Seq<u8>,
    sfx: Seq<u8>,
    e: Endian,
    bound: u64,
    acc: Seq<u16>,
)
    requires
        forall|j: int| 0 <= j < s.len() ==> (s[j] as u64) < bound,
    ensures
        rd_indices(p + enc_indices(s, e) + sfx, p.len() as int, e, bound, s.len(), acc) == Ok::<
            (Seq<u16>, int),
            RenderBlockError,
        >((acc + s, (p.len() + enc_indices(s, e).len()) as int)),
    decreases s.len(),
{
    reveal(rd_indices);
    reveal(enc_indices);
    let b = p + enc_indices(s, e) + sfx;
    if s.len() == 0 {
        assert(acc + s =~= acc);
    } else {
        let e0 = enc_u16(e, s[0]);
        let rest = enc_indices(s.drop_first(), e);
        assert(enc_indices(s, e) == e0 + rest);
        assert(b =~= p + e0 + (rest + sfx));
        crate::wire::lemma_rd_enc_u16(p, rest + sfx, e, s[0]);
        assert(forall|j: int|
            0 <= j < s.drop_first().len() ==> (s.drop_first()[j] as u64) < bound);
        lemma_rd_enc_indices(s.drop_first(), p + e0, sfx, e, bound, acc.push(s[0]));
        assert(b =~= (p + e0) + rest + sfx);
        assert(acc.push(s[0]) + s.drop_first() =~= acc + s);
    }
}

/// Decoding an encoded index buffer yields the same indices back when every
/// one of them is below the bound.
pub proof fn lemma_rd_enc_index_buffer(
    s: Seq<u16>,
    p: Seq<u8>,
    sfx: Seq<u8>,
    e: Endian,
    bound: u64,
)
    requires
        s.len() <= 0xFFFFFFFF,
        forall|j: int| 0 <= j < s.len() ==> (s[j] as u64) < bound,
    ensures
        enc_index_buffer(s, e, bound) == Ok::<Seq<u8>, RenderBlockError>(
            enc_u32(e, s.len() as u32) + enc_indices(s, e),
        ),
        rd_index_buffer(
            p + (enc_u32(e, s.len() as u32) + enc_indices(s, e)) + sfx,
            p.len() as int,
            e,
            bound,
        ) == Ok::<(Seq<u16>, int), RenderBlockError>(
            (s, (p.len() + 4 + enc_indices(s, e).len()) as int),
        ),
{
    lemma_check_indices_all_ok(s, bound, 0);
    let count = enc_u32(e, s.len() as u32);
    let body = enc_indices(s, e);
    let b = p + (count + body) + sfx;
    assert(b =~= p + count + (body + sfx));
    crate::wire::lemma_rd_enc_u32(p, body + sfx, e, s.len() as u32);
    assert(b =~= (p + count) + body + sfx);
    lemma_rd_enc_indices(s, p + count, sfx, e, bound, Seq::empty());
    assert(Seq::<u16>::empty() + s =~= s);
}

pub proof fn lemma_check_indices_all_ok(s: Seq<u16>, bound: u64, k: nat)
    requires
        k <= s.len(),
        forall|j: int| 0 <= j < s.len() ==> (s[j] as u64) < bound,
    ensures
        check_indices(s, bound, k) == Ok::<(), RenderBlockError>(()),
    decreases s.len() - k,
{
    reveal(check_indices);
    if k < s.len() {
        lemma_check_indices_all_ok(s, bound, (k + 1) as nat);
    }
}

/// The first index at or past `from` that breaks the bound decides the
/// checking verdict, naming itself and its position.
pub proof fn lemma_check_indices_first_bad(s: Seq<u16>, bound: u64, from: nat, k: int)
    requires
        from <= k < s.len(),
        forall|j: int| from <= j < k ==> (s[j] as u64) < bound,
        (s[k] as u64) >= bound,
    ensures
        check_indices(s, bound, from) == Err::<(), RenderBlockError>(
            RenderBlockError::IndexOutOfBounds { index: s[k], position: k as u64, bound },
        ),
    decreases k - from,
{
    reveal(check_indices);
    if (from as int) < k {
        lemma_check_indices_first_bad(s, bound, (from + 1) as nat, k);
    }
}

/// Decoding rejects an index buffer whose first offending entry sits at
/// position `k`, reporting exactly that entry, its position and the bound.
pub proof fn lemma_rd_indices_first_bad(
    s: Seq<u16>,
    p: Seq<u8>,
    sfx: Seq<u8>,
    e: Endian,
    bound: u64,
    acc: Seq<u16>,
    k: int,
)
    requires
        0 <= k < s.len(),
        forall|j: int| 0 <= j < k ==> (s[j] as u64) < bound,
        (s[k] as u64) >= bound,
    ensures
        rd_indices(p + enc_indices(s, e) + sfx, p.len() as int, e, bound, s.len(), acc) == Err::<
            (Seq<u16>, int),
            RenderBlockError,
        >(
            RenderBlockError::IndexOutOfBounds {
                index: s[k],
                position: (acc.len() + k) as u64,
                bound,
            },
        ),
    decreases k,
{
    reveal(rd_indices);
    reveal(enc_indices);
    let b = p + enc_indices(s, e) + sfx;
    let e0 = enc_u16(e, s[0]);
    let rest = enc_indices(s.drop_first(), e);
    assert(enc_indices(s, e) == e0 + rest);
    assert(b =~= p + e0 + (rest + sfx));
    crate::wire::lemma_rd_enc_u16(p, rest + sfx, e, s[0]);
    if k == 0 {
    } else {
        assert(forall|j: int|
            0 <= j < k - 1 ==> (s.drop_first()[j] as u64) < bound);
        assert(s.drop_first()[k - 1] == s[k]);
        lemma_rd_indices_first_bad(s.drop_first(), p + e0, sfx, e, bound, acc.push(s[0]), k - 1);
        assert(b =~= (p + e0) + rest + sfx);
    }
}

} // verus!
