use vstd::prelude::*;
use crate::blocks::carpaint::{enc_car_paint_block, lemma_rd_enc_car_paint_block,
    rd_car_paint_block, read_car_paint_block, write_car_paint_block, CarPaintRenderBlock,
    CarPaintRenderBlockView};
use crate::blocks::carpaint_simple::{enc_car_paint_simple_block,
    lemma_rd_enc_car_paint_simple_block, rd_car_paint_simple_block, read_car_paint_simple_block,
    write_car_paint_simple_block, CarPaintSimpleRenderBlock, CarPaintSimpleRenderBlockView};
use crate::blocks::general::{enc_general_block, lemma_rd_enc_general_block, rd_general_block,
    read_general_block, write_general_block, GeneralRenderBlock, GeneralRenderBlockView};
use crate::blocks::lambert::{enc_lambert_block, lemma_rd_enc_lambert_block, rd_lambert_block,
    read_lambert_block, write_lambert_block, LambertRenderBlock, LambertRenderBlockView};
use crate::blocks::skinned_general::{enc_skinned_general_block,
    lemma_rd_enc_skinned_general_block, rd_skinned_general_block, read_skinned_general_block,
    write_skinned_general_block, SkinnedGeneralRenderBlock, SkinnedGeneralRenderBlockView};
use crate::errors::RenderBlockError;
use crate::material::{mesh_mode_of, MeshMode};
use crate::wire::{emits, enc_u8, rd_u8, read_u8, write_u8, Endian};

verus! {

/// One mesh chunk of the container: a closed union over the five block
/// kinds, selected by a one-byte tag read before any variant bytes. An
/// unknown tag fails the whole decode — block size is not self-describing,
/// so the stream cannot be resynchronized past it.
#[derive(Clone, Debug, PartialEq, Eq)]
pub enum RenderBlock {
    General(GeneralRenderBlock),
    Lambert(LambertRenderBlock),
    CarPaint(CarPaintRenderBlock),
    CarPaintSimple(CarPaintSimpleRenderBlock),
    SkinnedGeneral(SkinnedGeneralRenderBlock),
}

pub enum RenderBlockView {
    General(GeneralRenderBlockView),
    Lambert(LambertRenderBlockView),
    CarPaint(CarPaintRenderBlockView),
    CarPaintSimple(CarPaintSimpleRenderBlockView),
    SkinnedGeneral(SkinnedGeneralRenderBlockView),
}

impl View for RenderBlock {
    type V = RenderBlockView;

    open spec fn view(&self) -> RenderBlockView {
        match self {
            RenderBlock::General(x) => RenderBlockView::General(x@),
            RenderBlock::Lambert(x) => RenderBlockView::Lambert(x@),
            RenderBlock::CarPaint(x) => RenderBlockView::CarPaint(x@),
            RenderBlock::CarPaintSimple(x) => RenderBlockView::CarPaintSimple(x@),
            RenderBlock::SkinnedGeneral(x) => RenderBlockView::SkinnedGeneral(x@),
        }
    }
}

pub open spec fn block_kind_tag(v: RenderBlockView) -> u8 {
    match v {
        RenderBlockView::General(x) => 0,
        RenderBlockView::Lambert(x) => 1,
        RenderBlockView::CarPaint(x) => 2,
        RenderBlockView::CarPaintSimple(x) => 3,
        RenderBlockView::SkinnedGeneral(x) => 4,
    }
}

impl RenderBlockView {
    pub open spec fn wf(self) -> bool {
        match self {
            RenderBlockView::General(x) => x.wf(),
            RenderBlockView::Lambert(x) => x.wf(),
            RenderBlockView::CarPaint(x) => x.wf(),
            RenderBlockView::CarPaintSimple(x) => x.wf(),
            RenderBlockView::SkinnedGeneral(x) => x.wf(),
        }
    }
}

/// One block: the kind tag, then the kind's own body.
pub open spec fn rd_block(b: Seq<u8>, i: int, e: Endian) -> Result<
    (RenderBlockView, int),
    RenderBlockError,
> {
    match rd_u8(b, i) {
        Ok((tag, i1)) => if tag == 0 {
            match rd_general_block(b, i1, e) {
                Ok((v, j)) => Ok((RenderBlockView::General(v), j)),
                Err(er) => Err(er),
            }
        } else if tag == 1 {
            match rd_lambert_block(b, i1, e) {
                Ok((v, j)) => Ok((RenderBlockView::Lambert(v), j)),
                Err(er) => Err(er),
            }
        } else if tag == 2 {
            match rd_car_paint_block(b, i1, e) {
                Ok((v, j)) => Ok((RenderBlockView::CarPaint(v), j)),
                Err(er) => Err(er),
            }
        } else if tag == 3 {
            match rd_car_paint_simple_block(b, i1, e) {
                Ok((v, j)) => Ok((RenderBlockView::CarPaintSimple(v), j)),
                Err(er) => Err(er),
            }
        } else if tag == 4 {
            match rd_skinned_general_block(b, i1, e) {
                Ok((v, j)) => Ok((RenderBlockView::SkinnedGeneral(v), j)),
                Err(er) => Err(er),
            }
        } else {
            Err(RenderBlockError::UnsupportedBlock { tag })
        },
        Err(er) => Err(er),
    }
}

pub open spec fn enc_block(e: Endian, v: RenderBlockView) -> Result<Seq<u8>, RenderBlockError> {
    match v {
        RenderBlockView::General(x) => match enc_general_block(e, x) {
            Ok(body) => Ok(enc_u8(0) + body),
            Err(er) => Err(er),
        },
        RenderBlockView::Lambert(x) => match enc_lambert_block(e, x) {
            Ok(body) => Ok(enc_u8(1) + body),
            Err(er) => Err(er),
        },
        RenderBlockView::CarPaint(x) => match enc_car_paint_block(e, x) {
            Ok(body) => Ok(enc_u8(2) + body),
            Err(er) => Err(er),
        },
        RenderBlockView::CarPaintSimple(x) => match enc_car_paint_simple_block(e, x) {
            Ok(body) => Ok(enc_u8(3) + body),
            Err(er) => Err(er),
        },
        RenderBlockView::SkinnedGeneral(x) => match enc_skinned_general_block(e, x) {
            Ok(body) => Ok(enc_u8(4) + body),
            Err(er) => Err(er),
        },
    }
}

pub fn read_block(b: &Vec<u8>, i: usize, e: Endian) -> (r: Result<
    (RenderBlock, usize),
    RenderBlockError,
>)
    requires
        i <= b@.len(),
    ensures
        (match r {
            Ok((v, j)) => rd_block(b@, i as int, e) == Ok::<(RenderBlockView, int),
                RenderBlockError>((v@, j as int)) && i <= j <= b@.len(),
            Err(er) => rd_block(b@, i as int, e) == Err::<(RenderBlockView, int),
                RenderBlockError>(er),
        }),
{
    let (tag, i1) = match read_u8(b, i) {
        Ok(p) => p,
        Err(er) => { return Err(er) },
    };
    if tag == 0 {
        match read_general_block(b, i1, e) {
            Ok((v, j)) => Ok((RenderBlock::General(v), j)),
            Err(er) => Err(er),
        }
    } else if tag == 1 {
        match read_lambert_block(b, i1, e) {
            Ok((v, j)) => Ok((RenderBlock::Lambert(v), j)),
            Err(er) => Err(er),
        }
    } else if tag == 2 {
        match read_car_paint_block(b, i1, e) {
            Ok((v, j)) => Ok((RenderBlock::CarPaint(v), j)),
            Err(er) => Err(er),
        }
    } else if tag == 3 {
        match read_car_paint_simple_block(b, i1, e) {
            Ok((v, j)) => Ok((RenderBlock::CarPaintSimple(v), j)),
            Err(er) => Err(er),
        }
    } else if tag == 4 {
        match read_skinned_general_block(b, i1, e) {
            Ok((v, j)) => Ok((RenderBlock::SkinnedGeneral(v), j)),
            Err(er) => Err(er),
        }
    } else {
        Err(RenderBlockError::UnsupportedBlock { tag })
    }
}

pub fn write_block(out: &mut Vec<u8>, v: &RenderBlock, e: Endian) -> (r: Result<
    (),
    RenderBlockError,
>)
    ensures
        emits(r, final(out)@, old(out)@, enc_block(e, v@)),
{
    match v {
        RenderBlock::General(x) => {
            write_u8(out, 0);
            match write_general_block(out, x, e) {
                Ok(u) => {},
                Err(er) => { return Err(er) },
            }
            proof {
                assert(out@ =~= old(out)@ + (enc_u8(0) + enc_general_block(e, x@)->Ok_0));
            }
            Ok(())
        },
        RenderBlock::Lambert(x) => {
            write_u8(out, 1);
            match write_lambert_block(out, x, e) {
                Ok(u) => {},
                Err(er) => { return Err(er) },
            }
            proof {
                assert(out@ =~= old(out)@ + (enc_u8(1) + enc_lambert_block(e, x@)->Ok_0));
            }
            Ok(())
        },
        RenderBlock::CarPaint(x) => {
            write_u8(out, 2);
            match write_car_paint_block(out, x, e) {
                Ok(u) => {},
                Err(er) => { return Err(er) },
            }
            proof {
                assert(out@ =~= old(out)@ + (enc_u8(2) + enc_car_paint_block(e, x@)->Ok_0));
            }
            Ok(())
        },
        RenderBlock::CarPaintSimple(x) => {
            write_u8(out, 3);
            match write_car_paint_simple_block(out, x, e) {
                Ok(u) => {},
                Err(er) => { return Err(er) },
            }
            proof {
                assert(out@ =~= old(out)@ + (enc_u8(3) + enc_car_paint_simple_block(
                    e,
                    x@,
                )->Ok_0));
            }
            Ok(())
        },
        RenderBlock::SkinnedGeneral(x) => {
            write_u8(out, 4);
            match write_skinned_general_block(out, x, e) {
                Ok(u) => {},
                Err(er) => { return Err(er) },
            }
            proof {
                assert(out@ =~= old(out)@ + (enc_u8(4) + enc_skinned_general_block(
                    e,
                    x@,
                )->Ok_0));
            }
            Ok(())
        },
    }
}

/// Decoding an encoded block of any kind yields it back.
#[verifier::spinoff_prover]
#[verifier::rlimit(100)]
pub proof fn lemma_rd_enc_block(v: RenderBlockView, p: Seq<u8>, sfx: Seq<u8>, e: Endian)
    requires
        v.wf(),
    ensures
        enc_block(e, v) matches Ok(bytes) && rd_block(p + bytes + sfx, p.len() as int, e) == Ok::<
            (RenderBlockView, int),
            RenderBlockError,
        >((v, (p.len() + bytes.len()) as int)),
{
    let tag = enc_u8(block_kind_tag(v));
    match v {
        RenderBlockView::General(x) => {
            lemma_rd_enc_general_block(x, p + tag, sfx, e);
            let body = enc_general_block(e, x)->Ok_0;
            crate::wire::lemma_chain2(p, tag, body, sfx);
            crate::wire::lemma_rd_enc_u8(p, body + sfx, 0);
        },
        RenderBlockView::Lambert(x) => {
            lemma_rd_enc_lambert_block(x, p + tag, sfx, e);
            let body = enc_lambert_block(e, x)->Ok_0;
            crate::wire::lemma_chain2(p, tag, body, sfx);
            crate::wire::lemma_rd_enc_u8(p, body + sfx, 1);
        },
        RenderBlockView::CarPaint(x) => {
            lemma_rd_enc_car_paint_block(x, p + tag, sfx, e);
            let body = enc_car_paint_block(e, x)->Ok_0;
            crate::wire::lemma_chain2(p, tag, body, sfx);
            crate::wire::lemma_rd_enc_u8(p, body + sfx, 2);
        },
        RenderBlockView::CarPaintSimple(x) => {
            lemma_rd_enc_car_paint_simple_block(x, p + tag, sfx, e);
            let body = enc_car_paint_simple_block(e, x)->Ok_0;
            crate::wire::lemma_chain2(p, tag, body, sfx);
            crate::wire::lemma_rd_enc_u8(p, body + sfx, 3);
        },
        RenderBlockView::SkinnedGeneral(x) => {
            lemma_rd_enc_skinned_general_block(x, p + tag, sfx, e);
            let body = enc_skinned_general_block(e, x)->Ok_0;
            crate::wire::lemma_chain2(p, tag, body, sfx);
            crate::wire::lemma_rd_enc_u8(p, body + sfx, 4);
        },
    }
}

impl RenderBlock {
    /// How many vertices the block owns; for the skinned kind this is the
    /// position count, which also bounds the indices.
    pub fn vertex_count(&self) -> (r: usize)
        ensures
            r as nat == (match self@ {
                RenderBlockView::General(x) => x.vertices.len(),
                RenderBlockView::Lambert(x) => x.vertices.len(),
                RenderBlockView::CarPaint(x) => x.vertices.len(),
                RenderBlockView::CarPaintSimple(x) => x.vertices.len(),
                RenderBlockView::SkinnedGeneral(x) => x.positions.len(),
            }),
    {
        match self {
            RenderBlock::General(x) => x.vertices.0.len(),
            RenderBlock::Lambert(x) => x.vertices.0.len(),
            RenderBlock::CarPaint(x) => x.vertices.0.len(),
            RenderBlock::CarPaintSimple(x) => x.vertices.0.len(),
            RenderBlock::SkinnedGeneral(x) => x.positions.0.len(),
        }
    }

    pub fn index_count(&self) -> (r: usize)
        ensures
            r as nat == (match self@ {
                RenderBlockView::General(x) => x.indices.len(),
                RenderBlockView::Lambert(x) => x.indices.len(),
                RenderBlockView::CarPaint(x) => x.indices.len(),
                RenderBlockView::CarPaintSimple(x) => x.indices.len(),
                RenderBlockView::SkinnedGeneral(x) => x.indices.len(),
            }),
    {
        match self {
            RenderBlock::General(x) => x.indices.0.len(),
            RenderBlock::Lambert(x) => x.indices.0.len(),
            RenderBlock::CarPaint(x) => x.indices.0.len(),
            RenderBlock::CarPaintSimple(x) => x.indices.0.len(),
            RenderBlock::SkinnedGeneral(x) => x.indices.0.len(),
        }
    }

    /// The wire stride of one vertex record of this block's layout.
    pub fn vertex_stride(&self) -> (r: usize)
        ensures
            (match self@ {
                RenderBlockView::General(x) => r == 68,
                RenderBlockView::Lambert(x) => r == 32,
                RenderBlockView::CarPaint(x) => r == 36,
                RenderBlockView::CarPaintSimple(x) => r == 32,
                RenderBlockView::SkinnedGeneral(x) => r == 20,
            }),
    {
        match self {
            RenderBlock::General(x) => 68,
            RenderBlock::Lambert(x) => 32,
            RenderBlock::CarPaint(x) => 36,
            RenderBlock::CarPaintSimple(x) => 32,
            RenderBlock::SkinnedGeneral(x) => 20,
        }
    }

    /// The wire stride of one index: every kind stores 16-bit indices.
    pub fn index_stride(&self) -> (r: usize)
        ensures
            r == 2,
    {
        2
    }

    /// The block's material.
    pub fn material(&self) -> (r: &crate::material::Material)
        ensures
            r@ == (match self@ {
                RenderBlockView::General(x) => x.material,
                RenderBlockView::Lambert(x) => x.material,
                RenderBlockView::CarPaint(x) => x.material,
                RenderBlockView::CarPaintSimple(x) => x.material,
                RenderBlockView::SkinnedGeneral(x) => x.material,
            }),
    {
        match self {
            RenderBlock::General(x) => &x.material,
            RenderBlock::Lambert(x) => &x.material,
            RenderBlock::CarPaint(x) => &x.material,
            RenderBlock::CarPaintSimple(x) => &x.material,
            RenderBlock::SkinnedGeneral(x) => &x.material,
        }
    }

    /// The block's texture path slots.
    pub fn textures(&self) -> (r: &Vec<Vec<u8>>)
        ensures
            r.deep_view() == (match self@ {
                RenderBlockView::General(x) => x.material.textures,
                RenderBlockView::Lambert(x) => x.material.textures,
                RenderBlockView::CarPaint(x) => x.material.textures,
                RenderBlockView::CarPaintSimple(x) => x.material.textures,
                RenderBlockView::SkinnedGeneral(x) => x.material.textures,
            }),
    {
        self.material().textures()
    }

    /// The export-style drawing mode of the block's topology.
    pub fn mesh_mode(&self) -> (r: MeshMode)
        ensures
            r == mesh_mode_of(
                match self@ {
                    RenderBlockView::General(x) => x.material.primitive_type,
                    RenderBlockView::Lambert(x) => x.material.primitive_type,
                    RenderBlockView::CarPaint(x) => x.material.primitive_type,
                    RenderBlockView::CarPaintSimple(x) => x.material.primitive_type,
                    RenderBlockView::SkinnedGeneral(x) => x.material.primitive_type,
                },
            ),
    {
        self.material().mesh_mode()
    }
}

} // verus!
