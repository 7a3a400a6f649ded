//! CTA-861 (CEA-861) extension blocks (tag `0x02`): the data block collection and the video
//! modes of its Video Data Blocks.

use vstd::prelude::*;

use crate::capabilities::displayid::metadata::lemma_byte_bits;
use crate::capabilities::displayid::timing::coded::{vic_mode, vic_to_mode};
use crate::capabilities::displayid::timing::{
    lemma_slots_ignore_repeats, lemma_with_modes_append, opt_mode, push_modes, push_opt_mode,
    with_modes,
};
use crate::model::capabilities::{
    lemma_slots_with_modes_bounded, same_capacity, slots_bounded,
    slots_with_modes, slots_with_warning, CapabilitiesView, DisplayCapabilities, SlotState,
    StaticContext,
};
use crate::model::diagnostics::EdidWarning;
use crate::model::edid::block_views;
use crate::model::extension::{ExtensionHandler, StaticExtensionHandler};
use crate::model::mode::VideoMode;

verus! {

/// Data block tag of a CTA-861 Video Data Block.
pub const CTA_VIDEO_DATA_BLOCK: u8 = 2;

/// The VIC of a Short Video Descriptor byte and whether it is marked native: bytes 1–127
/// and 193–253 are the VIC itself, bytes 129–192 are VICs 1–64 marked native; 0, 128, 254
/// and 255 are reserved.
pub open spec fn svd_vic(b: u8) -> Option<(u8, bool)> {
    if b == 0 || b == 128 || b >= 254 {
        None
    } else if 129 <= b <= 192 {
        Some(((b - 128) as u8, true))
    } else {
        Some((b, false))
    }
}

/// Reads a Short Video Descriptor byte.
pub fn svd_to_vic(b: u8) -> (r: Option<(u8, bool)>)
    ensures
        r == svd_vic(b),
{
    if b == 0 || b == 128 || b >= 254 {
        None
    } else if 129 <= b && b <= 192 {
        Some((b - 128, true))
    } else {
        Some((b, false))
    }
}

/// The mode of a Short Video Descriptor byte, as a list of at most one mode.
pub open spec fn svd_mode(b: u8) -> Seq<VideoMode> {
    match svd_vic(b) {
        Some((vic, _native)) => opt_mode(vic_mode(vic)),
        None => Seq::empty(),
    }
}

/// The modes of the first `n` Short Video Descriptors of `p`, in order.
pub open spec fn svd_modes_upto(p: Seq<u8>, n: int) -> Seq<VideoMode>
    decreases n,
{
    if n <= 0 {
        Seq::empty()
    } else {
        svd_modes_upto(p, n - 1) + svd_mode(p[n - 1])
    }
}

/// The walk of a CTA-861 data block collection from `offset`: each data block is a header
/// byte (tag in bits 7–5, length in bits 4–0) and `length` payload bytes. Returns the modes
/// of the Video Data Blocks, in order, and whether the walk met a block that runs past the
/// end of the collection (where it stops).
pub open spec fn collection_from(c: Seq<u8>, offset: int) -> (Seq<VideoMode>, bool)
    decreases c.len() - offset,
{
    if offset < 0 || offset >= c.len() {
        (Seq::empty(), false)
    } else {
        let h = c[offset];
        let len = (h & 0x1F) as int;
        let end = offset + 1 + len;
        if end > c.len() {
            (Seq::empty(), true)
        } else {
            let here = if h >> 5 == CTA_VIDEO_DATA_BLOCK {
                svd_modes_upto(c.subrange(offset + 1, end), len)
            } else {
                Seq::empty()
            };
            let (rest, bad) = collection_from(c, end);
            (here + rest, bad)
        }
    }
}

/// A Short Video Descriptor byte names VIC `b mod 128` for bytes 1–192 other than 128,
/// marked native exactly for bytes 129–192, and VIC `b` itself for bytes 193–253; its mode
/// is that VIC's. Bytes 0, 128, 254 and 255 name nothing.
pub proof fn lemma_svd_fields(b: u8)
    ensures
        (svd_vic(b) is None) == (b == 0 || b == 128 || b >= 254),
        1 <= b <= 192 && b != 128 ==> svd_vic(b) == Some(((b % 128) as u8, b > 128)),
        193 <= b <= 253 ==> svd_vic(b) == Some((b, false)),
        svd_vic(b) matches Some((v, _native)) ==> svd_mode(b) == opt_mode(vic_mode(v)),
{
}

/// A data block header byte gives the block's tag in bits 7–5 and its payload length in
/// bits 4–0. The walk from `offset` reads the header there, stops with `true` when the
/// payload runs past the end, and otherwise takes the Video Data Block (tag 2) modes of
/// this block, in order, before those of the blocks after it.
pub proof fn lemma_collection_step(c: Seq<u8>, offset: int)
    requires
        0 <= offset < c.len(),
    ensures
        ({
            let tag = c[offset] / 32;
            let len = (c[offset] % 32) as int;
            let end = offset + 1 + len;
            &&& end > c.len() ==> collection_from(c, offset) == (Seq::<VideoMode>::empty(), true)
            &&& end <= c.len() && tag == 2 ==> collection_from(c, offset) == (svd_modes_upto(
                c.subrange(offset + 1, end),
                len,
            ) + collection_from(c, end).0, collection_from(c, end).1)
            &&& end <= c.len() && tag != 2 ==> collection_from(c, offset) == collection_from(c, end)
        }),
{
    lemma_byte_bits(c[offset]);
    let end = offset + 1 + (c[offset] % 32) as int;
    if end <= c.len() {
        let (rest, bad) = collection_from(c, end);
        assert(Seq::<VideoMode>::empty() + rest =~= rest);
    }
}

fn push_svd_modes(p: &[u8], caps: &mut DisplayCapabilities)
    ensures
        final(caps)@ == with_modes(old(caps)@, svd_modes_upto(p@, p@.len() as int)),
{
    let ghost c0 = caps@;
    let mut i: usize = 0;
    while i < p.len()
        invariant
            i <= p@.len(),
            caps@ == with_modes(c0, svd_modes_upto(p@, i as int)),
        decreases p@.len() - i,
    {
        proof {
            lemma_with_modes_append(c0, svd_modes_upto(p@, i as int), svd_mode(p@[i as int]));
        }
        match svd_to_vic(p[i]) {
            Some((vic, _native)) => push_opt_mode(caps, vic_to_mode(vic)),
            None => {
                assert(with_modes(caps@, Seq::empty()) == caps@);
            },
        }
        i = i + 1;
    }
}

/// Decodes a CTA-861 data block collection: pushes the modes of the Short Video Descriptors
/// of every Video Data Block, in order, and returns whether a block ran past the end of the
/// collection (the walk stops there). Other data block types are skipped.
pub fn decode_cta_collection(c: &[u8], caps: &mut DisplayCapabilities) -> (bad: bool)
    ensures
        final(caps)@ == with_modes(old(caps)@, collection_from(c@, 0).0),
        bad == collection_from(c@, 0).1,
{
    let ghost c0 = caps@;
    let ghost mut done: Seq<VideoMode> = Seq::empty();
    let mut o: usize = 0;
    while o < c.len()
        invariant
            o <= c@.len(),
            c0 == old(caps)@,
            caps@ == with_modes(c0, done),
            collection_from(c@, 0) == (done + collection_from(c@, o as int).0, collection_from(
                c@,
                o as int,
            ).1),
        decreases c@.len() - o,
    {
        let h = c[o];
        let len = (h & 0x1F) as usize;
        assert((h & 0x1F) <= 31) by (bit_vector);
        if len >= c.len() - o {
            assert(collection_from(c@, o as int) == (Seq::<VideoMode>::empty(), true));
            assert(done + Seq::<VideoMode>::empty() =~= done);
            return true;
        }
        let end = o + 1 + len;
        let ghost rest = collection_from(c@, end as int);
        if h >> 5 == CTA_VIDEO_DATA_BLOCK {
            let p = &c[o + 1..end];
            assert(p@ =~= c@.subrange(o + 1, end as int));
            proof {
                lemma_with_modes_append(c0, done, svd_modes_upto(p@, len as int));
            }
            push_svd_modes(p, caps);
            proof {
                assert(done + (svd_modes_upto(p@, len as int) + rest.0) =~= (done + svd_modes_upto(
                    p@,
                    len as int,
                )) + rest.0);
                done = done + svd_modes_upto(p@, len as int);
            }
        } else {
            assert(done + (Seq::<VideoMode>::empty() + rest.0) =~= done + rest.0);
        }
        o = end;
    }
    assert(done + Seq::<VideoMode>::empty() =~= done);
    false
}

/// The data block collection of a CTA-861 extension block: bytes 4 up to the DTD offset
/// (byte 2) when that offset is 4–127; empty otherwise.
pub open spec fn block_collection(b: Seq<u8>) -> Seq<u8> {
    if 4 <= b[2] <= 127 {
        b.subrange(4, b[2] as int)
    } else {
        Seq::empty()
    }
}

/// The model and warnings after the first `n` CTA-861 blocks: each block's Video Data Block
/// modes are pushed, and a collection that runs past its end gives a `MalformedDataBlock`
/// warning.
pub open spec fn cea861_upto(
    blocks: Seq<Seq<u8>>,
    n: int,
    c: CapabilitiesView,
    w: Seq<EdidWarning>,
) -> (CapabilitiesView, Seq<EdidWarning>)
    decreases n,
{
    if n <= 0 {
        (c, w)
    } else {
        let (c1, w1) = cea861_upto(blocks, n - 1, c, w);
        let (ms, bad) = collection_from(block_collection(blocks[n - 1]), 0);
        (with_modes(c1, ms), if bad {
            w1.push(EdidWarning::MalformedDataBlock)
        } else {
            w1
        })
    }
}

/// The CTA-861 handler changes only the mode list (and the warnings it returns).
pub proof fn lemma_cea861_keeps_other_fields(
    blocks: Seq<Seq<u8>>,
    n: int,
    c: CapabilitiesView,
    w: Seq<EdidWarning>,
)
    ensures
        cea861_upto(blocks, n, c, w).0 == (CapabilitiesView {
            supported_modes: cea861_upto(blocks, n, c, w).0.supported_modes,
            ..c
        }),
    decreases n,
{
    if n > 0 {
        lemma_cea861_keeps_other_fields(blocks, n - 1, c, w);
    }
}

/// The model and warnings after the CTA-861 handler runs over `blocks`.
pub open spec fn cea861_processed(
    blocks: Seq<Seq<u8>>,
    c: CapabilitiesView,
    w: Seq<EdidWarning>,
) -> (CapabilitiesView, Seq<EdidWarning>) {
    cea861_upto(blocks, blocks.len() as int, c, w)
}

/// The slots after the first `n` CTA-861 blocks: the same modes and warnings as
/// [`cea861_upto`], into fixed-capacity slots.
pub open spec fn cea861_slots_upto(blocks: Seq<Seq<u8>>, n: int, s: SlotState) -> SlotState
    decreases n,
{
    if n <= 0 {
        s
    } else {
        let prev = cea861_slots_upto(blocks, n - 1, s);
        let (ms, bad) = collection_from(block_collection(blocks[n - 1]), 0);
        let with = slots_with_modes(prev, ms);
        if bad {
            slots_with_warning(with, EdidWarning::MalformedDataBlock)
        } else {
            with
        }
    }
}

proof fn lemma_cea861_slots_bounded(blocks: Seq<Seq<u8>>, n: int, s: SlotState)
    requires
        slots_bounded(s),
    ensures
        slots_bounded(cea861_slots_upto(blocks, n, s)),
        same_capacity(cea861_slots_upto(blocks, n, s), s),
    decreases n,
{
    if n > 0 {
        lemma_cea861_slots_bounded(blocks, n - 1, s);
        let prev = cea861_slots_upto(blocks, n - 1, s);
        let (ms, _bad) = collection_from(block_collection(blocks[n - 1]), 0);
        lemma_slots_with_modes_bounded(prev, ms);
    }
}

/// The collection bytes of a 128-byte CTA-861 block.
fn collection_of(b: &[u8; 128]) -> (r: &[u8])
    ensures
        r@ == block_collection(b@),
{
    let d = b[2];
    if 4 <= d && d <= 127 {
        let r = &b[4..d as usize];
        assert(r@ =~= block_collection(b@));
        r
    } else {
        let r: &[u8] = &[];
        assert(r@ =~= block_collection(b@));
        r
    }
}

/// Processes CTA-861 extension blocks (tag `0x02`): the video modes of the Video Data
/// Blocks of each block's data block collection. Detailed timing descriptors and the other
/// CTA-861 data block types are not decoded.
#[derive(Debug, Clone, Copy)]
pub struct Cea861Handler;

impl ExtensionHandler for Cea861Handler {
    fn process(
        &self,
        blocks: &[[u8; 128]],
        caps: &mut DisplayCapabilities,
        warnings: &mut Vec<EdidWarning>,
    )
        ensures
            (final(caps)@, final(warnings)@) == cea861_processed(
                block_views(blocks@),
                old(caps)@,
                old(warnings)@,
            ),
    {
        let ghost views = block_views(blocks@);
        let mut i: usize = 0;
        while i < blocks.len()
            invariant
                i <= blocks@.len(),
                views == block_views(blocks@),
                (caps@, warnings@) == cea861_upto(views, i as int, old(caps)@, old(warnings)@),
            decreases blocks@.len() - i,
        {
            let block = &blocks[i];
            assert(block@ == views[i as int]);
            let bad = decode_cta_collection(collection_of(block), caps);
            if bad {
                warnings.push(EdidWarning::MalformedDataBlock);
            }
            i = i + 1;
        }
    }
}

impl StaticExtensionHandler for Cea861Handler {
    open spec fn handled_tag(&self) -> u8 {
        0x02
    }

    open spec fn slots_after(&self, blocks: Seq<Seq<u8>>, s: SlotState) -> SlotState {
        cea861_slots_upto(blocks, blocks.len() as int, s)
    }

    fn tag(&self) -> (r: u8) {
        0x02
    }

    /// Processes the CTA-861 blocks of an EDID (in stream order), pushing the modes of their
    /// Video Data Blocks and the warnings to `ctx`.
    fn process(&self, blocks: &[[u8; 128]], ctx: &mut StaticContext<'_>) {
        let ghost views = block_views(blocks@);
        proof {
            if slots_bounded(ctx.slots()) {
                lemma_cea861_slots_bounded(views, views.len() as int, ctx.slots());
            }
        }
        let ghost start = ctx.slots();
        let mut i: usize = 0;
        while i < blocks.len()
            invariant
                i <= blocks@.len(),
                views == block_views(blocks@),
                start == old(ctx).slots(),
                ctx.slots() == cea861_slots_upto(views, i as int, start),
                final(ctx.modes_ref())@ == final(old(ctx).modes_ref())@,
                *final(ctx.num_modes_ref()) == *final(old(ctx).num_modes_ref()),
                final(ctx.warnings_ref())@ == final(old(ctx).warnings_ref())@,
                *final(ctx.num_warnings_ref()) == *final(old(ctx).num_warnings_ref()),
            decreases blocks@.len() - i,
        {
            let block = &blocks[i];
            assert(block@ == views[i as int]);
            let mut found = DisplayCapabilities::default();
            let bad = decode_cta_collection(collection_of(block), &mut found);
            let ghost ms = collection_from(block_collection(views[i as int]), 0).0;
            assert(found.supported_modes@ == push_modes(Seq::empty(), ms));
            let ghost before = ctx.slots();
            let mut k: usize = 0;
            while k < found.supported_modes.len()
                invariant
                    k <= found.supported_modes@.len(),
                    ctx.slots() == slots_with_modes(before, found.supported_modes@.take(k as int)),
                    final(ctx.modes_ref())@ == final(old(ctx).modes_ref())@,
                    *final(ctx.num_modes_ref()) == *final(old(ctx).num_modes_ref()),
                    final(ctx.warnings_ref())@ == final(old(ctx).warnings_ref())@,
                    *final(ctx.num_warnings_ref()) == *final(old(ctx).num_warnings_ref()),
                decreases found.supported_modes@.len() - k,
            {
                assert(found.supported_modes@.take(k + 1).drop_last() =~= found.supported_modes@.take(
                    k as int,
                ));
                ctx.push_mode(found.supported_modes[k]);
                k = k + 1;
            }
            assert(found.supported_modes@.take(k as int) =~= found.supported_modes@);
            proof {
                lemma_slots_ignore_repeats(before, ms);
            }
            if bad {
                ctx.push_warning(EdidWarning::MalformedDataBlock);
            }
            i = i + 1;
        }
    }
}

} // verus!
