//! DisplayID extension blocks (tag `0x70`): section framing and data block iteration.

use vstd::prelude::*;

use crate::model::capabilities::{
    lemma_slots_with_modes_append, lemma_slots_with_modes_bounded, lemma_slots_with_modes_mode_part,
    same_capacity, slots_bounded, slots_with_modes,
    slots_with_warning, CapabilitiesView, DisplayCapabilities, SlotState, StaticContext,
};
use crate::model::diagnostics::EdidWarning;
use crate::model::displayid::{DisplayIdCapabilities, DisplayIdView};
pub use crate::model::edid::block_views;
use crate::model::mode::VideoMode;
use crate::model::extension::{ExtensionHandler, StaticExtensionHandler};
use crate::parser::{byte_sum, checksum_valid};
use metadata::{
    all_metadata_scanned, lemma_metadata_keeps_modes, scan_all_metadata_blocks, V2ScanState,
};
use timing::{
    lemma_push_modes_append, process_data_blocks, process_data_blocks_static, push_modes,
    section_modes, with_modes,
};

/// Decoders of the DisplayID metadata data blocks.
pub mod metadata;
/// Decoders of the DisplayID video timing data blocks.
pub mod timing;

verus! {

/// Product Identification Block.
pub const TAG_PRODUCT_ID: u8 = 0x00;
/// Display Parameters Block.
pub const TAG_DISPLAY_PARAMS: u8 = 0x01;
/// Color Characteristics Block.
pub const TAG_COLOR_CHARACTERISTICS: u8 = 0x02;
/// Video Timing Range Limits Block.
pub const TAG_VIDEO_TIMING_RANGE: u8 = 0x09;
/// Product Serial Number Block.
pub const TAG_SERIAL_NUMBER: u8 = 0x0A;
/// General Purpose ASCII String Block.
pub const TAG_ASCII_STRING: u8 = 0x0B;
/// Display Device Data Block.
pub const TAG_DISPLAY_DEVICE_DATA: u8 = 0x0C;
/// Interface Power Sequencing Block.
pub const TAG_POWER_SEQUENCING: u8 = 0x0D;
/// Transfer Characteristics Block.
pub const TAG_TRANSFER_CHARACTERISTICS: u8 = 0x0E;
/// Display Interface Data Block.
pub const TAG_DISPLAY_INTERFACE: u8 = 0x0F;
/// Stereo Display Interface Data Block.
pub const TAG_STEREO_DISPLAY_INTERFACE: u8 = 0x10;
/// Tiled Display Topology Data Block.
pub const TAG_TILED_TOPOLOGY: u8 = 0x12;

/// Lowest version byte of DisplayID 1.x.
pub const DISPLAYID_V1_MIN: u8 = 0x10;
/// Highest version byte of DisplayID 1.x.
pub const DISPLAYID_V1_MAX: u8 = 0x1F;
/// Version byte of DisplayID 2.x.
pub const DISPLAYID_V2: u8 = 0x20;

/// One data block of a DisplayID section: its header bytes and where its payload lies.
#[derive(Debug, Clone, Copy, PartialEq, Eq, Structural)]
pub struct DataBlockSpan {
    /// Block tag (header byte 0).
    pub tag: u8,
    /// Block revision and flags (header byte 1).
    pub revision: u8,
    /// Offset of the first payload byte.
    pub start: usize,
    /// Offset one past the last payload byte.
    pub end: usize,
}

/// The data blocks of `payload` from `offset` on: each is a 3-byte header (tag, revision,
/// length) followed by `length` payload bytes. The walk stops at the end-of-section
/// sentinel (tag `0x00` with length `0`), at a header that does not fit, and at a block
/// whose payload would run past the end.
pub open spec fn data_blocks_from(payload: Seq<u8>, offset: int) -> Seq<DataBlockSpan>
    decreases payload.len() - offset,
{
    if offset < 0 || offset + 3 > payload.len() {
        Seq::empty()
    } else {
        let tag = payload[offset];
        let revision = payload[offset + 1];
        let length = payload[offset + 2] as int;
        let end = offset + 3 + length;
        if tag == 0 && length == 0 {
            Seq::empty()
        } else if end > payload.len() {
            Seq::empty()
        } else {
            seq![
                DataBlockSpan {
                    tag,
                    revision,
                    start: (offset + 3) as usize,
                    end: end as usize,
                },
            ] + data_blocks_from(payload, end)
        }
    }
}

/// The data blocks of a section payload, in order.
pub open spec fn data_blocks(payload: Seq<u8>) -> Seq<DataBlockSpan> {
    data_blocks_from(payload, 0)
}

/// Every block that the walk from `offset` yields lies within `payload`, after `offset`.
pub proof fn lemma_data_blocks_in_bounds(payload: Seq<u8>, offset: int)
    requires
        0 <= offset,
        payload.len() <= usize::MAX,
    ensures
        forall|k: int|
            0 <= k < data_blocks_from(payload, offset).len() ==> {
                let b = #[trigger] data_blocks_from(payload, offset)[k];
                &&& offset + 3 <= b.start
                &&& b.start <= b.end <= payload.len()
                &&& b.end - b.start == payload[b.start - 1] as int
                &&& b.tag == payload[b.start - 3]
                &&& b.revision == payload[b.start - 2]
            },
    decreases payload.len() - offset,
{
    if offset + 3 <= payload.len() {
        let length = payload[offset + 2] as int;
        let end = offset + 3 + length;
        if !(payload[offset] == 0 && length == 0) && end <= payload.len() {
            lemma_data_blocks_in_bounds(payload, end);
            let s = data_blocks_from(payload, offset);
            assert forall|k: int| 0 <= k < s.len() implies {
                let b = #[trigger] s[k];
                &&& offset + 3 <= b.start
                &&& b.start <= b.end <= payload.len()
                &&& b.end - b.start == payload[b.start - 1] as int
                &&& b.tag == payload[b.start - 3]
                &&& b.revision == payload[b.start - 2]
            } by {
                if k > 0 {
                    assert(s[k] == data_blocks_from(payload, end)[k - 1]);
                }
            }
        }
    }
}

/// The walk from `offset` reads whole data blocks up to exactly the end of `p`, with no
/// end-of-section sentinel among them.
pub open spec fn whole_blocks_from(p: Seq<u8>, offset: int) -> bool
    decreases p.len() - offset,
{
    if offset < 0 || offset > p.len() {
        false
    } else if offset == p.len() {
        true
    } else if offset + 3 > p.len() {
        false
    } else {
        let length = p[offset + 2] as int;
        let end = offset + 3 + length;
        !(p[offset] == 0 && length == 0) && end <= p.len() && whole_blocks_from(p, end)
    }
}

/// The spans `bs` moved `d` bytes further into a payload.
pub open spec fn shift_spans(bs: Seq<DataBlockSpan>, d: int) -> Seq<DataBlockSpan> {
    Seq::new(
        bs.len(),
        |i: int|
            DataBlockSpan {
                start: (bs[i].start + d) as usize,
                end: (bs[i].end + d) as usize,
                ..bs[i]
            },
    )
}

proof fn lemma_data_blocks_shift(q: Seq<u8>, r: Seq<u8>, p: int)
    requires
        0 <= p,
        q.len() + r.len() <= usize::MAX,
    ensures
        data_blocks_from(q + r, q.len() + p) == shift_spans(data_blocks_from(r, p), q.len() as int),
    decreases r.len() - p,
{
    let t = q + r;
    let o = q.len() + p;
    if p + 3 <= r.len() {
        assert(t[o] == r[p] && t[o + 1] == r[p + 1] && t[o + 2] == r[p + 2]);
        let length = r[p + 2] as int;
        let end = p + 3 + length;
        if !(r[p] == 0 && length == 0) && end <= r.len() {
            lemma_data_blocks_shift(q, r, end);
            let rest = data_blocks_from(r, end);
            let head = DataBlockSpan {
                tag: r[p],
                revision: r[p + 1],
                start: (p + 3) as usize,
                end: end as usize,
            };
            assert(shift_spans(seq![head] + rest, q.len() as int) =~= shift_spans(
                seq![head],
                q.len() as int,
            ) + shift_spans(rest, q.len() as int));
            assert(q.len() + end == o + 3 + length);
        }
    } else {
        assert(shift_spans(Seq::<DataBlockSpan>::empty(), q.len() as int) =~= Seq::<
            DataBlockSpan,
        >::empty());
    }
}

/// Appending bytes after whole data blocks keeps those blocks and adds the blocks of the
/// appended bytes, moved past them.
pub proof fn lemma_data_blocks_append(q: Seq<u8>, r: Seq<u8>, offset: int)
    requires
        whole_blocks_from(q, offset),
        q.len() + r.len() <= usize::MAX,
    ensures
        data_blocks_from(q + r, offset) == data_blocks_from(q, offset) + shift_spans(
            data_blocks(r),
            q.len() as int,
        ),
    decreases q.len() - offset,
{
    let t = q + r;
    if offset == q.len() {
        lemma_data_blocks_shift(q, r, 0);
        assert(data_blocks_from(q, offset) =~= Seq::<DataBlockSpan>::empty());
        assert(Seq::<DataBlockSpan>::empty() + shift_spans(data_blocks(r), q.len() as int)
            =~= shift_spans(data_blocks(r), q.len() as int));
    } else {
        assert(t[offset] == q[offset] && t[offset + 1] == q[offset + 1] && t[offset + 2]
            == q[offset + 2]);
        let length = q[offset + 2] as int;
        let end = offset + 3 + length;
        lemma_data_blocks_append(q, r, end);
        let head = DataBlockSpan {
            tag: q[offset],
            revision: q[offset + 1],
            start: (offset + 3) as usize,
            end: end as usize,
        };
        assert(seq![head] + (data_blocks_from(q, end) + shift_spans(data_blocks(r), q.len() as int))
            =~= (seq![head] + data_blocks_from(q, end)) + shift_spans(data_blocks(r), q.len() as int));
    }
}

/// Splits a DisplayID section payload into its data blocks.
pub fn data_block_spans(payload: &[u8]) -> (r: Vec<DataBlockSpan>)
    ensures
        r@ == data_blocks(payload@),
{
    let len = payload.len();
    let mut out: Vec<DataBlockSpan> = Vec::new();
    let mut offset: usize = 0;
    while len - offset >= 3
        invariant
            len == payload@.len(),
            offset <= len,
            out@ + data_blocks_from(payload@, offset as int) == data_blocks(payload@),
        decreases len - offset,
    {
        let tag = payload[offset];
        let revision = payload[offset + 1];
        let length = payload[offset + 2] as usize;
        if tag == 0x00 && length == 0 {
            assert(out@ + data_blocks_from(payload@, offset as int) =~= out@);
            return out;
        }
        if length > len - (offset + 3) {
            assert(out@ + data_blocks_from(payload@, offset as int) =~= out@);
            return out;
        }
        let block_end = offset + 3 + length;
        let ghost before = out@;
        out.push(DataBlockSpan { tag, revision, start: offset + 3, end: block_end });
        assert(out@ + data_blocks_from(payload@, block_end as int) =~= before
            + data_blocks_from(payload@, offset as int));
        offset = block_end;
    }
    assert(out@ + data_blocks_from(payload@, offset as int) =~= out@);
    out
}

/// The header fields of a DisplayID section:
/// `(version, section_byte_count, product_type, extension_count)`.
pub open spec fn section_header(block: Seq<u8>) -> (u8, u8, u8, u8) {
    (block[1], block[2], block[3] & 0x07, (block[3] >> 3) & 0x1F)
}

/// Parses the 4-byte section header common to all DisplayID fragments.
///
/// Returns `(version, section_byte_count, product_type, extension_count)`.
pub fn parse_section_header(block: &[u8; 128]) -> (r: (u8, u8, u8, u8))
    ensures
        r == section_header(block@),
{
    let version = block[1];
    let section_byte_count = block[2];
    let packed = block[3];
    let product_type = packed & 0x07;
    let extension_count = (packed >> 3) & 0x1F;
    (version, section_byte_count, product_type, extension_count)
}

/// The data-block region of a fragment: `block[4..end]` with
/// `end = min(4 + section_byte_count, 127)`, so the checksum byte is never included.
pub open spec fn fragment_payload_bytes(block: Seq<u8>) -> Seq<u8> {
    let end = if 4 + block[2] < 127 {
        4 + block[2]
    } else {
        127
    };
    block.subrange(4, end)
}

/// Returns the data-block payload slice of a single DisplayID fragment.
pub fn fragment_payload(block: &[u8; 128]) -> (r: &[u8])
    ensures
        r@ == fragment_payload_bytes(block@),
{
    let section_byte_count = block[2] as usize;
    let end = if 4 + section_byte_count < 127 {
        4 + section_byte_count
    } else {
        127
    };
    let s = block.as_slice();
    &s[4..end]
}

/// The warning a fragment's section checksum gives: `DisplayIdSectionBytesOutOfRange`
/// when the checksum position `4 + section_byte_count` lies past byte 126,
/// `DisplayIdChecksumMismatch` when `block[1..=4 + section_byte_count]` does not sum to
/// zero modulo 256, and none otherwise.
pub open spec fn section_check(block: Seq<u8>) -> Option<EdidWarning> {
    let pos = 4 + block[2] as int;
    if pos > 126 {
        Some(EdidWarning::DisplayIdSectionBytesOutOfRange(block[2]))
    } else if checksum_valid(block.subrange(1, pos + 1)) {
        None
    } else {
        Some(EdidWarning::DisplayIdChecksumMismatch)
    }
}

/// Validates the DisplayID section checksum of `block`.
pub fn check_displayid_section(block: &[u8; 128]) -> (r: Option<EdidWarning>)
    ensures
        r == section_check(block@),
{
    let n = block[2] as usize;
    let checksum_pos = 4 + n;
    if checksum_pos > 126 {
        return Some(EdidWarning::DisplayIdSectionBytesOutOfRange(block[2]));
    }
    let ghost s = block@.subrange(1, checksum_pos + 1);
    let mut sum: u32 = 0;
    let mut i: usize = 1;
    while i <= checksum_pos
        invariant
            1 <= i <= checksum_pos + 1,
            checksum_pos <= 126,
            s == block@.subrange(1, checksum_pos + 1),
            sum == byte_sum(s.take(i - 1)),
            sum <= 255 * i,
        decreases checksum_pos + 1 - i,
    {
        assert(s.take(i as int).drop_last() =~= s.take(i - 1));
        sum = sum + block[i] as u32;
        i = i + 1;
    }
    assert(s.take(checksum_pos as int) =~= s);
    if sum % 256 == 0 {
        None
    } else {
        Some(EdidWarning::DisplayIdChecksumMismatch)
    }
}

/// A DisplayID 1.x (`0x10`–`0x1F`) or 2.x (`0x20`) version byte.
pub open spec fn valid_version(v: u8) -> bool {
    (DISPLAYID_V1_MIN <= v <= DISPLAYID_V1_MAX) || v == DISPLAYID_V2
}

/// The state after the first `n` fragments of a DisplayID section: for each, its section
/// checksum warning (if any), then its timing blocks (modes) and its metadata blocks.
pub open spec fn fragments_processed(
    blocks: Seq<Seq<u8>>,
    n: int,
    version: u8,
    s: V2ScanState,
) -> V2ScanState
    decreases n,
{
    if n <= 0 {
        s
    } else {
        let prev = fragments_processed(blocks, n - 1, version, s);
        let b = blocks[n - 1];
        let w = match section_check(b) {
            Some(x) => prev.warnings.push(x),
            None => prev.warnings,
        };
        let payload = fragment_payload_bytes(b);
        all_metadata_scanned(
            payload,
            version,
            V2ScanState {
                caps: with_modes(prev.caps, section_modes(payload, version)),
                warnings: w,
                ..prev
            },
        )
    }
}

/// The model and warnings after the DisplayID handler runs over `blocks` (all blocks with
/// tag `0x70`, in stream order).
///
/// An unknown version in the first block's header gives a `DisplayIdVersionUnknown`
/// warning and nothing else. Otherwise a mismatch between the declared extension count and
/// the continuation blocks present gives a `DisplayIdExtensionCountMismatch` warning, every
/// fragment is checked and scanned, and the section record is stored in `display_id`.
pub open spec fn displayid_processed(
    blocks: Seq<Seq<u8>>,
    c: CapabilitiesView,
    w: Seq<EdidWarning>,
) -> (CapabilitiesView, Seq<EdidWarning>) {
    if blocks.len() == 0 {
        (c, w)
    } else {
        let (version, _count, product_type, extension_count) = section_header(blocks[0]);
        if !valid_version(version) {
            (c, w.push(EdidWarning::DisplayIdVersionUnknown(version)))
        } else {
            let found = blocks.len() - 1;
            let w1 = if extension_count as int != found {
                w.push(
                    EdidWarning::DisplayIdExtensionCountMismatch {
                        declared: extension_count,
                        found: (if found > 255 {
                            255
                        } else {
                            found
                        }) as u8,
                    },
                )
            } else {
                w
            };
            let r = fragments_processed(
                blocks,
                blocks.len() as int,
                version,
                V2ScanState {
                    caps: c,
                    did: DisplayIdView::new(version, product_type),
                    warnings: w1,
                },
            );
            (CapabilitiesView { display_id: Some(r.did), ..r.caps }, r.warnings)
        }
    }
}

/// Processes DisplayID extension blocks (tag `0x70`), both 1.x and 2.x.
#[derive(Debug, Clone, Copy)]
pub struct DisplayIdHandler;

impl DisplayIdHandler {
    /// The extension tag this handler processes.
    pub fn tag(&self) -> (r: u8)
        ensures
            r == 0x70,
    {
        0x70
    }
}

impl ExtensionHandler for DisplayIdHandler {
    /// Processes all DisplayID blocks of an EDID (in stream order) into `caps`, pushing
    /// non-fatal conditions to `warnings`.
    fn process(
        &self,
        blocks: &[[u8; 128]],
        caps: &mut DisplayCapabilities,
        warnings: &mut Vec<EdidWarning>,
    )
        ensures
            (final(caps)@, final(warnings)@) == displayid_processed(
                block_views(blocks@),
                old(caps)@,
                old(warnings)@,
            ),
    {
        let ghost views = block_views(blocks@);
        if blocks.len() == 0 {
            return;
        }
        let first = &blocks[0];
        assert(first@ == views[0]);
        let (version, _section_byte_count, product_type, extension_count) = parse_section_header(
            first,
        );
        if !((DISPLAYID_V1_MIN <= version && version <= DISPLAYID_V1_MAX) || version == DISPLAYID_V2) {
            warnings.push(EdidWarning::DisplayIdVersionUnknown(version));
            return;
        }
        let actual_continuation = blocks.len() - 1;
        if extension_count as usize != actual_continuation {
            let found = if actual_continuation > 255 {
                255u8
            } else {
                actual_continuation as u8
            };
            warnings.push(
                EdidWarning::DisplayIdExtensionCountMismatch { declared: extension_count, found },
            );
        }
        let mut did = DisplayIdCapabilities::new(version, product_type);
        let ghost start = V2ScanState { caps: caps@, did: did@, warnings: warnings@ };
        let mut i: usize = 0;
        while i < blocks.len()
            invariant
                i <= blocks@.len(),
                views == block_views(blocks@),
                ({
                    let r = fragments_processed(views, i as int, version, start);
                    &&& caps@ == r.caps
                    &&& did@ == r.did
                    &&& warnings@ == r.warnings
                }),
            decreases blocks@.len() - i,
        {
            let block = &blocks[i];
            assert(block@ == views[i as int]);
            if let Some(w) = check_displayid_section(block) {
                warnings.push(w);
            }
            let payload = fragment_payload(block);
            process_data_blocks(payload, version, caps);
            scan_all_metadata_blocks(payload, version, caps, &mut did, warnings);
            i = i + 1;
        }
        caps.display_id = Some(did);
    }
}

/// The slots after the first `n` fragments of a DisplayID section: for each, its section
/// checksum warning (if any), then the modes of its timing blocks.
pub open spec fn fragments_into_slots(blocks: Seq<Seq<u8>>, n: int, version: u8, s: SlotState) -> SlotState
    decreases n,
{
    if n <= 0 {
        s
    } else {
        let prev = fragments_into_slots(blocks, n - 1, version, s);
        let b = blocks[n - 1];
        let checked = match section_check(b) {
            Some(x) => slots_with_warning(prev, x),
            None => prev,
        };
        slots_with_modes(checked, section_modes(fragment_payload_bytes(b), version))
    }
}

/// The slots after the allocation-free DisplayID handler runs over `blocks`: the version and
/// extension count checks of [`displayid_processed`], then the timing modes of each fragment.
/// Metadata blocks are not decoded on this path.
pub open spec fn displayid_into_slots(blocks: Seq<Seq<u8>>, s: SlotState) -> SlotState {
    if blocks.len() == 0 {
        s
    } else {
        let (version, _count, _product_type, extension_count) = section_header(blocks[0]);
        if !valid_version(version) {
            slots_with_warning(s, EdidWarning::DisplayIdVersionUnknown(version))
        } else {
            let found = blocks.len() - 1;
            let s1 = if extension_count as int != found {
                slots_with_warning(
                    s,
                    EdidWarning::DisplayIdExtensionCountMismatch {
                        declared: extension_count,
                        found: (if found > 255 {
                            255
                        } else {
                            found
                        }) as u8,
                    },
                )
            } else {
                s
            };
            fragments_into_slots(blocks, blocks.len() as int, version, s1)
        }
    }
}

/// Pushing a warning keeps the counts within the slots and the capacity as it is.
proof fn lemma_slots_with_warning_bounded(s: SlotState, w: EdidWarning)
    requires
        slots_bounded(s),
    ensures
        slots_bounded(slots_with_warning(s, w)),
        same_capacity(slots_with_warning(s, w), s),
{
}

proof fn lemma_fragments_into_slots_bounded(blocks: Seq<Seq<u8>>, n: int, version: u8, s: SlotState)
    requires
        slots_bounded(s),
    ensures
        slots_bounded(fragments_into_slots(blocks, n, version, s)),
        same_capacity(fragments_into_slots(blocks, n, version, s), s),
    decreases n,
{
    if n > 0 {
        lemma_fragments_into_slots_bounded(blocks, n - 1, version, s);
        let prev = fragments_into_slots(blocks, n - 1, version, s);
        let b = blocks[n - 1];
        let checked = match section_check(b) {
            Some(x) => slots_with_warning(prev, x),
            None => prev,
        };
        if let Some(x) = section_check(b) {
            lemma_slots_with_warning_bounded(prev, x);
        }
        lemma_slots_with_modes_bounded(checked, section_modes(fragment_payload_bytes(b), version));
    }
}

/// The allocation-free DisplayID handler keeps the counts within the slots and the number of
/// slots as it is.
pub proof fn lemma_displayid_into_slots_bounded(blocks: Seq<Seq<u8>>, s: SlotState)
    requires
        slots_bounded(s),
    ensures
        slots_bounded(displayid_into_slots(blocks, s)),
        same_capacity(displayid_into_slots(blocks, s), s),
{
    if blocks.len() > 0 {
        let (version, _count, _product_type, extension_count) = section_header(blocks[0]);
        if !valid_version(version) {
            lemma_slots_with_warning_bounded(s, EdidWarning::DisplayIdVersionUnknown(version));
        } else {
            let found = blocks.len() - 1;
            let w = EdidWarning::DisplayIdExtensionCountMismatch {
                declared: extension_count,
                found: (if found > 255 {
                    255
                } else {
                    found
                }) as u8,
            };
            let s1 = if extension_count as int != found {
                slots_with_warning(s, w)
            } else {
                s
            };
            lemma_slots_with_warning_bounded(s, w);
            lemma_fragments_into_slots_bounded(blocks, blocks.len() as int, version, s1);
        }
    }
}

impl StaticExtensionHandler for DisplayIdHandler {
    open spec fn handled_tag(&self) -> u8 {
        0x70
    }

    open spec fn slots_after(&self, blocks: Seq<Seq<u8>>, s: SlotState) -> SlotState {
        displayid_into_slots(blocks, s)
    }

    fn tag(&self) -> (r: u8) {
        0x70
    }

    /// Processes the DisplayID blocks of an EDID (in stream order), pushing the modes of their
    /// timing blocks and the warnings to `ctx`.
    fn process(&self, blocks: &[[u8; 128]], ctx: &mut StaticContext<'_>) {
        let ghost views = block_views(blocks@);
        proof {
            if slots_bounded(ctx.slots()) {
                lemma_displayid_into_slots_bounded(views, ctx.slots());
            }
        }
        if blocks.len() == 0 {
            return;
        }
        let first = &blocks[0];
        assert(first@ == views[0]);
        let (version, _section_byte_count, _product_type, extension_count) = parse_section_header(
            first,
        );
        if !((DISPLAYID_V1_MIN <= version && version <= DISPLAYID_V1_MAX) || version == DISPLAYID_V2) {
            ctx.push_warning(EdidWarning::DisplayIdVersionUnknown(version));
            return;
        }
        let actual_continuation = blocks.len() - 1;
        if extension_count as usize != actual_continuation {
            let found = if actual_continuation > 255 {
                255u8
            } else {
                actual_continuation as u8
            };
            ctx.push_warning(
                EdidWarning::DisplayIdExtensionCountMismatch { declared: extension_count, found },
            );
        }
        let ghost start = ctx.slots();
        let mut i: usize = 0;
        while i < blocks.len()
            invariant
                i <= blocks@.len(),
                views == block_views(blocks@),
                ctx.slots() == fragments_into_slots(views, i as int, version, start),
                final(ctx.modes_ref())@ == final(old(ctx).modes_ref())@,
                *final(ctx.num_modes_ref()) == *final(old(ctx).num_modes_ref()),
                final(ctx.warnings_ref())@ == final(old(ctx).warnings_ref())@,
                *final(ctx.num_warnings_ref()) == *final(old(ctx).num_warnings_ref()),
            decreases blocks@.len() - i,
        {
            let block = &blocks[i];
            assert(block@ == views[i as int]);
            if let Some(w) = check_displayid_section(block) {
                ctx.push_warning(w);
            }
            let payload = fragment_payload(block);
            process_data_blocks_static(payload, version, ctx);
            i = i + 1;
        }
    }
}

/// The modes of the timing blocks of the first `n` fragments, in order.
pub open spec fn fragment_modes_upto(blocks: Seq<Seq<u8>>, n: int, version: u8) -> Seq<VideoMode>
    decreases n,
{
    if n <= 0 {
        Seq::empty()
    } else {
        fragment_modes_upto(blocks, n - 1, version) + section_modes(
            fragment_payload_bytes(blocks[n - 1]),
            version,
        )
    }
}

/// The modes that the DisplayID blocks of an EDID contribute, in order: those of every
/// fragment's timing blocks when the first block's version is known, none otherwise.
pub open spec fn displayid_modes(blocks: Seq<Seq<u8>>) -> Seq<VideoMode> {
    if blocks.len() == 0 {
        Seq::empty()
    } else {
        let (version, _count, _product_type, _extension_count) = section_header(blocks[0]);
        if !valid_version(version) {
            Seq::empty()
        } else {
            fragment_modes_upto(blocks, blocks.len() as int, version)
        }
    }
}

proof fn lemma_fragments_push_modes(blocks: Seq<Seq<u8>>, n: int, version: u8, st: V2ScanState)
    ensures
        fragments_processed(blocks, n, version, st).caps.supported_modes == push_modes(
            st.caps.supported_modes,
            fragment_modes_upto(blocks, n, version),
        ),
    decreases n,
{
    if n > 0 {
        lemma_fragments_push_modes(blocks, n - 1, version, st);
        let prev = fragments_processed(blocks, n - 1, version, st);
        let b = blocks[n - 1];
        let w = match section_check(b) {
            Some(x) => prev.warnings.push(x),
            None => prev.warnings,
        };
        let payload = fragment_payload_bytes(b);
        let mid = V2ScanState {
            caps: with_modes(prev.caps, section_modes(payload, version)),
            warnings: w,
            ..prev
        };
        lemma_metadata_keeps_modes(payload, version, mid);
        lemma_push_modes_append(
            st.caps.supported_modes,
            fragment_modes_upto(blocks, n - 1, version),
            section_modes(payload, version),
        );
    } else {
        assert(push_modes(st.caps.supported_modes, Seq::empty()) == st.caps.supported_modes);
    }
}

proof fn lemma_fragments_slot_modes(blocks: Seq<Seq<u8>>, n: int, version: u8, s: SlotState)
    ensures
        fragments_into_slots(blocks, n, version, s).modes == slots_with_modes(
            s,
            fragment_modes_upto(blocks, n, version),
        ).modes,
        fragments_into_slots(blocks, n, version, s).num_modes == slots_with_modes(
            s,
            fragment_modes_upto(blocks, n, version),
        ).num_modes,
    decreases n,
{
    if n > 0 {
        lemma_fragments_slot_modes(blocks, n - 1, version, s);
        let prev = fragments_into_slots(blocks, n - 1, version, s);
        let b = blocks[n - 1];
        let checked = match section_check(b) {
            Some(x) => slots_with_warning(prev, x),
            None => prev,
        };
        let ms = section_modes(fragment_payload_bytes(b), version);
        let before = fragment_modes_upto(blocks, n - 1, version);
        lemma_slots_with_modes_mode_part(checked, slots_with_modes(s, before), ms);
        lemma_slots_with_modes_append(s, before, ms);
    }
}

/// The allocating DisplayID handler and the allocation-free one push the same modes, in the
/// same order: the allocating model's list is the contributed modes pushed with repeats
/// dropped, and the fixed-capacity slots hold exactly what pushing the contributed modes
/// into them gives.
pub proof fn lemma_displayid_pipelines_same_modes(
    blocks: Seq<Seq<u8>>,
    c: CapabilitiesView,
    w: Seq<EdidWarning>,
    s: SlotState,
)
    ensures
        displayid_processed(blocks, c, w).0.supported_modes == push_modes(
            c.supported_modes,
            displayid_modes(blocks),
        ),
        displayid_into_slots(blocks, s).modes == slots_with_modes(s, displayid_modes(blocks)).modes,
        displayid_into_slots(blocks, s).num_modes == slots_with_modes(
            s,
            displayid_modes(blocks),
        ).num_modes,
{
    if blocks.len() > 0 {
        let (version, _count, product_type, extension_count) = section_header(blocks[0]);
        if valid_version(version) {
            let found = blocks.len() - 1;
            let w1 = if extension_count as int != found {
                w.push(
                    EdidWarning::DisplayIdExtensionCountMismatch {
                        declared: extension_count,
                        found: (if found > 255 {
                            255
                        } else {
                            found
                        }) as u8,
                    },
                )
            } else {
                w
            };
            lemma_fragments_push_modes(
                blocks,
                blocks.len() as int,
                version,
                V2ScanState { caps: c, did: DisplayIdView::new(version, product_type), warnings: w1 },
            );
            let s1 = if extension_count as int != found {
                slots_with_warning(
                    s,
                    EdidWarning::DisplayIdExtensionCountMismatch {
                        declared: extension_count,
                        found: (if found > 255 {
                            255
                        } else {
                            found
                        }) as u8,
                    },
                )
            } else {
                s
            };
            let ms = fragment_modes_upto(blocks, blocks.len() as int, version);
            lemma_fragments_slot_modes(blocks, blocks.len() as int, version, s1);
            lemma_slots_with_modes_mode_part(s1, s, ms);
        } else {
            assert(push_modes(c.supported_modes, Seq::empty()) == c.supported_modes);
        }
    } else {
        assert(push_modes(c.supported_modes, Seq::empty()) == c.supported_modes);
    }
}

} // verus!
