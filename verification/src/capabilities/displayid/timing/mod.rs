//! DisplayID video timing data blocks.

use vstd::prelude::*;

use crate::capabilities::cea861::{collection_from, decode_cta_collection};
use crate::capabilities::displayid::metadata::{
    le16, le24, lemma_le16_parts, span_bytes, TAG_V2_CTA_DISPLAYID,
};
use crate::capabilities::displayid::{
    data_block_spans, data_blocks, lemma_data_blocks_in_bounds, DataBlockSpan, DISPLAYID_V1_MAX,
    DISPLAYID_V1_MIN, DISPLAYID_V2,
};
use crate::model::capabilities::{
    has_mode_key, lemma_slots_absorb_pushed, lemma_slots_absorb_same_key, modes_pushed, same_mode_key,
    slots_with_mode, slots_with_modes, CapabilitiesView,
    DisplayCapabilities, SlotState, StaticContext,
};
use crate::model::mode::VideoMode;
use coded::{
    bit_weight, bitmap_len, bitmap_modes_upto, code_at, lemma_bitmap_bit_order, code_modes_upto, coded_mode, dmt_mode, hdmi_vic_mode,
    vic_mode, decode_cta_video_timing_block,
    decode_type_iv_block, decode_type_viii_block, decode_vesa_video_timing_block, viii_two_byte,
};
use detailed::{
    decode_type_i_descriptor, decode_type_ii_descriptor, decode_type_vi_descriptor,
    decode_type_vii_descriptor, type_1_7_mode, type_ii_mode, type_vi_mode, type_vi_size,
    type_vii_mode,
};
use short::{
    decode_type_iii_descriptor, decode_type_ix_descriptor, decode_type_v_descriptor,
    type_iii_mode, type_ix_mode, type_v_mode,
};

/// Coded timings: DMT, VIC and HDMI VIC codes and presence bitmaps.
pub mod coded;
/// Detailed timing descriptors (Types I, II, VI and VII).
pub mod detailed;
/// Short and formula-based timing descriptors (Types III, V and IX).
pub mod short;

verus! {

/// The mode list after pushing each of `new` in order, skipping modes already listed.
pub open spec fn push_modes(modes: Seq<VideoMode>, new: Seq<VideoMode>) -> Seq<VideoMode>
    decreases new.len(),
{
    if new.len() == 0 {
        modes
    } else {
        modes_pushed(push_modes(modes, new.drop_last()), new.last())
    }
}

/// The model after pushing each of `new` in order.
pub open spec fn with_modes(c: CapabilitiesView, new: Seq<VideoMode>) -> CapabilitiesView {
    CapabilitiesView { supported_modes: push_modes(c.supported_modes, new), ..c }
}

/// An optional mode as a list of at most one mode.
pub open spec fn opt_mode(m: Option<VideoMode>) -> Seq<VideoMode> {
    match m {
        Some(x) => seq![x],
        None => Seq::empty(),
    }
}

/// Pushing `a` then `b` is pushing `a + b`.
pub proof fn lemma_push_modes_append(modes: Seq<VideoMode>, a: Seq<VideoMode>, b: Seq<VideoMode>)
    ensures
        push_modes(modes, a + b) == push_modes(push_modes(modes, a), b),
    decreases b.len(),
{
    if b.len() == 0 {
        assert(a + b =~= a);
    } else {
        lemma_push_modes_append(modes, a, b.drop_last());
        assert((a + b).drop_last() =~= a + b.drop_last());
        assert((a + b).last() == b.last());
    }
}

/// Pushing two lists of modes one after the other is pushing their concatenation.
pub proof fn lemma_with_modes_append(c: CapabilitiesView, a: Seq<VideoMode>, b: Seq<VideoMode>)
    ensures
        with_modes(with_modes(c, a), b) == with_modes(c, a + b),
{
    lemma_push_modes_append(c.supported_modes, a, b);
}

/// No two modes of the list share a resolution, refresh rate and scan type.
pub open spec fn keys_distinct(modes: Seq<VideoMode>) -> bool {
    forall|i: int, j: int|
        0 <= i < modes.len() && 0 <= j < modes.len() && i != j ==> !same_mode_key(
            #[trigger] modes[i],
            #[trigger] modes[j],
        )
}

/// Pushing modes keeps each resolution, refresh rate and scan type listed once, and
/// afterwards the list has the key of every pushed mode and of every mode listed before.
pub proof fn lemma_push_modes_no_repeats(modes: Seq<VideoMode>, new: Seq<VideoMode>)
    requires
        keys_distinct(modes),
    ensures
        keys_distinct(push_modes(modes, new)),
        forall|m: VideoMode| has_mode_key(modes, m) ==> #[trigger] has_mode_key(push_modes(modes, new), m),
        forall|i: int| 0 <= i < new.len() ==> has_mode_key(push_modes(modes, new), #[trigger] new[i]),
    decreases new.len(),
{
    if new.len() > 0 {
        let prefix = new.drop_last();
        lemma_push_modes_no_repeats(modes, prefix);
        let before = push_modes(modes, prefix);
        let x = new.last();
        if !has_mode_key(before, x) {
            let after = before.push(x);
            assert forall|i: int, j: int| 0 <= i < after.len() && 0 <= j < after.len() && i != j implies !same_mode_key(
                #[trigger] after[i],
                #[trigger] after[j],
            ) by {
                if i == before.len() {
                    assert(after[j] == before[j]);
                } else if j == before.len() {
                    assert(after[i] == before[i]);
                    if same_mode_key(after[i], after[j]) {
                        assert(same_mode_key(before[i], x));
                    }
                } else {
                    assert(after[i] == before[i] && after[j] == before[j]);
                }
            }
            assert forall|m: VideoMode| has_mode_key(before, m) implies #[trigger] has_mode_key(after, m) by {
                let k = choose|k: int| 0 <= k < before.len() && same_mode_key(#[trigger] before[k], m);
                assert(after[k] == before[k]);
            }
            assert(same_mode_key(after[before.len() as int], x));
        }
        assert forall|i: int| 0 <= i < new.len() implies has_mode_key(
            push_modes(modes, new),
            #[trigger] new[i],
        ) by {
            if i < new.len() - 1 {
                assert(new[i] == prefix[i]);
                assert(has_mode_key(before, prefix[i]));
            }
        }
    }
}

/// Pushes a mode, if there is one.
pub fn push_opt_mode(caps: &mut DisplayCapabilities, m: Option<VideoMode>)
    ensures
        final(caps)@ == with_modes(old(caps)@, opt_mode(m)),
{
    match m {
        Some(x) => {
            proof {
                reveal_with_fuel(push_modes, 2);
                assert(seq![x].drop_last() =~= Seq::<VideoMode>::empty());
                assert(push_modes(caps@.supported_modes, seq![x]) == modes_pushed(
                    caps@.supported_modes,
                    x,
                ));
            }
            caps.push_mode(x);
        },
        None => {
            assert(push_modes(caps@.supported_modes, Seq::empty()) == caps@.supported_modes);
        },
    }
}

/// The little-endian 16-bit value at offset `i`.
pub fn le16_at(d: &[u8], i: usize) -> (r: u16)
    requires
        i + 2 <= d@.len(),
    ensures
        r == le16(d@[i as int], d@[i + 1]),
{
    (d[i] as u16) | ((d[i + 1] as u16) << 8)
}

/// Type I Video Timing block (20-byte descriptors).
pub const TAG_TYPE_I_TIMING: u8 = 0x03;
/// Type II Video Timing block (11-byte descriptors).
pub const TAG_TYPE_II_TIMING: u8 = 0x04;
/// Type III Short Video Timing block (3-byte descriptors).
pub const TAG_TYPE_III_TIMING: u8 = 0x05;
/// Type IV DMT/VIC Code block.
pub const TAG_TYPE_IV_TIMING: u8 = 0x06;
/// VESA Video Timing block (DMT presence bitmap).
pub const TAG_VESA_VIDEO_TIMING: u8 = 0x07;
/// CTA-861 Video Timing block (VIC presence bitmap).
pub const TAG_CTA_VIDEO_TIMING: u8 = 0x08;
/// Type V Short Video Timing block (7-byte descriptors).
pub const TAG_TYPE_V_TIMING: u8 = 0x11;
/// Type VI Video Timing block (14- or 17-byte descriptors).
pub const TAG_TYPE_VI_TIMING: u8 = 0x13;
/// DisplayID 2.x Type VII Timing block (20-byte descriptors).
pub const TAG_V2_TYPE_VII_TIMING: u8 = 0x22;
/// DisplayID 2.x Type VIII Enumerated Timing Code block.
pub const TAG_V2_TYPE_VIII_TIMING: u8 = 0x23;
/// DisplayID 2.x Type IX Formula-Based Timing block (6-byte descriptors).
pub const TAG_V2_TYPE_IX_TIMING: u8 = 0x24;

/// The size of a descriptor of the fixed-size timing block with tag `kind`.
pub open spec fn descriptor_size(kind: u8) -> int {
    if kind == TAG_TYPE_I_TIMING || kind == TAG_V2_TYPE_VII_TIMING {
        20
    } else if kind == TAG_TYPE_II_TIMING {
        11
    } else if kind == TAG_TYPE_III_TIMING {
        3
    } else if kind == TAG_TYPE_V_TIMING {
        7
    } else {
        6
    }
}

/// The mode of descriptor `d` of the fixed-size timing block with tag `kind`.
pub open spec fn descriptor_mode(kind: u8, d: Seq<u8>) -> Option<VideoMode> {
    if kind == TAG_TYPE_I_TIMING {
        type_1_7_mode(d, 10)
    } else if kind == TAG_V2_TYPE_VII_TIMING {
        type_vii_mode(d)
    } else if kind == TAG_TYPE_II_TIMING {
        type_ii_mode(d)
    } else if kind == TAG_TYPE_III_TIMING {
        type_iii_mode(d)
    } else if kind == TAG_TYPE_V_TIMING {
        type_v_mode(d)
    } else {
        type_ix_mode(d)
    }
}

/// The modes of the first `n` descriptors of a fixed-size timing block payload, in order.
pub open spec fn descriptor_modes_upto(kind: u8, p: Seq<u8>, n: int) -> Seq<VideoMode>
    decreases n,
{
    if n <= 0 {
        Seq::empty()
    } else {
        let k = descriptor_size(kind);
        descriptor_modes_upto(kind, p, n - 1) + opt_mode(
            descriptor_mode(kind, p.subrange(k * (n - 1), k * n)),
        )
    }
}

/// The modes of every whole descriptor of a fixed-size timing block payload; a trailing
/// partial descriptor is ignored.
pub open spec fn descriptor_modes(kind: u8, p: Seq<u8>) -> Seq<VideoMode> {
    descriptor_modes_upto(kind, p, p.len() as int / descriptor_size(kind))
}

fn decode_descriptor(kind: u8, d: &[u8], caps: &mut DisplayCapabilities)
    requires
        d@.len() == descriptor_size(kind),
    ensures
        final(caps)@ == with_modes(old(caps)@, opt_mode(descriptor_mode(kind, d@))),
{
    if kind == TAG_TYPE_I_TIMING {
        decode_type_i_descriptor(d, caps);
    } else if kind == TAG_V2_TYPE_VII_TIMING {
        decode_type_vii_descriptor(d, caps);
    } else if kind == TAG_TYPE_II_TIMING {
        decode_type_ii_descriptor(d, caps);
    } else if kind == TAG_TYPE_III_TIMING {
        decode_type_iii_descriptor(d, caps);
    } else if kind == TAG_TYPE_V_TIMING {
        decode_type_v_descriptor(d, caps);
    } else {
        decode_type_ix_descriptor(d, caps);
    }
}

proof fn lemma_descriptor_step(kind: u8, p: Seq<u8>, n: int)
    requires
        n >= 0,
    ensures
        descriptor_modes_upto(kind, p, n + 1) == descriptor_modes_upto(kind, p, n) + opt_mode(
            descriptor_mode(
                kind,
                p.subrange(descriptor_size(kind) * n, descriptor_size(kind) * (n + 1)),
            ),
        ),
{
}

fn decode_descriptor_list(kind: u8, payload: &[u8], caps: &mut DisplayCapabilities)
    requires
        kind == TAG_TYPE_I_TIMING || kind == TAG_V2_TYPE_VII_TIMING || kind == TAG_TYPE_II_TIMING
            || kind == TAG_TYPE_III_TIMING || kind == TAG_TYPE_V_TIMING || kind
            == TAG_V2_TYPE_IX_TIMING,
    ensures
        final(caps)@ == with_modes(old(caps)@, descriptor_modes(kind, payload@)),
{
    let size: usize = if kind == TAG_TYPE_I_TIMING || kind == TAG_V2_TYPE_VII_TIMING {
        20
    } else if kind == TAG_TYPE_II_TIMING {
        11
    } else if kind == TAG_TYPE_III_TIMING {
        3
    } else if kind == TAG_TYPE_V_TIMING {
        7
    } else {
        6
    };
    let ghost c0 = caps@;
    let mut i: usize = 0;
    let mut n: usize = 0;
    while size <= payload.len() - i
        invariant
            size == descriptor_size(kind),
            kind == TAG_TYPE_I_TIMING || kind == TAG_V2_TYPE_VII_TIMING || kind
                == TAG_TYPE_II_TIMING || kind == TAG_TYPE_III_TIMING || kind == TAG_TYPE_V_TIMING
                || kind == TAG_V2_TYPE_IX_TIMING,
            i == size * n,
            i <= payload@.len(),
            caps@ == with_modes(c0, descriptor_modes_upto(kind, payload@, n as int)),
        decreases payload@.len() - i,
    {
        let d = &payload[i..i + size];
        assert(i + size == size * (n + 1)) by (nonlinear_arith)
            requires
                i == size * n,
        ;
        assert(d@ == payload@.subrange(size * n, size * (n + 1)));
        proof {
            lemma_descriptor_step(kind, payload@, n as int);
            lemma_with_modes_append(
                c0,
                descriptor_modes_upto(kind, payload@, n as int),
                opt_mode(descriptor_mode(kind, d@)),
            );
        }
        decode_descriptor(kind, d, caps);
        i = i + size;
        n = n + 1;
    }
    assert(n == payload@.len() as int / descriptor_size(kind)) by (nonlinear_arith)
        requires
            i == size * n,
            i <= payload@.len(),
            payload@.len() - i < size,
            size == descriptor_size(kind),
            size >= 3,
    ;
}

/// The modes of the Type VI descriptors of `p` from offset `i` on, in order; each
/// descriptor is 14 or 17 bytes, and the walk stops when fewer than 14 bytes are left.
pub open spec fn type_vi_modes_from(p: Seq<u8>, i: int) -> Seq<VideoMode>
    decreases p.len() - i,
{
    if i < 0 || i + 14 > p.len() {
        Seq::empty()
    } else {
        let d = p.subrange(i, p.len() as int);
        let size: int = if (le24(p[i], p[i + 1], p[i + 2]) >> 22) & 1 != 0 {
            17
        } else {
            14
        };
        opt_mode(type_vi_mode(d)) + (if i + size + 14 <= p.len() {
            type_vi_modes_from(p, i + size)
        } else {
            Seq::empty()
        })
    }
}

fn decode_type_vi_list(payload: &[u8], caps: &mut DisplayCapabilities)
    ensures
        final(caps)@ == with_modes(old(caps)@, type_vi_modes_from(payload@, 0)),
{
    let ghost c0 = caps@;
    let mut i: usize = 0;
    while 14 <= payload.len() - i
        invariant
            i <= payload@.len(),
            with_modes(caps@, type_vi_modes_from(payload@, i as int)) == with_modes(
                c0,
                type_vi_modes_from(payload@, 0),
            ),
        decreases payload@.len() - i,
    {
        let d = &payload[i..payload.len()];
        let ghost before = caps@;
        let consumed = decode_type_vi_descriptor(d, caps);
        proof {
            lemma_with_modes_append(
                before,
                opt_mode(type_vi_mode(d@)),
                type_vi_modes_from(payload@, i + consumed),
            );
        }
        if consumed >= payload.len() - i {
            proof {
                assert(type_vi_modes_from(payload@, i + consumed) == Seq::<VideoMode>::empty());
            }
            i = payload.len();
            assert(type_vi_modes_from(payload@, i as int) == Seq::<VideoMode>::empty());
            assert(with_modes(caps@, Seq::empty()).supported_modes == caps@.supported_modes);
        } else {
            i = i + consumed;
        }
    }
    assert(with_modes(caps@, Seq::empty()).supported_modes == caps@.supported_modes);
}

/// The modes that one timing data block yields, in order. A DisplayID 2.x section decodes
/// the 2.x timing tags (Types VII, VIII and IX) and the video modes of a CTA DisplayID block's
/// CTA-861 data block collection; a 1.x section decodes the 1.x timing tags
/// (Types I–VI and the DMT and VIC bitmaps). Other tags yield nothing.
pub open spec fn timing_block_modes(tag: u8, revision: u8, p: Seq<u8>, v2: bool) -> Seq<VideoMode> {
    if v2 {
        if tag == TAG_V2_TYPE_VII_TIMING || tag == TAG_V2_TYPE_IX_TIMING {
            descriptor_modes(tag, p)
        } else if tag == TAG_V2_TYPE_VIII_TIMING {
            code_modes_upto(
                p,
                (revision >> 6) & 3,
                viii_two_byte(revision),
                (if viii_two_byte(revision) {
                    p.len() as int / 2
                } else {
                    p.len() as int
                }),
            )
        } else if tag == TAG_V2_CTA_DISPLAYID {
            collection_from(p, 0).0
        } else {
            Seq::empty()
        }
    } else if tag == TAG_TYPE_I_TIMING || tag == TAG_TYPE_II_TIMING || tag == TAG_TYPE_III_TIMING
        || tag == TAG_TYPE_V_TIMING {
        descriptor_modes(tag, p)
    } else if tag == TAG_TYPE_IV_TIMING {
        code_modes_upto(p, (revision >> 6) & 3, false, p.len() as int)
    } else if tag == TAG_VESA_VIDEO_TIMING {
        bitmap_modes_upto(p, true, 8 * bitmap_len(p, 10))
    } else if tag == TAG_CTA_VIDEO_TIMING {
        bitmap_modes_upto(p, false, 8 * bitmap_len(p, 8))
    } else if tag == TAG_TYPE_VI_TIMING {
        type_vi_modes_from(p, 0)
    } else {
        Seq::empty()
    }
}

/// The VESA and CTA timing bitmaps read at most 10 and 8 bytes (80 DMT IDs, 64 VICs). Bit
/// `k` of the bitmap, bit `k mod 8` of byte `k / 8` counted from the least significant,
/// stands for DMT ID or VIC `k + 1`: when it is set the code's mode, if any, follows the
/// modes of the bits before it.
pub proof fn lemma_bitmap_block_fields(revision: u8, p: Seq<u8>, dmt: bool, k: int)
    requires
        0 <= k < 8 * p.len(),
    ensures
        timing_block_modes(TAG_VESA_VIDEO_TIMING, revision, p, false) == bitmap_modes_upto(
            p,
            true,
            8 * (if p.len() < 10 {
                p.len() as int
            } else {
                10
            }),
        ),
        timing_block_modes(TAG_CTA_VIDEO_TIMING, revision, p, false) == bitmap_modes_upto(
            p,
            false,
            8 * (if p.len() < 8 {
                p.len() as int
            } else {
                8
            }),
        ),
        bitmap_modes_upto(p, dmt, k + 1) == bitmap_modes_upto(p, dmt, k) + (if ((p[k / 8] as int)
            / bit_weight(k % 8)) % 2 == 1 {
            opt_mode(
                if dmt {
                    dmt_mode((k + 1) as u16)
                } else {
                    vic_mode((k + 1) as u8)
                },
            )
        } else {
            Seq::empty()
        }),
{
    lemma_bitmap_bit_order(p, k);
}

/// Type IV and Type VIII blocks list codes in the code space of revision bits 7–6: 0 DMT
/// IDs, 1 CTA-861 VICs, 2 HDMI VICs, 3 reserved (no modes); VIC and HDMI VIC codes above
/// 255 name no mode. A Type IV block has one byte per code. A Type VIII block has two-byte
/// little-endian codes exactly when revision bit 3 is set (a trailing odd byte is ignored)
/// and one-byte codes otherwise. Each code that names a mode yields it, in list order.
pub proof fn lemma_code_block_fields(revision: u8, p: Seq<u8>, code: u16)
    ensures
        timing_block_modes(TAG_TYPE_IV_TIMING, revision, p, false) == code_modes_upto(
            p,
            revision / 64,
            false,
            p.len() as int,
        ),
        (revision / 8) % 2 == 1 ==> timing_block_modes(TAG_V2_TYPE_VIII_TIMING, revision, p, true)
            == code_modes_upto(p, revision / 64, true, p.len() as int / 2),
        (revision / 8) % 2 == 0 ==> timing_block_modes(TAG_V2_TYPE_VIII_TIMING, revision, p, true)
            == code_modes_upto(p, revision / 64, false, p.len() as int),
        forall|n: int| 0 <= n < p.len() ==> #[trigger] code_at(p, false, n) == p[n],
        forall|n: int|
            0 <= n && 2 * n + 1 < p.len() ==> #[trigger] code_at(p, true, n) == p[2 * n] + 256 * p[2
                * n + 1],
        coded_mode(0, code) == dmt_mode(code),
        code <= 255 ==> coded_mode(1, code) == vic_mode(code as u8),
        code <= 255 ==> coded_mode(2, code) == hdmi_vic_mode(code as u8),
        code > 255 ==> coded_mode(1, code) is None && coded_mode(2, code) is None,
        coded_mode(3, code) is None,
{
    vstd::arithmetic::power2::lemma2_to64();
    vstd::bits::lemma_low_bits_mask_values();
    vstd::bits::lemma_u8_shr_is_div(revision, 6);
    vstd::bits::lemma_u8_low_bits_mask_is_mod(revision >> 6, 2);
    vstd::bits::lemma_u8_shr_is_div(revision, 3);
    vstd::bits::lemma_u8_low_bits_mask_is_mod(revision >> 3, 1);
    assert((revision >> 6) & 3 == revision / 64);
    assert(viii_two_byte(revision) == ((revision / 8) % 2 == 1));
    assert forall|n: int| 0 <= n && 2 * n + 1 < p.len() implies #[trigger] code_at(p, true, n)
        == p[2 * n] + 256 * p[2 * n + 1] by {
        lemma_le16_parts(p[2 * n], p[2 * n + 1]);
    }
}

/// Decodes one timing data block and pushes its modes.
pub fn decode_timing_block(
    tag: u8,
    revision: u8,
    payload: &[u8],
    v2: bool,
    caps: &mut DisplayCapabilities,
)
    ensures
        final(caps)@ == with_modes(old(caps)@, timing_block_modes(tag, revision, payload@, v2)),
{
    if v2 {
        if tag == TAG_V2_TYPE_VII_TIMING || tag == TAG_V2_TYPE_IX_TIMING {
            decode_descriptor_list(tag, payload, caps);
        } else if tag == TAG_V2_TYPE_VIII_TIMING {
            decode_type_viii_block(payload, revision, caps);
        } else if tag == TAG_V2_CTA_DISPLAYID {
            let _malformed = decode_cta_collection(payload, caps);
        } else {
            assert(with_modes(caps@, Seq::empty()).supported_modes == caps@.supported_modes);
        }
    } else if tag == TAG_TYPE_I_TIMING || tag == TAG_TYPE_II_TIMING || tag == TAG_TYPE_III_TIMING
        || tag == TAG_TYPE_V_TIMING {
        decode_descriptor_list(tag, payload, caps);
    } else if tag == TAG_TYPE_IV_TIMING {
        let code_type = (revision >> 6) & 0x03;
        decode_type_iv_block(payload, code_type, caps);
    } else if tag == TAG_VESA_VIDEO_TIMING {
        decode_vesa_video_timing_block(payload, caps);
    } else if tag == TAG_CTA_VIDEO_TIMING {
        decode_cta_video_timing_block(payload, caps);
    } else if tag == TAG_TYPE_VI_TIMING {
        decode_type_vi_list(payload, caps);
    } else {
        assert(with_modes(caps@, Seq::empty()).supported_modes == caps@.supported_modes);
    }
}

/// The modes of the first `n` data blocks of a section payload, in order.
pub open spec fn timing_scan_upto(
    payload: Seq<u8>,
    blocks: Seq<DataBlockSpan>,
    n: int,
    v2: bool,
) -> Seq<VideoMode>
    decreases n,
{
    if n <= 0 {
        Seq::empty()
    } else {
        let b = blocks[n - 1];
        timing_scan_upto(payload, blocks, n - 1, v2) + timing_block_modes(
            b.tag,
            b.revision,
            span_bytes(payload, b),
            v2,
        )
    }
}

/// The modes of every timing data block of a section payload of the given DisplayID
/// version, in order: the 2.x timing blocks for version `0x20`, the 1.x ones for versions
/// `0x10`–`0x1F`, and none for any other version.
pub open spec fn section_modes(payload: Seq<u8>, version: u8) -> Seq<VideoMode> {
    if version == DISPLAYID_V2 || (DISPLAYID_V1_MIN <= version <= DISPLAYID_V1_MAX) {
        timing_scan_upto(
            payload,
            data_blocks(payload),
            data_blocks(payload).len() as int,
            version == DISPLAYID_V2,
        )
    } else {
        Seq::empty()
    }
}

/// Decodes every timing data block of a section payload and pushes the modes, in order;
/// repeated modes are kept once.
pub fn process_data_blocks(payload: &[u8], version: u8, caps: &mut DisplayCapabilities)
    ensures
        final(caps)@ == with_modes(old(caps)@, section_modes(payload@, version)),
{
    let is_v2 = version == DISPLAYID_V2;
    if !is_v2 && !(DISPLAYID_V1_MIN <= version && version <= DISPLAYID_V1_MAX) {
        assert(with_modes(caps@, Seq::empty()) == caps@);
        return;
    }
    let spans = data_block_spans(payload);
    let _len = payload.len();
    proof {
        lemma_data_blocks_in_bounds(payload@, 0);
    }
    let ghost blocks = spans@;
    let ghost c0 = caps@;
    let mut i: usize = 0;
    while i < spans.len()
        invariant
            blocks == spans@,
            blocks == data_blocks(payload@),
            i <= spans@.len(),
            forall|k: int|
                0 <= k < blocks.len() ==> {
                    let b = #[trigger] blocks[k];
                    b.start <= b.end <= payload@.len()
                },
            caps@ == with_modes(c0, timing_scan_upto(payload@, blocks, i as int, is_v2)),
        decreases spans@.len() - i,
    {
        let span = spans[i];
        assert(span == blocks[i as int]);
        let block = &payload[span.start..span.end];
        proof {
            lemma_with_modes_append(
                c0,
                timing_scan_upto(payload@, blocks, i as int, is_v2),
                timing_block_modes(span.tag, span.revision, block@, is_v2),
            );
        }
        decode_timing_block(span.tag, span.revision, block, is_v2, caps);
        i = i + 1;
    }
}

/// A mode is in a pushed list only if it was listed before or pushed.
pub proof fn lemma_push_modes_from(modes: Seq<VideoMode>, new: Seq<VideoMode>, m: VideoMode)
    requires
        push_modes(modes, new).contains(m),
    ensures
        modes.contains(m) || new.contains(m),
    decreases new.len(),
{
    if new.len() > 0 {
        let prefix = new.drop_last();
        let before = push_modes(modes, prefix);
        if before.contains(m) {
            lemma_push_modes_from(modes, prefix, m);
            if prefix.contains(m) {
                let k = choose|k: int| 0 <= k < prefix.len() && prefix[k] == m;
                assert(new[k] == m);
            }
        } else {
            let after = push_modes(modes, new);
            assert(after == before || after == before.push(new.last()));
            let k = choose|k: int| 0 <= k < after.len() && after[k] == m;
            if k < before.len() {
                assert(before[k] == m);
            }
            assert(new[new.len() - 1] == m);
        }
    }
}

/// Slots that drop repeated modes end the same whether a list of modes is pushed as it is
/// or with its repeats taken out first.
pub proof fn lemma_slots_ignore_repeats(s: SlotState, ms: Seq<VideoMode>)
    ensures
        slots_with_modes(s, push_modes(Seq::empty(), ms)) == slots_with_modes(s, ms),
    decreases ms.len(),
{
    if ms.len() > 0 {
        let prefix = ms.drop_last();
        let m = ms.last();
        lemma_slots_ignore_repeats(s, prefix);
        let d = push_modes(Seq::empty(), prefix);
        if has_mode_key(d, m) {
            let k = choose|k: int| 0 <= k < d.len() && same_mode_key(#[trigger] d[k], m);
            let x = d[k];
            assert(d.contains(x));
            lemma_push_modes_from(Seq::empty(), prefix, x);
            lemma_slots_absorb_pushed(s, prefix, x);
            lemma_slots_absorb_same_key(slots_with_modes(s, prefix), x, m);
        } else {
            assert(d.push(m).drop_last() =~= d);
        }
    }
}

/// Decodes every timing data block of a section payload and pushes the modes, in order, to
/// the allocation-free context `ctx`.
pub fn process_data_blocks_static(payload: &[u8], version: u8, ctx: &mut StaticContext<'_>)
    ensures
        final(ctx).slots() == slots_with_modes(old(ctx).slots(), section_modes(payload@, version)),
        final(final(ctx).modes_ref())@ == final(old(ctx).modes_ref())@,
        *final(final(ctx).num_modes_ref()) == *final(old(ctx).num_modes_ref()),
        final(final(ctx).warnings_ref())@ == final(old(ctx).warnings_ref())@,
        *final(final(ctx).num_warnings_ref()) == *final(old(ctx).num_warnings_ref()),
{
    let mut found = DisplayCapabilities::default();
    process_data_blocks(payload, version, &mut found);
    let ghost all = found.supported_modes@;
    assert(all == push_modes(Seq::empty(), section_modes(payload@, version)));
    let ghost start = ctx.slots();
    let mut i: usize = 0;
    while i < found.supported_modes.len()
        invariant
            i <= all.len(),
            all == found.supported_modes@,
            ctx.slots() == slots_with_modes(start, all.take(i as int)),
            final(ctx.modes_ref())@ == final(old(ctx).modes_ref())@,
            *final(ctx.num_modes_ref()) == *final(old(ctx).num_modes_ref()),
            final(ctx.warnings_ref())@ == final(old(ctx).warnings_ref())@,
            *final(ctx.num_warnings_ref()) == *final(old(ctx).num_warnings_ref()),
        decreases all.len() - i,
    {
        assert(all.take(i + 1).drop_last() =~= all.take(i as int));
        ctx.push_mode(found.supported_modes[i]);
        i = i + 1;
    }
    assert(all.take(i as int) =~= all);
    proof {
        lemma_slots_ignore_repeats(start, section_modes(payload@, version));
    }
}

} // verus!
