use vstd::prelude::*;

use super::{le16_at, lemma_with_modes_append, opt_mode, push_opt_mode, with_modes};
use crate::capabilities::displayid::metadata::le16;
use crate::model::capabilities::{CapabilitiesView, DisplayCapabilities};
use crate::model::mode::{ModeSource, RefreshRate, StereoMode, SyncDefinition, VideoMode};
use display_types::SyncDefinition as OutsideSync;

verus! {

/// The mode that `display_types::cea861::dmt_to_mode` gives for a VESA DMT ID.
pub uninterp spec fn dmt_mode(id: u16) -> Option<VideoMode>;

/// The mode that `display_types::cea861::vic_to_mode` gives for a CTA-861 VIC.
pub uninterp spec fn vic_mode(vic: u8) -> Option<VideoMode>;

/// The sync definition type of `display_types`, carried through to [`sync_from`] only.
#[verifier::external_type_specification]
#[verifier::external_body]
pub struct ExOutsideSync(OutsideSync);

/// Copies a `display_types` sync definition into this library's type, variant for variant;
/// a variant added to that non-exhaustive enum later gives `None`. Trusted: a conversion,
/// nothing is stated of its result.
#[verifier::external_body]
fn sync_from(s: Option<OutsideSync>) -> Option<SyncDefinition> {
    match s? {
        OutsideSync::AnalogComposite { serrations, sync_on_all_rgb } =>
            Some(SyncDefinition::AnalogComposite { serrations, sync_on_all_rgb }),
        OutsideSync::BipolarAnalogComposite { serrations, sync_on_all_rgb } =>
            Some(SyncDefinition::BipolarAnalogComposite { serrations, sync_on_all_rgb }),
        OutsideSync::DigitalComposite { serrations, h_sync_positive } =>
            Some(SyncDefinition::DigitalComposite { serrations, h_sync_positive }),
        OutsideSync::DigitalSeparate { v_sync_positive, h_sync_positive } =>
            Some(SyncDefinition::DigitalSeparate { v_sync_positive, h_sync_positive }),
        _ => None,
    }
}

/// Looks a VESA DMT ID up in the DMT table of `display_types` and copies the mode, field
/// for field, recording the ID as the mode's source. The stereo mode and CVT algorithm,
/// which no table entry sets, keep their defaults.
///
/// Trusted: the result is named by [`dmt_mode`], a function of the ID alone, and the table
/// defines IDs `0x01`–`0x58` only. The table's contents are not stated.
#[verifier::external_body]
fn dmt_to_mode(id: u16) -> (r: Option<VideoMode>)
    ensures
        r == dmt_mode(id),
        id == 0 || id > 0x58 ==> r is None,
{
    let m = display_types::cea861::dmt_to_mode(id)?;
    Some(VideoMode { width: m.width, height: m.height, interlaced: m.interlaced,
        refresh_rate: match m.refresh_rate {
            Some(r) => Some(RefreshRate { numer: r.numer(), denom: r.denom() }), None => None },
        h_front_porch: m.h_front_porch, h_sync_width: m.h_sync_width, h_blank: m.h_blank,
        v_front_porch: m.v_front_porch, v_sync_width: m.v_sync_width, pixel_clock_khz: m.pixel_clock_khz,
        h_border: m.h_border, v_border: m.v_border, y420: m.y420, sync: sync_from(m.sync),
        source: Some(ModeSource::DmtId(id)), ..Default::default() })
}

/// Looks a CTA-861 VIC up in the VIC table of `display_types` and copies the mode, field for
/// field, recording the VIC as the mode's source. The stereo mode and CVT algorithm, which
/// no table entry sets, keep their defaults.
///
/// Trusted: the result is named by [`vic_mode`], a function of the VIC alone, and the
/// table defines VICs 1–127 and 193–219 only. The table's contents are not stated.
#[verifier::external_body]
pub(crate) fn vic_to_mode(vic: u8) -> (r: Option<VideoMode>)
    ensures
        r == vic_mode(vic),
        vic == 0 || 128 <= vic <= 192 || vic > 219 ==> r is None,
{
    let m = display_types::cea861::vic_to_mode(vic)?;
    Some(VideoMode { width: m.width, height: m.height, interlaced: m.interlaced,
        refresh_rate: match m.refresh_rate {
            Some(r) => Some(RefreshRate { numer: r.numer(), denom: r.denom() }), None => None },
        h_front_porch: m.h_front_porch, h_sync_width: m.h_sync_width, h_blank: m.h_blank,
        v_front_porch: m.v_front_porch, v_sync_width: m.v_sync_width, pixel_clock_khz: m.pixel_clock_khz,
        h_border: m.h_border, v_border: m.v_border, y420: m.y420, sync: sync_from(m.sync),
        source: Some(ModeSource::Vic(vic)), ..Default::default() })
}

/// The mode of an HDMI 1.4 VIC: 1 = 3840×2160@30, 2 = 3840×2160@25, 3 = 3840×2160@24,
/// 4 = 4096×2160@24; other codes have none.
pub open spec fn hdmi_vic_mode(code: u8) -> Option<VideoMode> {
    if code == 1 {
        Some(VideoMode::spec_new(3840, 2160, RefreshRate { numer: 30, denom: 1 }, false))
    } else if code == 2 {
        Some(VideoMode::spec_new(3840, 2160, RefreshRate { numer: 25, denom: 1 }, false))
    } else if code == 3 {
        Some(VideoMode::spec_new(3840, 2160, RefreshRate { numer: 24, denom: 1 }, false))
    } else if code == 4 {
        Some(VideoMode::spec_new(4096, 2160, RefreshRate { numer: 24, denom: 1 }, false))
    } else {
        None
    }
}

/// Returns the mode of an HDMI VIC code (1–4), or `None`.
pub fn hdmi_vic_to_mode(code: u8) -> (r: Option<VideoMode>)
    ensures
        r == hdmi_vic_mode(code),
{
    let (w, h, rate): (u16, u16, u32) = match code {
        1 => (3840, 2160, 30),
        2 => (3840, 2160, 25),
        3 => (3840, 2160, 24),
        4 => (4096, 2160, 24),
        _ => return None,
    };
    Some(VideoMode::new(w, h, RefreshRate::integral(rate), false))
}

/// The mode of `code` in code space `code_type` (`0` DMT, `1` VIC, `2` HDMI VIC, `3`
/// reserved); VIC and HDMI VIC codes above 255 have none.
pub open spec fn coded_mode(code_type: u8, code: u16) -> Option<VideoMode> {
    if code_type == 0 {
        dmt_mode(code)
    } else if code_type == 1 {
        if code <= 255 {
            vic_mode(code as u8)
        } else {
            None
        }
    } else if code_type == 2 {
        if code <= 255 {
            hdmi_vic_mode(code as u8)
        } else {
            None
        }
    } else {
        None
    }
}

/// Resolves a `(code_type, code)` pair against the DMT, VIC or HDMI VIC tables.
pub fn resolve_coded_timing(code_type: u8, code: u16) -> (r: Option<VideoMode>)
    ensures
        r == coded_mode(code_type, code),
{
    match code_type {
        0 => dmt_to_mode(code),
        1 => if code <= 255 {
            vic_to_mode(code as u8)
        } else {
            None
        },
        2 => if code <= 255 {
            hdmi_vic_to_mode(code as u8)
        } else {
            None
        },
        _ => None,
    }
}

/// Code `n` of a code list: one byte each, or two little-endian bytes each.
pub open spec fn code_at(p: Seq<u8>, two_byte: bool, n: int) -> u16 {
    if two_byte {
        le16(p[2 * n], p[2 * n + 1])
    } else {
        p[n] as u16
    }
}

/// The modes of the first `n` codes of a code list, in order, unknown codes skipped.
pub open spec fn code_modes_upto(p: Seq<u8>, code_type: u8, two_byte: bool, n: int) -> Seq<
    VideoMode,
>
    decreases n,
{
    if n <= 0 {
        Seq::empty()
    } else {
        code_modes_upto(p, code_type, two_byte, n - 1) + opt_mode(
            coded_mode(code_type, code_at(p, two_byte, n - 1)),
        )
    }
}

/// Pushes the modes of the code list `payload` (one or two bytes per code) in order.
fn push_code_list(payload: &[u8], code_type: u8, two_byte: bool, caps: &mut DisplayCapabilities)
    ensures
        final(caps)@ == with_modes(
            old(caps)@,
            code_modes_upto(
                payload@,
                code_type,
                two_byte,
                (if two_byte {
                    payload@.len() as int / 2
                } else {
                    payload@.len() as int
                }),
            ),
        ),
{
    let stride: usize = if two_byte {
        2
    } else {
        1
    };
    let ghost c0 = caps@;
    let mut i: usize = 0;
    let mut n: usize = 0;
    while stride <= payload.len() - i
        invariant
            stride == (if two_byte {
                2usize
            } else {
                1usize
            }),
            i == n * stride,
            i <= payload@.len(),
            caps@ == with_modes(c0, code_modes_upto(payload@, code_type, two_byte, n as int)),
        decreases payload@.len() - i,
    {
        let code = if two_byte {
            le16_at(payload, i)
        } else {
            payload[i] as u16
        };
        assert(code == code_at(payload@, two_byte, n as int));
        let m = resolve_coded_timing(code_type, code);
        proof {
            lemma_with_modes_append(
                c0,
                code_modes_upto(payload@, code_type, two_byte, n as int),
                opt_mode(m),
            );
        }
        push_opt_mode(caps, m);
        i = i + stride;
        n = n + 1;
    }
    assert(n == (if two_byte {
        payload@.len() as int / 2
    } else {
        payload@.len() as int
    }));
}

/// Decodes a Type IV DMT/VIC Code Block payload (one byte per code, in code space
/// `code_type`) and pushes the resolved modes.
pub fn decode_type_iv_block(payload: &[u8], code_type: u8, caps: &mut DisplayCapabilities)
    ensures
        final(caps)@ == with_modes(
            old(caps)@,
            code_modes_upto(payload@, code_type, false, payload@.len() as int),
        ),
{
    push_code_list(payload, code_type, false, caps);
}

/// Whether the Type VIII revision byte selects two-byte codes (bit 3).
pub open spec fn viii_two_byte(revision: u8) -> bool {
    (revision >> 3) & 1 != 0
}

/// Decodes a Type VIII Enumerated Timing Code block payload: the revision byte selects the
/// code space (bits 7:6) and the code width (bit 3); a trailing odd byte of a two-byte list
/// is ignored.
pub fn decode_type_viii_block(payload: &[u8], revision: u8, caps: &mut DisplayCapabilities)
    ensures
        final(caps)@ == with_modes(
            old(caps)@,
            code_modes_upto(
                payload@,
                (revision >> 6) & 3,
                viii_two_byte(revision),
                (if viii_two_byte(revision) {
                    payload@.len() as int / 2
                } else {
                    payload@.len() as int
                }),
            ),
        ),
{
    let code_type = (revision >> 6) & 0x03;
    let two_byte = (revision >> 3) & 1 != 0;
    push_code_list(payload, code_type, two_byte, caps);
}

/// Whether bit `k % 8` of byte `k / 8` of a presence bitmap is set.
pub open spec fn bitmap_bit(p: Seq<u8>, k: int) -> bool {
    p[k / 8] & (1u8 << ((k % 8) as u8)) != 0
}

/// The weight of bit `i` of a byte, least significant first.
pub open spec fn bit_weight(i: int) -> int {
    if i == 0 {
        1
    } else if i == 1 {
        2
    } else if i == 2 {
        4
    } else if i == 3 {
        8
    } else if i == 4 {
        16
    } else if i == 5 {
        32
    } else if i == 6 {
        64
    } else {
        128
    }
}

/// Bit `k` of a presence bitmap is bit `k mod 8`, least significant first, of byte `k / 8`:
/// bit 0 of byte 0 stands for code 1, bit 7 of byte 0 for code 8, bit 0 of byte 1 for code 9.
pub proof fn lemma_bitmap_bit_order(p: Seq<u8>, k: int)
    requires
        0 <= k < 8 * p.len(),
    ensures
        bitmap_bit(p, k) == (((p[k / 8] as int) / bit_weight(k % 8)) % 2 == 1),
{
    let b = p[k / 8];
    assert({
        &&& (b & (1u8 << 0u8) != 0) == (b % 2 == 1)
        &&& (b & (1u8 << 1u8) != 0) == ((b / 2) % 2 == 1)
        &&& (b & (1u8 << 2u8) != 0) == ((b / 4) % 2 == 1)
        &&& (b & (1u8 << 3u8) != 0) == ((b / 8) % 2 == 1)
        &&& (b & (1u8 << 4u8) != 0) == ((b / 16) % 2 == 1)
        &&& (b & (1u8 << 5u8) != 0) == ((b / 32) % 2 == 1)
        &&& (b & (1u8 << 6u8) != 0) == ((b / 64) % 2 == 1)
        &&& (b & (1u8 << 7u8) != 0) == ((b / 128) % 2 == 1)
    }) by (bit_vector);
}

/// The modes of the first `n` bits of a presence bitmap: set bit `k` stands for DMT ID
/// `k + 1` (`dmt`) or VIC `k + 1` (otherwise).
pub open spec fn bitmap_modes_upto(p: Seq<u8>, dmt: bool, n: int) -> Seq<VideoMode>
    decreases n,
{
    if n <= 0 {
        Seq::empty()
    } else {
        bitmap_modes_upto(p, dmt, n - 1) + (if bitmap_bit(p, n - 1) {
            opt_mode(
                if dmt {
                    dmt_mode(n as u16)
                } else {
                    vic_mode(n as u8)
                },
            )
        } else {
            Seq::empty()
        })
    }
}

/// The number of bitmap bytes read: at most `limit`.
pub open spec fn bitmap_len(p: Seq<u8>, limit: int) -> int {
    if p.len() < limit {
        p.len() as int
    } else {
        limit
    }
}

fn push_bitmap(payload: &[u8], dmt: bool, caps: &mut DisplayCapabilities)
    ensures
        final(caps)@ == with_modes(
            old(caps)@,
            bitmap_modes_upto(
                payload@,
                dmt,
                8 * bitmap_len(
                    payload@,
                    (if dmt {
                        10
                    } else {
                        8
                    }),
                ),
            ),
        ),
{
    let limit: usize = if dmt {
        10
    } else {
        8
    };
    let nbytes = if payload.len() < limit {
        payload.len()
    } else {
        limit
    };
    let total = nbytes * 8;
    let ghost c0 = caps@;
    let mut k: usize = 0;
    while k < total
        invariant
            total == nbytes * 8,
            nbytes <= limit <= 10,
            nbytes <= payload@.len(),
            limit == (if dmt {
                10usize
            } else {
                8usize
            }),
            k <= total,
            caps@ == with_modes(c0, bitmap_modes_upto(payload@, dmt, k as int)),
        decreases total - k,
    {
        let byte = payload[k / 8];
        let bit = (k % 8) as u8;
        let ghost step = if bitmap_bit(payload@, k as int) {
            opt_mode(
                if dmt {
                    dmt_mode((k + 1) as u16)
                } else {
                    vic_mode((k + 1) as u8)
                },
            )
        } else {
            Seq::empty()
        };
        proof {
            lemma_with_modes_append(c0, bitmap_modes_upto(payload@, dmt, k as int), step);
        }
        if byte & (1u8 << bit) != 0 {
            let m = if dmt {
                dmt_to_mode((k + 1) as u16)
            } else {
                vic_to_mode((k + 1) as u8)
            };
            push_opt_mode(caps, m);
        } else {
            assert(with_modes(caps@, Seq::empty()).supported_modes == caps@.supported_modes);
        }
        k = k + 1;
    }
}

/// Decodes a VESA Video Timing Block presence bitmap (at most 10 bytes; bit `k` stands for
/// DMT ID `k + 1`) and pushes the supported modes.
pub fn decode_vesa_video_timing_block(payload: &[u8], caps: &mut DisplayCapabilities)
    ensures
        final(caps)@ == with_modes(
            old(caps)@,
            bitmap_modes_upto(payload@, true, 8 * bitmap_len(payload@, 10)),
        ),
{
    push_bitmap(payload, true, caps);
}

/// Decodes a CTA-861 Video Timing Block presence bitmap (at most 8 bytes; bit `k` stands
/// for VIC `k + 1`) and pushes the supported modes.
pub fn decode_cta_video_timing_block(payload: &[u8], caps: &mut DisplayCapabilities)
    ensures
        final(caps)@ == with_modes(
            old(caps)@,
            bitmap_modes_upto(payload@, false, 8 * bitmap_len(payload@, 8)),
        ),
{
    push_bitmap(payload, false, caps);
}

} // verus!
