use vstd::prelude::*;

use super::{le16_at, opt_mode, push_opt_mode, with_modes};
use crate::capabilities::displayid::metadata::{le16, lemma_le16_parts};
use crate::model::capabilities::{CapabilitiesView, DisplayCapabilities};
use crate::model::mode::{CvtAlgorithm, RefreshRate, StereoMode, VideoMode};

verus! {

// --- Type III (3-byte descriptors) -----------------------------------------------------------

/// The `(height, width)` parts of aspect ratio code `code` (`None` for undefined and
/// reserved codes, 8 and up).
pub open spec fn aspect_parts(code: u8) -> Option<(u32, u32)> {
    if code == 0 {
        Some((1u32, 1u32))
    } else if code == 1 {
        Some((4u32, 5u32))
    } else if code == 2 {
        Some((3u32, 4u32))
    } else if code == 3 {
        Some((9u32, 15u32))
    } else if code == 4 {
        Some((9u32, 16u32))
    } else if code == 5 {
        Some((10u32, 16u32))
    } else if code == 6 {
        Some((27u32, 64u32))
    } else if code == 7 {
        Some((135u32, 256u32))
    } else {
        None
    }
}

/// The mode of a 3-byte Type III descriptor: width `(byte 1 + 1) × 8`, height from the
/// aspect ratio (byte 0 bits 3:0), refresh `(byte 2 bits 6:0) + 1` Hz, interlace from byte
/// 2 bit 7. `None` for an undefined aspect ratio or a height that is not a whole number of
/// lines.
pub open spec fn type_iii_mode(d: Seq<u8>) -> Option<VideoMode> {
    let h = (d[1] + 1) * 8;
    match aspect_parts(d[0] & 0x0F) {
        Some((ar_h, ar_w)) => {
            let v_raw = h * ar_h;
            if v_raw % (ar_w as int) != 0 || v_raw / (ar_w as int) == 0 {
                None
            } else {
                Some(
                    VideoMode::spec_new(
                        h as u16,
                        (v_raw / (ar_w as int)) as u16,
                        RefreshRate { numer: ((d[2] & 0x7F) + 1) as u32, denom: 1 },
                        d[2] & 0x80 != 0,
                    ),
                )
            }
        },
        None => None,
    }
}

/// A Type III descriptor's mode is `8 × (byte 1 + 1)` pixels wide, refreshes at
/// `(byte 2 bits 6:0) + 1` Hz, is interlaced exactly when byte 2 bit 7 is set, and has the
/// aspect ratio that the low nibble of byte 0 names: height × W == width × H for W:H = 1:1,
/// 5:4, 4:3, 15:9, 16:9, 16:10, 64:27 and 256:135 for codes 0 to 7. Codes 8 and up give no
/// mode.
pub proof fn lemma_type_iii_aspect(d: Seq<u8>)
    requires
        d.len() == 3,
    ensures
        type_iii_mode(d) matches Some(m) ==> {
            &&& m.width == 8 * (d[1] + 1)
            &&& m.refresh_rate == Some(RefreshRate { numer: (d[2] % 128 + 1) as u32, denom: 1 })
            &&& m.interlaced == (d[2] >= 128)
            &&& d[0] % 16 <= 7
            &&& (d[0] % 16 == 0 ==> m.height * 1 == m.width * 1)
            &&& (d[0] % 16 == 1 ==> m.height * 5 == m.width * 4)
            &&& (d[0] % 16 == 2 ==> m.height * 4 == m.width * 3)
            &&& (d[0] % 16 == 3 ==> m.height * 15 == m.width * 9)
            &&& (d[0] % 16 == 4 ==> m.height * 16 == m.width * 9)
            &&& (d[0] % 16 == 5 ==> m.height * 16 == m.width * 10)
            &&& (d[0] % 16 == 6 ==> m.height * 64 == m.width * 27)
            &&& (d[0] % 16 == 7 ==> m.height * 256 == m.width * 135)
        },
        d[0] % 16 >= 8 ==> type_iii_mode(d) is None,
{
    let (b0, b2) = (d[0], d[2]);
    assert(b0 & 0x0F == b0 % 16 && b2 & 0x7F == b2 % 128 && (b2 & 0x80 != 0) == (b2 >= 128))
        by (bit_vector);
    let h = (d[1] + 1) * 8;
    assert(h <= 2048);
    if let Some((ar_h, ar_w)) = aspect_parts(d[0] & 0x0F) {
        let v_raw = h * ar_h;
        if v_raw % (ar_w as int) == 0 && v_raw / (ar_w as int) != 0 {
            assert((v_raw / (ar_w as int)) * ar_w == v_raw) by (nonlinear_arith)
                requires
                    v_raw % (ar_w as int) == 0,
                    ar_w > 0,
            ;
            assert(v_raw / (ar_w as int) <= v_raw) by (nonlinear_arith)
                requires
                    ar_w > 0,
                    v_raw >= 0,
            ;
        }
    }
}

/// Decodes one 3-byte Type III Short Video Timing descriptor and pushes its mode, if any.
pub fn decode_type_iii_descriptor(d: &[u8], caps: &mut DisplayCapabilities)
    requires
        d@.len() == 3,
    ensures
        final(caps)@ == with_modes(old(caps)@, opt_mode(type_iii_mode(d@))),
{
    let aspect_code = d[0] & 0x0F;
    let h_active = ((d[1] as u16) + 1) * 8;
    let interlaced = (d[2] & 0x80) != 0;
    let b2 = d[2];
    assert(b2 & 0x7F <= 0x7F) by (bit_vector);
    let refresh_rate = (b2 & 0x7F) as u16 + 1;
    let (ar_h, ar_w): (u32, u32) = match aspect_code {
        0 => (1, 1),
        1 => (4, 5),
        2 => (3, 4),
        3 => (9, 15),
        4 => (9, 16),
        5 => (10, 16),
        6 => (27, 64),
        7 => (135, 256),
        _ => {
            proof {
                assert(with_modes(caps@, Seq::empty()).supported_modes == caps@.supported_modes);
            }
            return;
        },
    };
    assert(ar_h <= ar_w && 1 <= ar_w && ar_h <= 135);
    assert(h_active <= 2048);
    assert((h_active as u32) * ar_h <= 2048 * 135) by (nonlinear_arith)
        requires
            h_active <= 2048,
            ar_h <= 135,
    ;
    let v_raw = (h_active as u32) * ar_h;
    if v_raw % ar_w != 0 {
        proof {
            assert(with_modes(caps@, Seq::empty()).supported_modes == caps@.supported_modes);
        }
        return;
    }
    let v_active_wide = v_raw / ar_w;
    assert(v_active_wide <= h_active) by (nonlinear_arith)
        requires
            ar_w >= 1,
            ar_h <= ar_w,
            v_raw == (h_active as u32) * ar_h,
            v_active_wide == v_raw / ar_w,
    ;
    let m = if v_active_wide == 0 {
        None
    } else {
        Some(
            VideoMode::new(
                h_active,
                (v_active_wide as u16),
                RefreshRate::integral(refresh_rate as u32),
                interlaced,
            ),
        )
    };
    push_opt_mode(caps, m);
}

// --- Type V (7-byte descriptors) -------------------------------------------------------------

/// The mode of a 7-byte Type V descriptor: exact width (bytes 1–2) and height (bytes 3–4),
/// refresh `byte 5 + 1` Hz, progressive. `None` for a zero width or height.
pub open spec fn type_v_mode(d: Seq<u8>) -> Option<VideoMode> {
    let h = le16(d[1], d[2]);
    let v = le16(d[3], d[4]);
    if h == 0 || v == 0 {
        None
    } else {
        Some(VideoMode::spec_new(h, v, RefreshRate { numer: (d[5] + 1) as u32, denom: 1 }, false))
    }
}

/// A Type V descriptor's mode is as wide as the little-endian word at bytes 1–2, as high as
/// the word at bytes 3–4, and refreshes at byte 5 plus one Hz; a zero width or height gives
/// no mode.
pub proof fn lemma_type_v_fields(d: Seq<u8>)
    requires
        d.len() == 7,
    ensures
        (type_v_mode(d) is Some) == (d[1] + 256 * d[2] != 0 && d[3] + 256 * d[4] != 0),
        type_v_mode(d) matches Some(m) ==> {
            &&& m.width == d[1] + 256 * d[2]
            &&& m.height == d[3] + 256 * d[4]
            &&& m.refresh_rate == Some(RefreshRate { numer: (d[5] + 1) as u32, denom: 1 })
            &&& !m.interlaced
        },
{
    lemma_le16_parts(d[1], d[2]);
    lemma_le16_parts(d[3], d[4]);
}

/// Decodes one 7-byte Type V Short Video Timing descriptor and pushes its mode, if any.
pub fn decode_type_v_descriptor(d: &[u8], caps: &mut DisplayCapabilities)
    requires
        d@.len() == 7,
    ensures
        final(caps)@ == with_modes(old(caps)@, opt_mode(type_v_mode(d@))),
{
    let h_active = le16_at(d, 1);
    let v_active = le16_at(d, 3);
    let refresh_rate = (d[5] as u16) + 1;
    let m = if h_active == 0 || v_active == 0 {
        None
    } else {
        Some(VideoMode::new(h_active, v_active, RefreshRate::integral(refresh_rate as u32), false))
    };
    push_opt_mode(caps, m);
}

// --- Type IX (6-byte descriptors) ------------------------------------------------------------

/// Pixel clock and blanking that a CVT formula gives for a mode.
#[derive(Debug, Clone, Copy, PartialEq, Eq, Structural)]
pub struct ComputedTiming {
    /// Pixel clock in kHz.
    pub pixel_clock_khz: u32,
    /// Width plus horizontal blanking.
    pub h_total: u16,
    /// Height plus vertical blanking.
    pub v_total: u16,
    /// Horizontal front porch in pixels.
    pub h_front_porch: u16,
    /// Horizontal sync width in pixels.
    pub h_sync_width: u16,
    /// Vertical front porch in lines.
    pub v_front_porch: u16,
    /// Vertical sync width in lines.
    pub v_sync_width: u16,
}

/// The timing that `display_types::compute_type_ix_timing` computes for a `width × height`
/// mode at an integral `refresh_hz` with the reduced-blanking formula of version 2
/// (`rb_v2`) or version 1.
pub uninterp spec fn type_ix_timing(width: u16, height: u16, refresh_hz: u32, rb_v2: bool) -> Option<
    ComputedTiming,
>;

/// Calls `display_types::compute_type_ix_timing` with its CVT-RB v1 (`CvtRb`) or v2
/// (`CvtR2`) evaluator at an integral refresh rate and copies the result. Trusted: the
/// result is named by [`type_ix_timing`], a function of the arguments alone; how the
/// formulas compute the timing is not stated. Rates above 256 Hz are excluded: for some of
/// them the outside formula's line count overflows.
#[verifier::external_body]
fn compute_type_ix_timing(width: u16, height: u16, refresh_hz: u32, rb_v2: bool) -> (r: Option<
    ComputedTiming,
>)
    requires
        refresh_hz <= 256,
    ensures
        r == type_ix_timing(width, height, refresh_hz, rb_v2),
{
    let alg = if rb_v2 {
        display_types::CvtAlgorithm::CvtR2
    } else {
        display_types::CvtAlgorithm::CvtRb
    };
    let rate = display_types::RefreshRate::integral(refresh_hz);
    let t = display_types::compute_type_ix_timing(width, height, rate, alg)?;
    Some(ComputedTiming { pixel_clock_khz: t.pixel_clock_khz, h_total: t.h_total,
        v_total: t.v_total, h_front_porch: t.h_front_porch, h_sync_width: t.h_sync_width,
        v_front_porch: t.v_front_porch, v_sync_width: t.v_sync_width })
}

/// The reduced-blanking formula that evaluates algorithm `alg`: version 1 for CVT-RB1,
/// version 2 (`true`) for CVT-RB2; the other algorithms have none.
pub open spec fn formula_of(alg: CvtAlgorithm) -> Option<bool> {
    match alg {
        CvtAlgorithm::CvtRb1 => Some(false),
        CvtAlgorithm::CvtRb2 => Some(true),
        _ => None,
    }
}

/// The mode of a Type IX descriptor whose width, height and refresh are given, once the
/// formula's timing `t` is known: the CVT algorithm (byte 0 bits 2:0) and the Y420 flag
/// (byte 0 bit 4) are recorded, and `t`, when present, fills in the detailed timing.
pub open spec fn type_ix_mode_with(
    d0: u8,
    width: u16,
    height: u16,
    refresh_hz: u32,
    t: Option<ComputedTiming>,
) -> VideoMode {
    let base = VideoMode {
        cvt_algorithm: Some(CvtAlgorithm::spec_from_bits(d0)),
        y420: (d0 >> 4) & 1 != 0,
        ..VideoMode::spec_new(width, height, RefreshRate { numer: refresh_hz, denom: 1 }, false)
    };
    match t {
        Some(t) => base.spec_with_detailed_timing(
            t.pixel_clock_khz,
            t.h_front_porch,
            t.h_sync_width,
            t.v_front_porch,
            t.v_sync_width,
            0,
            0,
            StereoMode::NoStereo,
            None,
        ),
        None => base,
    }
}

/// Builds the mode of a Type IX descriptor from its options byte, its size and refresh, and
/// the formula's timing `t`.
pub fn type_ix_mode_from(d0: u8, width: u16, height: u16, refresh_hz: u32, t: Option<ComputedTiming>) -> (r:
    VideoMode)
    ensures
        r == type_ix_mode_with(d0, width, height, refresh_hz, t),
{
    let cvt_algorithm = CvtAlgorithm::from_bits(d0);
    let y420 = (d0 >> 4) & 1 != 0;
    let mode = VideoMode::new(width, height, RefreshRate::integral(refresh_hz), false).with_cvt_algorithm(
        cvt_algorithm,
    ).with_y420(y420);
    match t {
        Some(t) => mode.with_detailed_timing(
            t.pixel_clock_khz,
            t.h_front_porch,
            t.h_sync_width,
            t.v_front_porch,
            t.v_sync_width,
            0,
            0,
            StereoMode::NoStereo,
            None,
        ),
        None => mode,
    }
}

/// The mode of a 6-byte Type IX descriptor: exact width (bytes 1–2) and height (bytes
/// 3–4), refresh `byte 5 + 1` Hz, progressive, with the formula's timing filled in where
/// the formula gives one. `None` for a zero width or height.
pub open spec fn type_ix_mode(d: Seq<u8>) -> Option<VideoMode> {
    let h = le16(d[1], d[2]);
    let v = le16(d[3], d[4]);
    let hz = (d[5] + 1) as u32;
    if h == 0 || v == 0 {
        None
    } else {
        Some(
            type_ix_mode_with(
                d[0],
                h,
                v,
                hz,
                match formula_of(CvtAlgorithm::spec_from_bits(d[0])) {
                    Some(rb_v2) => type_ix_timing(h, v, hz, rb_v2),
                    None => None,
                },
            ),
        )
    }
}

/// A Type IX descriptor's mode is as wide as the little-endian word at bytes 1–2, as high as
/// the word at bytes 3–4, refreshes at byte 5 plus one Hz, and carries a YCbCr 4:2:0 flag
/// equal to bit 4 of byte 0; a zero width or height gives no mode. Byte 0 bits 2–0 name the
/// CVT algorithm; for code 0 (CVT-RB1) the detailed timing is that of the version 1
/// reduced-blanking formula, for code 1 (CVT-RB2) that of the version 2 formula, when the
/// formula gives one, and the other codes carry no detailed timing.
pub proof fn lemma_type_ix_fields(d: Seq<u8>)
    requires
        d.len() == 6,
    ensures
        (type_ix_mode(d) is Some) == (d[1] + 256 * d[2] != 0 && d[3] + 256 * d[4] != 0),
        type_ix_mode(d) matches Some(m) ==> {
            let w = (d[1] + 256 * d[2]) as u16;
            let h = (d[3] + 256 * d[4]) as u16;
            let hz = (d[5] + 1) as u32;
            &&& m.cvt_algorithm == Some(CvtAlgorithm::spec_from_bits(d[0]))
            &&& (d[0] % 8 == 0) == (m.cvt_algorithm == Some(CvtAlgorithm::CvtRb1))
            &&& (d[0] % 8 == 1) == (m.cvt_algorithm == Some(CvtAlgorithm::CvtRb2))
            &&& d[0] % 8 == 0 ==> timing_filled(m, type_ix_timing(w, h, hz, false))
            &&& d[0] % 8 == 1 ==> timing_filled(m, type_ix_timing(w, h, hz, true))
            &&& d[0] % 8 >= 2 ==> m.pixel_clock_khz is None
            &&& m.width == d[1] + 256 * d[2]
            &&& m.height == d[3] + 256 * d[4]
            &&& m.refresh_rate == Some(RefreshRate { numer: (d[5] + 1) as u32, denom: 1 })
            &&& m.y420 == ((d[0] / 16) % 2 == 1)
            &&& !m.interlaced
        },
{
    lemma_le16_parts(d[1], d[2]);
    lemma_le16_parts(d[3], d[4]);
    let b0 = d[0];
    assert(((b0 >> 4) & 1 != 0) == ((b0 / 16) % 2 == 1)) by (bit_vector);
    CvtAlgorithm::lemma_codes(b0);
}

/// Whether mode `m` carries the formula timing `t` (pixel clock, porches and sync widths)
/// when there is one, and no pixel clock when there is none.
pub open spec fn timing_filled(m: VideoMode, t: Option<ComputedTiming>) -> bool {
    match t {
        Some(t) => {
            &&& m.pixel_clock_khz == Some(t.pixel_clock_khz)
            &&& m.h_front_porch == t.h_front_porch
            &&& m.h_sync_width == t.h_sync_width
            &&& m.v_front_porch == t.v_front_porch
            &&& m.v_sync_width == t.v_sync_width
        },
        None => m.pixel_clock_khz is None,
    }
}

/// Decodes one 6-byte Type IX Formula-Based Timing descriptor and pushes its mode, if any.
pub fn decode_type_ix_descriptor(d: &[u8], caps: &mut DisplayCapabilities)
    requires
        d@.len() == 6,
    ensures
        final(caps)@ == with_modes(old(caps)@, opt_mode(type_ix_mode(d@))),
{
    let h_active = le16_at(d, 1);
    let v_active = le16_at(d, 3);
    let refresh_rate = (d[5] as u32) + 1;
    let m = if h_active == 0 || v_active == 0 {
        None
    } else {
        let cvt_algorithm = CvtAlgorithm::from_bits(d[0]);
        let t = match cvt_algorithm {
            CvtAlgorithm::CvtRb1 => compute_type_ix_timing(h_active, v_active, refresh_rate, false),
            CvtAlgorithm::CvtRb2 => compute_type_ix_timing(h_active, v_active, refresh_rate, true),
            _ => None,
        };
        Some(type_ix_mode_from(d[0], h_active, v_active, refresh_rate, t))
    };
    push_opt_mode(caps, m);
}

} // verus!
