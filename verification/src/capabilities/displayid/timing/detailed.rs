use vstd::prelude::*;

use super::{le16_at, opt_mode, push_opt_mode, with_modes};
use crate::capabilities::displayid::metadata::{
    le16, le24, lemma_byte_bits, lemma_le16_parts, lemma_le24_le32_parts,
};
use crate::model::capabilities::{CapabilitiesView, DisplayCapabilities};
use crate::model::mode::{reduced_rate, RefreshRate, StereoMode, SyncDefinition, VideoMode};

verus! {

/// A mode with detailed timing and digital separate sync, at the rate `pixel_clock_hz /
/// total` when that fraction is representable.
pub open spec fn detailed_mode(
    width: u16,
    height: u16,
    interlaced: bool,
    pixel_clock_hz: nat,
    total: nat,
    pixel_clock_khz: u32,
    h_front_porch: u16,
    h_sync_width: u16,
    v_front_porch: u16,
    v_sync_width: u16,
    h_sync_positive: bool,
    v_sync_positive: bool,
) -> Option<VideoMode> {
    match reduced_rate(pixel_clock_hz, total) {
        Some(rate) => Some(
            VideoMode::spec_new(width, height, rate, interlaced).spec_with_detailed_timing(
                pixel_clock_khz,
                h_front_porch,
                h_sync_width,
                v_front_porch,
                v_sync_width,
                0,
                0,
                StereoMode::NoStereo,
                Some(SyncDefinition::DigitalSeparate { v_sync_positive, h_sync_positive }),
            ),
        ),
        None => None,
    }
}

fn build_detailed_mode(
    width: u16,
    height: u16,
    interlaced: bool,
    pixel_clock_hz: u64,
    total: u64,
    pixel_clock_khz: u32,
    h_front_porch: u16,
    h_sync_width: u16,
    v_front_porch: u16,
    v_sync_width: u16,
    h_sync_positive: bool,
    v_sync_positive: bool,
) -> (r: Option<VideoMode>)
    ensures
        r == detailed_mode(
            width,
            height,
            interlaced,
            pixel_clock_hz as nat,
            total as nat,
            pixel_clock_khz,
            h_front_porch,
            h_sync_width,
            v_front_porch,
            v_sync_width,
            h_sync_positive,
            v_sync_positive,
        ),
{
    match RefreshRate::from_ratio(pixel_clock_hz, total) {
        Some(rate) => Some(
            VideoMode::new(width, height, rate, interlaced).with_detailed_timing(
                pixel_clock_khz,
                h_front_porch,
                h_sync_width,
                v_front_porch,
                v_sync_width,
                0,
                0,
                StereoMode::NoStereo,
                Some(SyncDefinition::DigitalSeparate { v_sync_positive, h_sync_positive }),
            ),
        ),
        None => None,
    }
}

// --- Types I and VII (20-byte descriptors) ---------------------------------------------------

/// The mode of a 20-byte Type I descriptor (every field stored as `value − 1`; pixel clock
/// in units of `unit` kHz): `None` for a null descriptor (raw pixel clock 0), for a stored
/// size field of `0xFFFF` (its decoded value would not fit 16 bits), and when the refresh
/// rate is not representable. Sync polarities are bit 15 of the front porch words.
pub open spec fn type_1_7_mode(d: Seq<u8>, unit: nat) -> Option<VideoMode> {
    let raw = le24(d[0], d[1], d[2]);
    let ha = le16(d[4], d[5]);
    let hb = le16(d[6], d[7]);
    let hfw = le16(d[8], d[9]);
    let hsw = le16(d[10], d[11]);
    let va = le16(d[12], d[13]);
    let vb = le16(d[14], d[15]);
    let vfw = le16(d[16], d[17]);
    let vsw = le16(d[18], d[19]);
    if raw == 0 || ha == 0xFFFF || hb == 0xFFFF || hsw == 0xFFFF || va == 0xFFFF || vb == 0xFFFF
        || vsw == 0xFFFF {
        None
    } else {
        let pclk = (raw + 1) * unit;
        detailed_mode(
            (ha + 1) as u16,
            (va + 1) as u16,
            d[3] & 0x10 != 0,
            (pclk * 1000) as nat,
            ((ha + 1 + hb + 1) * (va + 1 + vb + 1)) as nat,
            pclk as u32,
            ((hfw & 0x7FFF) + 1) as u16,
            (hsw + 1) as u16,
            ((vfw & 0x7FFF) + 1) as u16,
            (vsw + 1) as u16,
            hfw >> 15 != 0,
            vfw >> 15 != 0,
        )
    }
}

/// A Type I or Type VII descriptor's mode has horizontal sync positive exactly when bit 7
/// of byte 9 (the top bit of the horizontal front porch word) is set and vertical sync
/// positive exactly when bit 7 of byte 17 (the top bit of the vertical front porch word) is
/// set. Its width and height are the little-endian words at bytes 4–5 and 12–13 plus one,
/// its front porches the low 15 bits of the words at bytes 8–9 and 16–17 plus one, and its
/// sync widths the words at bytes 10–11 and 18–19 plus one. Its pixel clock is the
/// little-endian 24-bit value at bytes 0–2 plus one, times `unit` kHz, and its refresh rate
/// is that clock in Hz over the total pixels per frame, (width + horizontal blanking) ×
/// (height + vertical blanking), with the blankings the words at bytes 6–7 and 14–15 plus
/// one. It is interlaced exactly when bit 4 of byte 3 is set. A raw pixel clock of zero
/// gives no mode.
pub proof fn lemma_type_1_7_fields(d: Seq<u8>, unit: nat)
    requires
        d.len() == 20,
        unit <= 255,
    ensures
        d[0] == 0 && d[1] == 0 && d[2] == 0 ==> type_1_7_mode(d, unit) is None,
        type_1_7_mode(d, unit) matches Some(m) ==> {
            let clock = (d[0] + 256 * d[1] + 65536 * d[2] + 1) * unit;
            let h_total = d[4] + 256 * d[5] + 1 + d[6] + 256 * d[7] + 1;
            let v_total = d[12] + 256 * d[13] + 1 + d[14] + 256 * d[15] + 1;
            &&& m.pixel_clock_khz == Some(clock as u32)
            &&& m.refresh_rate == reduced_rate((clock * 1000) as nat, (h_total * v_total) as nat)
            &&& m.sync == Some(
                SyncDefinition::DigitalSeparate {
                    v_sync_positive: d[17] >= 128,
                    h_sync_positive: d[9] >= 128,
                },
            )
            &&& m.width == d[4] + 256 * d[5] + 1
            &&& m.height == d[12] + 256 * d[13] + 1
            &&& m.h_front_porch == d[8] + 256 * (d[9] % 128) + 1
            &&& m.v_front_porch == d[16] + 256 * (d[17] % 128) + 1
            &&& m.h_sync_width == d[10] + 256 * d[11] + 1
            &&& m.v_sync_width == d[18] + 256 * d[19] + 1
            &&& m.interlaced == ((d[3] / 16) % 2 == 1)
        },
{
    lemma_byte_bits(d[3]);
    lemma_le24_le32_parts(d[0], d[1], d[2], 0);
    lemma_le16_parts(d[4], d[5]);
    lemma_le16_parts(d[6], d[7]);
    lemma_le16_parts(d[8], d[9]);
    lemma_le16_parts(d[10], d[11]);
    lemma_le16_parts(d[12], d[13]);
    lemma_le16_parts(d[14], d[15]);
    lemma_le16_parts(d[16], d[17]);
    lemma_le16_parts(d[18], d[19]);
}

/// Decodes the shared body of Type I (`unit` = 10 kHz) and Type VII (`unit` = 1 kHz)
/// descriptors; the raw pixel clock plus one times `unit` is the clock in kHz, which for
/// `unit` up to 255 fits in 32 bits.
pub fn decode_type_1_7_descriptor_body(d: &[u8], unit: u32) -> (r: Option<VideoMode>)
    requires
        d@.len() == 20,
        unit <= 255,
    ensures
        r == type_1_7_mode(d@, unit as nat),
{
    let b0 = d[0];
    let b1 = d[1];
    let b2 = d[2];
    let raw = (b0 as u32) | ((b1 as u32) << 8) | ((b2 as u32) << 16);
    if raw == 0 {
        return None;
    }
    assert(raw <= 0xFF_FFFF) by (bit_vector)
        requires
            raw == (b0 as u32) | ((b1 as u32) << 8) | ((b2 as u32) << 16),
    ;
    assert((raw + 1) * unit <= 0x100_0000 * 255) by (nonlinear_arith)
        requires
            raw <= 0xFF_FFFF,
            unit <= 255,
    ;
    let pixel_clock_khz = (raw + 1) * unit;
    let interlaced = (d[3] & 0x10) != 0;
    let ha = le16_at(d, 4);
    let hb = le16_at(d, 6);
    let hfw = le16_at(d, 8);
    let hsw = le16_at(d, 10);
    let va = le16_at(d, 12);
    let vb = le16_at(d, 14);
    let vfw = le16_at(d, 16);
    let vsw = le16_at(d, 18);
    if ha == 0xFFFF || hb == 0xFFFF || hsw == 0xFFFF || va == 0xFFFF || vb == 0xFFFF || vsw
        == 0xFFFF {
        return None;
    }
    assert(hfw & 0x7FFF <= 0x7FFF && vfw & 0x7FFF <= 0x7FFF) by (bit_vector);
    let h_front_porch = (hfw & 0x7FFF) + 1;
    let v_front_porch = (vfw & 0x7FFF) + 1;
    let h_total = (ha as u64 + 1) + (hb as u64 + 1);
    let v_total = (va as u64 + 1) + (vb as u64 + 1);
    assert(h_total * v_total <= 0x2_0000 * 0x2_0000) by (nonlinear_arith)
        requires
            h_total <= 0x2_0000,
            v_total <= 0x2_0000,
    ;
    build_detailed_mode(
        ha + 1,
        va + 1,
        interlaced,
        pixel_clock_khz as u64 * 1000,
        h_total * v_total,
        pixel_clock_khz,
        h_front_porch,
        hsw + 1,
        v_front_porch,
        vsw + 1,
        (hfw >> 15) != 0,
        (vfw >> 15) != 0,
    )
}

/// Decodes one 20-byte Type I Video Timing descriptor and pushes its mode, if any.
pub fn decode_type_i_descriptor(d: &[u8], caps: &mut DisplayCapabilities)
    requires
        d@.len() == 20,
    ensures
        final(caps)@ == with_modes(old(caps)@, opt_mode(type_1_7_mode(d@, 10))),
{
    let m = decode_type_1_7_descriptor_body(d, 10);
    push_opt_mode(caps, m);
}

/// The mode of a 20-byte Type VII descriptor (values stored as is; pixel clock in kHz):
/// `None` for a zero pixel clock, a zero active or blanking size, or a refresh rate that is
/// not representable.
pub open spec fn type_vii_mode(d: Seq<u8>) -> Option<VideoMode> {
    let pclk = le24(d[0], d[1], d[2]);
    let ha = le16(d[4], d[5]);
    let hb = le16(d[6], d[7]);
    let hfw = le16(d[8], d[9]);
    let va = le16(d[12], d[13]);
    let vb = le16(d[14], d[15]);
    let vfw = le16(d[16], d[17]);
    if pclk == 0 || ha == 0 || va == 0 || hb == 0 || vb == 0 {
        None
    } else {
        detailed_mode(
            ha,
            va,
            (d[3] >> 4) & 1 != 0,
            (pclk * 1000) as nat,
            ((ha + hb) * (va + vb)) as nat,
            pclk,
            hfw & 0x7FFF,
            le16(d[10], d[11]),
            vfw & 0x7FFF,
            le16(d[18], d[19]),
            hfw >> 15 != 0,
            vfw >> 15 != 0,
        )
    }
}

/// A Type VII descriptor's mode has horizontal sync positive exactly when bit 7 of byte 9 is
/// set and vertical sync positive exactly when bit 7 of byte 17 is set; its width and
/// height are the little-endian words at bytes 4–5 and 12–13, its front porches the low 15
/// bits of the words at bytes 8–9 and 16–17, and its sync widths the words at bytes 10–11
/// and 18–19. Its pixel clock in kHz is the little-endian 24-bit value at bytes 0–2, and
/// its refresh rate is that clock in Hz over (width + the word at bytes 6–7) × (height +
/// the word at bytes 14–15). It is interlaced exactly when bit 4 of byte 3 is set. A zero
/// pixel clock gives no mode.
pub proof fn lemma_type_vii_fields(d: Seq<u8>)
    requires
        d.len() == 20,
    ensures
        d[0] == 0 && d[1] == 0 && d[2] == 0 ==> type_vii_mode(d) is None,
        type_vii_mode(d) matches Some(m) ==> {
            let clock = d[0] + 256 * d[1] + 65536 * d[2];
            let h_total = d[4] + 256 * d[5] + d[6] + 256 * d[7];
            let v_total = d[12] + 256 * d[13] + d[14] + 256 * d[15];
            &&& m.pixel_clock_khz == Some(clock as u32)
            &&& m.refresh_rate == reduced_rate((clock * 1000) as nat, (h_total * v_total) as nat)
            &&& m.interlaced == ((d[3] / 16) % 2 == 1)
            &&& m.sync == Some(
                SyncDefinition::DigitalSeparate {
                    v_sync_positive: d[17] >= 128,
                    h_sync_positive: d[9] >= 128,
                },
            )
            &&& m.width == d[4] + 256 * d[5]
            &&& m.height == d[12] + 256 * d[13]
            &&& m.h_front_porch == d[8] + 256 * (d[9] % 128)
            &&& m.v_front_porch == d[16] + 256 * (d[17] % 128)
            &&& m.h_sync_width == d[10] + 256 * d[11]
            &&& m.v_sync_width == d[18] + 256 * d[19]
        },
{
    lemma_byte_bits(d[3]);
    lemma_le24_le32_parts(d[0], d[1], d[2], 0);
    lemma_le16_parts(d[4], d[5]);
    lemma_le16_parts(d[6], d[7]);
    lemma_le16_parts(d[8], d[9]);
    lemma_le16_parts(d[10], d[11]);
    lemma_le16_parts(d[12], d[13]);
    lemma_le16_parts(d[14], d[15]);
    lemma_le16_parts(d[16], d[17]);
    lemma_le16_parts(d[18], d[19]);
}

/// Decodes one 20-byte Type VII Detailed Timing descriptor body and returns its mode.
pub fn decode_type_vii_descriptor_to_mode(d: &[u8]) -> (r: Option<VideoMode>)
    requires
        d@.len() == 20,
    ensures
        r == type_vii_mode(d@),
{
    let b0 = d[0];
    let b1 = d[1];
    let b2 = d[2];
    let pixel_clock_khz = (b0 as u32) | ((b1 as u32) << 8) | ((b2 as u32) << 16);
    if pixel_clock_khz == 0 {
        return None;
    }
    assert(pixel_clock_khz <= 0xFF_FFFF) by (bit_vector)
        requires
            pixel_clock_khz == (b0 as u32) | ((b1 as u32) << 8) | ((b2 as u32) << 16),
    ;
    let interlaced = (d[3] >> 4) & 1 != 0;
    let h_active = le16_at(d, 4);
    let h_blank = le16_at(d, 6);
    let hfw = le16_at(d, 8);
    let h_sync_width = le16_at(d, 10);
    let v_active = le16_at(d, 12);
    let v_blank = le16_at(d, 14);
    let vfw = le16_at(d, 16);
    let v_sync_width = le16_at(d, 18);
    if h_active == 0 || v_active == 0 || h_blank == 0 || v_blank == 0 {
        return None;
    }
    let h_total = h_active as u64 + h_blank as u64;
    let v_total = v_active as u64 + v_blank as u64;
    assert(h_total * v_total <= 0x2_0000 * 0x2_0000) by (nonlinear_arith)
        requires
            h_total <= 0x2_0000,
            v_total <= 0x2_0000,
    ;
    build_detailed_mode(
        h_active,
        v_active,
        interlaced,
        pixel_clock_khz as u64 * 1000,
        h_total * v_total,
        pixel_clock_khz,
        hfw & 0x7FFF,
        h_sync_width,
        vfw & 0x7FFF,
        v_sync_width,
        (hfw >> 15) != 0,
        (vfw >> 15) != 0,
    )
}

/// Decodes one Type VII descriptor and pushes its mode, if any.
pub fn decode_type_vii_descriptor(d: &[u8], caps: &mut DisplayCapabilities)
    requires
        d@.len() == 20,
    ensures
        final(caps)@ == with_modes(old(caps)@, opt_mode(type_vii_mode(d@))),
{
    let m = decode_type_vii_descriptor_to_mode(d);
    push_opt_mode(caps, m);
}

// --- Type II (11-byte descriptors) -----------------------------------------------------------

/// The mode of an 11-byte Type II descriptor: pixel clock `(raw + 1) × 10 kHz`; horizontal
/// sizes in 8-pixel units (`8 + 8 × mantissa`); vertical active `1 + mantissa`; byte 9
/// gives the vertical blanking (`1 + byte`), front porch (`1 +` high nibble) and sync width
/// (`1 +` low nibble); polarities and interlace come from byte 3. `None` when the refresh
/// rate is not representable.
pub open spec fn type_ii_mode(d: Seq<u8>) -> Option<VideoMode> {
    let pclk10 = 1 + le24(d[0], d[1], d[2]);
    let flags = d[3];
    let ha_raw = (d[4] as u16) | (((d[5] & 1) as u16) << 8);
    let hb_raw = ((d[5] >> 1) & 0x7F) as u16;
    let va_raw = (d[7] as u16) | (((d[8] & 0x0F) as u16) << 8);
    let h_active = 8 + 8 * ha_raw;
    let h_blank = 8 + 8 * hb_raw;
    let v_active = 1 + va_raw;
    let v_blank = 1 + d[9];
    detailed_mode(
        h_active as u16,
        v_active as u16,
        flags & 0x10 != 0,
        (pclk10 * 10000) as nat,
        ((h_active + h_blank) * (v_active + v_blank)) as nat,
        (pclk10 * 10) as u32,
        (8 + 8 * ((d[6] >> 4) as u16)) as u16,
        (8 + 8 * ((d[6] & 0x0F) as u16)) as u16,
        (1 + (d[9] >> 4)) as u16,
        (1 + (d[9] & 0x0F)) as u16,
        flags & 0x08 != 0,
        flags & 0x04 != 0,
    )
}

/// A Type II descriptor's mode has horizontal sync positive exactly when bit 3 of byte 3 is
/// set and vertical sync positive exactly when bit 2 of byte 3 is set; its width is 8 times
/// (byte 4 plus 256 times bit 0 of byte 5, plus one) and its height is byte 7 plus 256 times
/// the low nibble of byte 8, plus one. It is interlaced exactly when bit 4 of byte 3 is set.
/// Its pixel clock is the little-endian 24-bit value at bytes 0–2 plus one, in units of
/// 10 kHz, and its refresh rate is that clock in Hz over (width + 8 × (byte 5 bits 7–1,
/// plus one)) × (height + byte 9 + 1).
pub proof fn lemma_type_ii_fields(d: Seq<u8>)
    requires
        d.len() == 11,
    ensures
        type_ii_mode(d) matches Some(m) ==> {
            let clock_10khz = d[0] + 256 * d[1] + 65536 * d[2] + 1;
            let h_total = 8 * (d[4] + 256 * (d[5] % 2) + 1) + 8 * (d[5] / 2 + 1);
            let v_total = d[7] + 256 * (d[8] % 16) + 1 + d[9] + 1;
            &&& m.pixel_clock_khz == Some((clock_10khz * 10) as u32)
            &&& m.refresh_rate == reduced_rate(
                (clock_10khz * 10000) as nat,
                (h_total * v_total) as nat,
            )
            &&& m.interlaced == ((d[3] / 16) % 2 == 1)
            &&& m.sync == Some(
                SyncDefinition::DigitalSeparate {
                    v_sync_positive: (d[3] / 4) % 2 == 1,
                    h_sync_positive: (d[3] / 8) % 2 == 1,
                },
            )
            &&& m.width == 8 * (d[4] + 256 * (d[5] % 2) + 1)
            &&& m.height == d[7] + 256 * (d[8] % 16) + 1
        },
{
    lemma_le24_le32_parts(d[0], d[1], d[2], 0);
    let (b3, b4, b5, b7, b8) = (d[3], d[4], d[5], d[7], d[8]);
    assert({
        &&& (b3 & 0x08 != 0) == ((b3 / 8) % 2 == 1)
        &&& (b3 & 0x04 != 0) == ((b3 / 4) % 2 == 1)
        &&& (b3 & 0x10 != 0) == ((b3 / 16) % 2 == 1)
        &&& ((b5 >> 1) & 0x7F) == b5 / 2
        &&& ((b4 as u16) | (((b5 & 1) as u16) << 8)) == (b4 as u16) + 256 * ((b5 % 2) as u16)
        &&& ((b7 as u16) | (((b8 & 0x0F) as u16) << 8)) == (b7 as u16) + 256 * ((b8 % 16) as u16)
    }) by (bit_vector);
}

/// Decodes one 11-byte Type II Video Timing descriptor and pushes its mode, if any.
pub fn decode_type_ii_descriptor(d: &[u8], caps: &mut DisplayCapabilities)
    requires
        d@.len() == 11,
    ensures
        final(caps)@ == with_modes(old(caps)@, opt_mode(type_ii_mode(d@))),
{
    let b0 = d[0];
    let b1 = d[1];
    let b2 = d[2];
    let raw = (b0 as u32) | ((b1 as u32) << 8) | ((b2 as u32) << 16);
    assert(raw <= 0xFF_FFFF) by (bit_vector)
        requires
            raw == (b0 as u32) | ((b1 as u32) << 8) | ((b2 as u32) << 16),
    ;
    let pixel_clock_10khz = 1u64 + raw as u64;
    let flags = d[3];
    let interlaced = (flags & 0x10) != 0;
    let h_sync_positive = (flags & 0x08) != 0;
    let v_sync_positive = (flags & 0x04) != 0;
    let d4 = d[4];
    let d5 = d[5];
    let d6 = d[6];
    let d7 = d[7];
    let d8 = d[8];
    let d9 = d[9];
    let ha_raw = (d4 as u16) | (((d5 & 0x01) as u16) << 8);
    assert(ha_raw <= 511) by (bit_vector)
        requires
            ha_raw == (d4 as u16) | (((d5 & 0x01) as u16) << 8),
    ;
    let hb_raw = ((d5 >> 1) & 0x7F) as u16;
    assert((d5 >> 1) & 0x7F <= 127) by (bit_vector);
    let va_raw = (d7 as u16) | (((d8 & 0x0F) as u16) << 8);
    assert(va_raw <= 4095) by (bit_vector)
        requires
            va_raw == (d7 as u16) | (((d8 & 0x0F) as u16) << 8),
    ;
    assert(d6 >> 4 <= 15 && d6 & 0x0F <= 15 && d9 >> 4 <= 15 && d9 & 0x0F <= 15) by (bit_vector);
    let h_active = 8u16 + 8 * ha_raw;
    let h_blank = 8u16 + 8 * hb_raw;
    let h_front_porch = 8u16 + 8 * ((d6 >> 4) as u16);
    let h_sync_width = 8u16 + 8 * ((d6 & 0x0F) as u16);
    let v_active = 1u16 + va_raw;
    let v_blank = 1u16 + d9 as u16;
    let v_front_porch = 1u16 + ((d9 >> 4) as u16);
    let v_sync_width = 1u16 + ((d9 & 0x0F) as u16);
    let h_total = h_active as u64 + h_blank as u64;
    let v_total = v_active as u64 + v_blank as u64;
    assert(h_total * v_total <= 0x2_0000 * 0x2_0000) by (nonlinear_arith)
        requires
            h_total <= 0x2_0000,
            v_total <= 0x2_0000,
    ;
    let m = build_detailed_mode(
        h_active,
        v_active,
        interlaced,
        pixel_clock_10khz * 10_000,
        h_total * v_total,
        (pixel_clock_10khz * 10) as u32,
        h_front_porch,
        h_sync_width,
        v_front_porch,
        v_sync_width,
        h_sync_positive,
        v_sync_positive,
    );
    push_opt_mode(caps, m);
}

// --- Type VI (14- or 17-byte descriptors) ----------------------------------------------------

/// The number of bytes a Type VI descriptor at the start of `d` occupies: 17 when bit 22 of
/// its pixel clock field announces the aspect bytes, 14 otherwise, and 0 when `d` is shorter
/// than 14 bytes.
pub open spec fn type_vi_size(d: Seq<u8>) -> usize {
    if d.len() < 14 {
        0
    } else if (le24(d[0], d[1], d[2]) >> 22) & 1 != 0 {
        17
    } else {
        14
    }
}

/// The mode of the Type VI descriptor at the start of `d`: pixel clock in kHz (bits 21:0),
/// 15-bit active sizes with polarities in bit 15, 12-bit horizontal blanking and front
/// porch, 8-bit sync width and vertical fields, and the interlace flag in byte 13 bit 7.
/// `None` for a short `d`, a zero pixel clock, a zero total, or a refresh rate that is not
/// representable.
pub open spec fn type_vi_mode(d: Seq<u8>) -> Option<VideoMode> {
    if d.len() < 14 {
        None
    } else {
        let pclk = le24(d[0], d[1], d[2]) & 0x3F_FFFF;
        let hw = le16(d[3], d[4]);
        let vw = le16(d[5], d[6]);
        let ha = hw & 0x7FFF;
        let va = vw & 0x7FFF;
        let hb = (d[7] as u16) | (((d[9] & 0x0F) as u16) << 8);
        let hfp = (d[8] as u16) | (((d[9] >> 4) as u16) << 8);
        if pclk == 0 || ha + hb == 0 || va + d[11] == 0 {
            None
        } else {
            detailed_mode(
                ha,
                va,
                d[13] >> 7 != 0,
                (pclk * 1000) as nat,
                ((ha + hb) * (va + d[11])) as nat,
                pclk,
                hfp,
                d[10] as u16,
                d[12] as u16,
                (d[13] & 0x0F) as u16,
                hw >> 15 != 0,
                vw >> 15 != 0,
            )
        }
    }
}

/// A Type VI descriptor's mode has horizontal sync positive exactly when bit 7 of byte 4 is
/// set and vertical sync positive exactly when bit 7 of byte 6 is set; its width and height
/// are the low 15 bits of the little-endian words at bytes 3–4 and 5–6. Its pixel clock in
/// kHz is bits 21–0 of the little-endian 24-bit value at bytes 0–2 (zero gives no mode); the
/// horizontal blanking and front porch are the 12-bit values byte 7 plus 256 × (byte 9 bits
/// 3–0) and byte 8 plus 256 × (byte 9 bits 7–4); the horizontal sync width, vertical
/// blanking and vertical front porch are bytes 10, 11 and 12; the vertical sync width is
/// byte 13 bits 3–0, and the mode is interlaced exactly when byte 13 bit 7 is set. Its
/// refresh rate is the clock in Hz over (width + horizontal blanking) × (height + vertical
/// blanking).
pub proof fn lemma_type_vi_fields(d: Seq<u8>)
    requires
        d.len() >= 14,
    ensures
        d[0] == 0 && d[1] == 0 && d[2] % 64 == 0 ==> type_vi_mode(d) is None,
        type_vi_mode(d) matches Some(m) ==> {
            let clock = d[0] + 256 * d[1] + 65536 * (d[2] % 64);
            let h_blank = d[7] + 256 * (d[9] % 16);
            &&& m.pixel_clock_khz == Some(clock as u32)
            &&& m.refresh_rate == reduced_rate(
                (clock * 1000) as nat,
                ((m.width + h_blank) * (m.height + d[11])) as nat,
            )
            &&& m.h_front_porch == d[8] + 256 * (d[9] / 16)
            &&& m.h_sync_width == d[10]
            &&& m.v_front_porch == d[12]
            &&& m.v_sync_width == d[13] % 16
            &&& m.interlaced == (d[13] >= 128)
            &&& m.sync == Some(
                SyncDefinition::DigitalSeparate {
                    v_sync_positive: d[6] >= 128,
                    h_sync_positive: d[4] >= 128,
                },
            )
            &&& m.width == d[3] + 256 * (d[4] % 128)
            &&& m.height == d[5] + 256 * (d[6] % 128)
        },
{
    lemma_le16_parts(d[3], d[4]);
    lemma_le16_parts(d[5], d[6]);
    let (b0, b1, b2, b7, b8, b9, b13) = (d[0], d[1], d[2], d[7], d[8], d[9], d[13]);
    assert({
        &&& (((b0 as u32) | ((b1 as u32) << 8) | ((b2 as u32) << 16)) & 0x3F_FFFF) == (b0 as u32)
            + 256 * (b1 as u32) + 65536 * ((b2 % 64) as u32)
        &&& ((b7 as u16) | (((b9 & 0x0F) as u16) << 8)) == (b7 as u16) + 256 * ((b9 % 16) as u16)
        &&& ((b8 as u16) | (((b9 >> 4) as u16) << 8)) == (b8 as u16) + 256 * ((b9 / 16) as u16)
        &&& (b13 >> 7 != 0) == (b13 >= 128)
        &&& (b13 & 0x0F) == b13 % 16
    }) by (bit_vector);
}

/// Decodes the Type VI descriptor at the start of `d`, pushes its mode (if any) and
/// returns the number of bytes it occupies (0 when `d` is too short).
pub fn decode_type_vi_descriptor(d: &[u8], caps: &mut DisplayCapabilities) -> (r: usize)
    ensures
        r == type_vi_size(d@),
        final(caps)@ == with_modes(old(caps)@, opt_mode(type_vi_mode(d@))),
{
    if d.len() < 14 {
        return 0;
    }
    let b0 = d[0];
    let b1 = d[1];
    let b2 = d[2];
    let raw = (b0 as u32) | ((b1 as u32) << 8) | ((b2 as u32) << 16);
    let pixel_clock_khz = raw & 0x003F_FFFF;
    assert(pixel_clock_khz <= 0x3F_FFFF) by (bit_vector)
        requires
            pixel_clock_khz == raw & 0x003F_FFFF,
    ;
    let has_aspect = (raw >> 22) & 1 != 0;
    let descriptor_size: usize = if has_aspect {
        17
    } else {
        14
    };
    if pixel_clock_khz == 0 {
        return descriptor_size;
    }
    let h_word = le16_at(d, 3);
    let h_active = h_word & 0x7FFF;
    let h_sync_positive = (h_word >> 15) != 0;
    let v_word = le16_at(d, 5);
    let v_active = v_word & 0x7FFF;
    let v_sync_positive = (v_word >> 15) != 0;
    let d7 = d[7];
    let d8 = d[8];
    let d9 = d[9];
    let h_blank = (d7 as u16) | (((d9 & 0x0F) as u16) << 8);
    let h_fp = (d8 as u16) | (((d9 >> 4) as u16) << 8);
    let h_sync_width = d[10] as u16;
    let v_blank = d[11] as u16;
    let v_fp = d[12] as u16;
    let v_sync_width = (d[13] & 0x0F) as u16;
    let interlaced = (d[13] >> 7) != 0;
    let h_total = h_active as u64 + h_blank as u64;
    let v_total = v_active as u64 + v_blank as u64;
    if h_total == 0 || v_total == 0 {
        return descriptor_size;
    }
    assert(h_total * v_total <= 0x2_0000 * 0x2_0000) by (nonlinear_arith)
        requires
            h_total <= 0x2_0000,
            v_total <= 0x2_0000,
    ;
    let m = build_detailed_mode(
        h_active,
        v_active,
        interlaced,
        pixel_clock_khz as u64 * 1000,
        h_total * v_total,
        pixel_clock_khz,
        h_fp,
        h_sync_width,
        v_fp,
        v_sync_width,
        h_sync_positive,
        v_sync_positive,
    );
    push_opt_mode(caps, m);
    descriptor_size
}

} // verus!
