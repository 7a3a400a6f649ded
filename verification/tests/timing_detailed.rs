use piaf::capabilities::displayid::timing::coded::{
    decode_cta_video_timing_block, decode_type_iv_block, decode_type_viii_block,
    decode_vesa_video_timing_block,
};
use piaf::capabilities::displayid::timing::detailed::{
    decode_type_i_descriptor, decode_type_ii_descriptor, decode_type_vi_descriptor,
    decode_type_vii_descriptor, decode_type_vii_descriptor_to_mode,
};
use piaf::capabilities::displayid::timing::short::{
    decode_type_iii_descriptor, decode_type_ix_descriptor, decode_type_v_descriptor,
};
use piaf::capabilities::displayid::timing::{
    process_data_blocks, TAG_CTA_VIDEO_TIMING, TAG_TYPE_III_TIMING, TAG_TYPE_II_TIMING,
    TAG_TYPE_IV_TIMING, TAG_TYPE_I_TIMING, TAG_TYPE_VI_TIMING, TAG_TYPE_V_TIMING,
    TAG_V2_TYPE_IX_TIMING, TAG_V2_TYPE_VIII_TIMING, TAG_V2_TYPE_VII_TIMING, TAG_VESA_VIDEO_TIMING,
};
use piaf::capabilities::displayid::DISPLAYID_V2;
use piaf::model::mode::{CvtAlgorithm, RefreshRate, SyncDefinition};
use piaf::DisplayCapabilities;

/// Builds a Type I descriptor with human-readable field values; the helper
/// applies the wire-format `value − 1` encoding internally so call sites can
/// pass true active/blanking dimensions.
///
/// `options_byte3` is written verbatim to byte 3 — set bit 4 (`0x10`) for
/// interlaced, bits 6:5 for stereo, bit 7 for preferred (rev < 2) or Y420
/// (rev ≥ 2). Polarity bits (bit 15 of bytes 8–9 / 16–17) are not currently
/// settable through this helper.
#[allow(clippy::too_many_arguments)]
fn make_type_i_descriptor(
    pixel_clock_10khz: u32,
    h_active: u16,
    h_blank: u16,
    h_fp: u16,
    h_sw: u16,
    v_active: u16,
    v_blank: u16,
    v_fp: u16,
    v_sw: u16,
    options_byte3: u8,
) -> [u8; 20] {
    let mut d = [0u8; 20];
    let raw_pclk = pixel_clock_10khz - 1;
    d[0] = (raw_pclk & 0xFF) as u8;
    d[1] = ((raw_pclk >> 8) & 0xFF) as u8;
    d[2] = ((raw_pclk >> 16) & 0xFF) as u8;
    d[3] = options_byte3;
    d[4..6].copy_from_slice(&(h_active - 1).to_le_bytes());
    d[6..8].copy_from_slice(&(h_blank - 1).to_le_bytes());
    d[8..10].copy_from_slice(&(h_fp - 1).to_le_bytes());
    d[10..12].copy_from_slice(&(h_sw - 1).to_le_bytes());
    d[12..14].copy_from_slice(&(v_active - 1).to_le_bytes());
    d[14..16].copy_from_slice(&(v_blank - 1).to_le_bytes());
    d[16..18].copy_from_slice(&(v_fp - 1).to_le_bytes());
    d[18..20].copy_from_slice(&(v_sw - 1).to_le_bytes());
    d
}

#[allow(clippy::too_many_arguments)]
fn make_type_ii_descriptor(
    pixel_clock_10khz: u32,
    ha_raw: u16,
    hb_raw: u8,
    hfp_raw: u8,
    hsw_raw: u8,
    va_raw: u16,
    v_blank_byte: u8,
    flags: u8,
) -> [u8; 11] {
    let mut d = [0u8; 11];
    d[0] = (pixel_clock_10khz & 0xFF) as u8;
    d[1] = ((pixel_clock_10khz >> 8) & 0xFF) as u8;
    d[2] = ((pixel_clock_10khz >> 16) & 0xFF) as u8;
    d[3] = flags;
    d[4] = (ha_raw & 0xFF) as u8;
    d[5] = (((ha_raw >> 8) & 0x01) as u8) | ((hb_raw & 0x7F) << 1);
    d[6] = ((hfp_raw & 0x0F) << 4) | (hsw_raw & 0x0F);
    d[7] = (va_raw & 0xFF) as u8;
    d[8] = ((va_raw >> 8) & 0x0F) as u8;
    d[9] = v_blank_byte;
    d[10] = 0x00;
    d
}

// -----------------------------------------------------------------------
// Type I Video Timing (tag 0x03)
// -----------------------------------------------------------------------

#[test]
fn detailed_test_type_i_timing_decoded() {
    // 1920×1080@60 Hz: pixel clock ≈ 148.5 MHz = 14850 × 10 kHz
    // h_total = 2200, v_total = 1125 → 148500000 / (2200 * 1125) ≈ 60 Hz
    let d = make_type_i_descriptor(14850, 1920, 280, 88, 44, 1080, 45, 4, 5, 0x00);
    let mut caps = DisplayCapabilities::default();
    decode_type_i_descriptor(&d, &mut caps);
    assert_eq!(caps.supported_modes.len(), 1);
    let mode = &caps.supported_modes[0];
    assert_eq!(mode.width, 1920);
    assert_eq!(mode.height, 1080);
    assert_eq!(mode.refresh_rate, Some(RefreshRate::integral(60)));
    assert!(!mode.interlaced);
}

#[test]
fn detailed_test_type_i_null_descriptor_skipped() {
    let null_descriptor = [0u8; 20];
    let mut caps = DisplayCapabilities::default();
    decode_type_i_descriptor(&null_descriptor, &mut caps);
    assert!(caps.supported_modes.is_empty());
}

#[test]
fn detailed_test_type_i_interlaced_flag_decoded() {
    // byte 3 bit 4 = interlaced
    let d = make_type_i_descriptor(14850, 1920, 280, 88, 44, 1080, 45, 4, 5, 0x10);
    let mut caps = DisplayCapabilities::default();
    decode_type_i_descriptor(&d, &mut caps);
    assert_eq!(caps.supported_modes.len(), 1);
    assert!(caps.supported_modes[0].interlaced);
}

#[test]
fn test_type_i_sync_polarity_decoded_from_fp_high_bit() {
    // Build a 1080p60 descriptor and set HSP/VSP polarity bits (bit 15 of bytes
    // 8–9 / 16–17, the H/V Front Porch fields).
    let mut d = make_type_i_descriptor(14850, 1920, 280, 88, 44, 1080, 45, 4, 5, 0x00);
    d[9] |= 0x80; // HSP = positive (H FP word bit 15)
    d[17] |= 0x80; // VSP = positive (V FP word bit 15)
    let mut caps = DisplayCapabilities::default();
    decode_type_i_descriptor(&d, &mut caps);
    assert_eq!(caps.supported_modes.len(), 1);
    assert_eq!(
        caps.supported_modes[0].sync,
        Some(SyncDefinition::DigitalSeparate {
            h_sync_positive: true,
            v_sync_positive: true,
        })
    );
    // Front porch decode must mask bit 15 — the polarity bit must not bleed in.
    assert_eq!(caps.supported_modes[0].h_front_porch, 88);
    assert_eq!(caps.supported_modes[0].v_front_porch, 4);
}

#[test]
fn test_type_i_negative_polarities_default() {
    // Polarity bits clear → both negative.
    let d = make_type_i_descriptor(14850, 1920, 280, 88, 44, 1080, 45, 4, 5, 0x00);
    let mut caps = DisplayCapabilities::default();
    decode_type_i_descriptor(&d, &mut caps);
    assert_eq!(
        caps.supported_modes[0].sync,
        Some(SyncDefinition::DigitalSeparate {
            h_sync_positive: false,
            v_sync_positive: false,
        })
    );
}

// -----------------------------------------------------------------------
// Type II Video Timing (tag 0x04)
// -----------------------------------------------------------------------

#[test]
fn detailed_test_type_ii_timing_decoded() {
    // 1920×1080@60 Hz via Type II encoding. The Type II vertical encoding constrains
    // v_blank = 16·v_fp + v_sw − 16 (back porch is implicit). Byte 9 = 0x2C → v_fp=3,
    // v_sw=13, v_blank=45, v_total=1125; pc=14850×10kHz → exact 60 Hz.
    let d = make_type_ii_descriptor(14849, 239, 34, 10, 5, 1079, 0x2C, 0x0C);
    let mut caps = DisplayCapabilities::default();
    decode_type_ii_descriptor(&d, &mut caps);
    assert_eq!(caps.supported_modes.len(), 1);
    let mode = &caps.supported_modes[0];
    assert_eq!(mode.width, 1920);
    assert_eq!(mode.height, 1080);
    assert_eq!(mode.refresh_rate, Some(RefreshRate::integral(60)));
    assert_eq!(mode.h_front_porch, 88);
    assert_eq!(mode.h_sync_width, 48);
    assert_eq!(mode.v_front_porch, 3);
    assert_eq!(mode.v_sync_width, 13);
    assert!(!mode.interlaced);
    assert_eq!(
        mode.sync,
        Some(SyncDefinition::DigitalSeparate {
            h_sync_positive: true,
            v_sync_positive: true,
        })
    );
}

#[test]
fn detailed_test_type_ii_interlaced_flag() {
    // flags byte 3 bit 4 = interlaced
    let d = make_type_ii_descriptor(14849, 239, 34, 10, 5, 1079, 0x2C, 0x10);
    let mut caps = DisplayCapabilities::default();
    decode_type_ii_descriptor(&d, &mut caps);
    assert_eq!(caps.supported_modes.len(), 1);
    assert!(caps.supported_modes[0].interlaced);
}

#[test]
fn detailed_test_type_ii_multiple_descriptors() {
    // Two descriptors decoded in sequence.
    // 2560×1440@60: ha_raw=(2560-8)/8=319, hb_raw=(440-8)/8=54 → h_total=3000
    // va_raw=1440-1=1439=0x59F, v_blank_byte=0x31→v_blank=50 → v_total=1490
    let desc1 = make_type_ii_descriptor(14849, 239, 34, 10, 5, 1079, 0x2C, 0x0C);
    let desc2 = make_type_ii_descriptor(26819, 319, 54, 10, 4, 1439, 0x31, 0x0C);
    let mut caps = DisplayCapabilities::default();
    decode_type_ii_descriptor(&desc1, &mut caps);
    decode_type_ii_descriptor(&desc2, &mut caps);
    assert_eq!(caps.supported_modes.len(), 2);
    assert!(
        caps.supported_modes
            .iter()
            .any(|m| m.width == 1920 && m.height == 1080)
    );
    assert!(
        caps.supported_modes
            .iter()
            .any(|m| m.width == 2560 && m.height == 1440)
    );
}

// -----------------------------------------------------------------------
// Type VI Video Timing (tag 0x13)
// -----------------------------------------------------------------------

/// Build a 14-byte Type VI descriptor (no aspect/size bytes).
///
/// pixel_clock_khz: pixel clock in kHz (max ~4 194 303 kHz)
#[allow(clippy::too_many_arguments)]
fn make_type_vi_descriptor(
    pixel_clock_khz: u32,
    h_active: u16,
    h_sync_positive: bool,
    v_active: u16,
    v_sync_positive: bool,
    h_blank: u16,
    h_fp: u16,
    h_sync_width: u8,
    v_blank: u8,
    v_fp: u8,
    v_sync_width: u8,
    interlaced: bool,
) -> [u8; 14] {
    let mut d = [0u8; 14];
    // Bytes 0–2: pixel clock (22 bits) + flags; bit 22 = 0 (no aspect bytes).
    let pc = pixel_clock_khz & 0x3F_FFFF;
    d[0] = (pc & 0xFF) as u8;
    d[1] = ((pc >> 8) & 0xFF) as u8;
    d[2] = ((pc >> 16) & 0x3F) as u8; // bit 22=0, bit 23=0
    // Bytes 3–4: H active (15 bits) + H sync polarity (bit 15).
    let h_word = (h_active & 0x7FFF) | ((h_sync_positive as u16) << 15);
    d[3..5].copy_from_slice(&h_word.to_le_bytes());
    // Bytes 5–6: V active (15 bits) + V sync polarity (bit 15).
    let v_word = (v_active & 0x7FFF) | ((v_sync_positive as u16) << 15);
    d[5..7].copy_from_slice(&v_word.to_le_bytes());
    // Bytes 7–9: H blank (12-bit) and H fp (12-bit) packed.
    d[7] = (h_blank & 0xFF) as u8;
    d[8] = (h_fp & 0xFF) as u8;
    d[9] = ((h_blank >> 8) & 0x0F) as u8 | (((h_fp >> 8) & 0x0F) << 4) as u8;
    d[10] = h_sync_width;
    d[11] = v_blank;
    d[12] = v_fp;
    d[13] = (v_sync_width & 0x0F) | ((interlaced as u8) << 7);
    d
}

#[test]
fn test_type_vi_1920x1080_decoded() {
    // 1920×1080@60 Hz: pixel clock 148 500 kHz, h_total=2200, v_total=1125
    // 148_500_000 Hz / (2200 × 1125) ≈ 60 Hz
    let d = make_type_vi_descriptor(
        148_500, 1920, true, 1080, true, 280, 88, 44, 45, 4, 5, false,
    );
    let mut caps = DisplayCapabilities::default();
    let consumed = decode_type_vi_descriptor(&d, &mut caps);
    assert_eq!(consumed, 14);
    assert_eq!(caps.supported_modes.len(), 1);
    let mode = &caps.supported_modes[0];
    assert_eq!(mode.width, 1920);
    assert_eq!(mode.height, 1080);
    assert_eq!(mode.refresh_rate, Some(RefreshRate::integral(60)));
    assert!(!mode.interlaced);
    assert_eq!(mode.h_front_porch, 88);
    assert_eq!(mode.h_sync_width, 44);
    assert_eq!(mode.v_front_porch, 4);
    assert_eq!(mode.v_sync_width, 5);
    assert_eq!(
        mode.sync,
        Some(SyncDefinition::DigitalSeparate {
            h_sync_positive: true,
            v_sync_positive: true,
        })
    );
}

#[test]
fn test_type_vi_interlaced_flag() {
    let d =
        make_type_vi_descriptor(148_500, 1920, true, 1080, true, 280, 88, 44, 45, 4, 5, true);
    let mut caps = DisplayCapabilities::default();
    decode_type_vi_descriptor(&d, &mut caps);
    assert_eq!(caps.supported_modes.len(), 1);
    assert!(caps.supported_modes[0].interlaced);
}

#[test]
fn test_type_vi_null_descriptor_skipped() {
    // pixel_clock_khz = 0 → null; returns descriptor_size without pushing a mode.
    let d = [0u8; 14];
    let mut caps = DisplayCapabilities::default();
    let consumed = decode_type_vi_descriptor(&d, &mut caps);
    assert_eq!(consumed, 14);
    assert!(caps.supported_modes.is_empty());
}

#[test]
fn test_type_vi_with_aspect_bytes_returns_17() {
    let mut d = [0u8; 17];
    // Set pixel clock = 148_500 kHz and bit 22 = 1 (aspect bytes present).
    let pc = 148_500u32;
    d[0] = (pc & 0xFF) as u8;
    d[1] = ((pc >> 8) & 0xFF) as u8;
    d[2] = (((pc >> 16) & 0x3F) | 0x40) as u8; // bit 22 set
    // H active = 1920, V active = 1080, h_total = 2200, v_total = 1125.
    let h_word: u16 = 1920;
    d[3..5].copy_from_slice(&h_word.to_le_bytes());
    let v_word: u16 = 1080;
    d[5..7].copy_from_slice(&v_word.to_le_bytes());
    d[7] = 280u16 as u8;
    d[9] = ((280u16 >> 8) & 0x0F) as u8;
    d[11] = 45; // v_blank
    let mut caps = DisplayCapabilities::default();
    let consumed = decode_type_vi_descriptor(&d, &mut caps);
    assert_eq!(consumed, 17);
    assert_eq!(caps.supported_modes.len(), 1);
    assert_eq!(caps.supported_modes[0].width, 1920);
}

#[test]
fn test_type_vi_too_short_returns_zero() {
    let d = [0u8; 13]; // one byte short
    let mut caps = DisplayCapabilities::default();
    let consumed = decode_type_vi_descriptor(&d, &mut caps);
    assert_eq!(consumed, 0);
    assert!(caps.supported_modes.is_empty());
}

// -----------------------------------------------------------------------
// Type VII Detailed Timing (DisplayID 2.x tag 0x22)
// -----------------------------------------------------------------------

/// Build a 20-byte Type VII descriptor body (no CTA wrapper bytes).
#[allow(clippy::too_many_arguments)]
fn make_type_vii_descriptor(
    pixel_clock_khz: u32,
    h_active: u16,
    h_blank: u16,
    h_fp: u16,
    h_sync_positive: bool,
    h_sw: u16,
    v_active: u16,
    v_blank: u16,
    v_fp: u16,
    v_sync_positive: bool,
    v_sw: u16,
    interlaced: bool,
) -> [u8; 20] {
    let mut d = [0u8; 20];
    d[0] = (pixel_clock_khz & 0xFF) as u8;
    d[1] = ((pixel_clock_khz >> 8) & 0xFF) as u8;
    d[2] = ((pixel_clock_khz >> 16) & 0xFF) as u8;
    d[3] = (interlaced as u8) << 4;
    d[4..6].copy_from_slice(&h_active.to_le_bytes());
    d[6..8].copy_from_slice(&h_blank.to_le_bytes());
    let h_fp_word = (h_fp & 0x7FFF) | ((h_sync_positive as u16) << 15);
    d[8..10].copy_from_slice(&h_fp_word.to_le_bytes());
    d[10..12].copy_from_slice(&h_sw.to_le_bytes());
    d[12..14].copy_from_slice(&v_active.to_le_bytes());
    d[14..16].copy_from_slice(&v_blank.to_le_bytes());
    let v_fp_word = (v_fp & 0x7FFF) | ((v_sync_positive as u16) << 15);
    d[16..18].copy_from_slice(&v_fp_word.to_le_bytes());
    d[18..20].copy_from_slice(&v_sw.to_le_bytes());
    d
}

#[test]
fn test_type_vii_1080p60_decoded() {
    // 1920×1080@60: pc=148_500 kHz, h_total=2200, v_total=1125 → exact 60 Hz.
    let d = make_type_vii_descriptor(
        148_500, 1920, 280, 88, true, 44, 1080, 45, 4, true, 5, false,
    );
    let mut caps = DisplayCapabilities::default();
    decode_type_vii_descriptor(&d, &mut caps);
    assert_eq!(caps.supported_modes.len(), 1);
    let mode = &caps.supported_modes[0];
    assert_eq!(mode.width, 1920);
    assert_eq!(mode.height, 1080);
    assert_eq!(mode.refresh_rate, Some(RefreshRate::integral(60)));
    assert!(!mode.interlaced);
    assert_eq!(mode.h_front_porch, 88);
    assert_eq!(mode.h_sync_width, 44);
    assert_eq!(mode.v_front_porch, 4);
    assert_eq!(mode.v_sync_width, 5);
    assert_eq!(
        mode.sync,
        Some(SyncDefinition::DigitalSeparate {
            h_sync_positive: true,
            v_sync_positive: true,
        })
    );
}

#[test]
fn test_type_vii_rational_rate_preserved() {
    // The kHz-precision pixel clock can't represent 60_000/1001 exactly, but the
    // decoder must preserve whatever rational ratio falls out of the inputs.
    // Synthesize an exact case: pc = 120_120 kHz, h_total = 1001, v_total = 2
    // → 120_120_000 / 2002 = 60_000 Hz exact.
    let d = make_type_vii_descriptor(120_120, 1000, 1, 0, false, 0, 1, 1, 0, false, 0, false);
    let mut caps = DisplayCapabilities::default();
    decode_type_vii_descriptor(&d, &mut caps);
    assert_eq!(caps.supported_modes.len(), 1);
    assert_eq!(
        caps.supported_modes[0].refresh_rate,
        Some(RefreshRate::integral(60_000))
    );
}

#[test]
fn test_type_vii_polarity_negative() {
    let d = make_type_vii_descriptor(
        148_500, 1920, 280, 88, false, 44, 1080, 45, 4, false, 5, false,
    );
    let mut caps = DisplayCapabilities::default();
    decode_type_vii_descriptor(&d, &mut caps);
    assert_eq!(caps.supported_modes.len(), 1);
    assert_eq!(
        caps.supported_modes[0].sync,
        Some(SyncDefinition::DigitalSeparate {
            h_sync_positive: false,
            v_sync_positive: false,
        })
    );
}

#[test]
fn test_type_vii_interlaced_flag() {
    let d =
        make_type_vii_descriptor(148_500, 1920, 280, 88, true, 44, 1080, 45, 4, true, 5, true);
    let mut caps = DisplayCapabilities::default();
    decode_type_vii_descriptor(&d, &mut caps);
    assert_eq!(caps.supported_modes.len(), 1);
    assert!(caps.supported_modes[0].interlaced);
}

#[test]
fn test_type_vii_null_descriptor_skipped() {
    let d = [0u8; 20];
    let mut caps = DisplayCapabilities::default();
    decode_type_vii_descriptor(&d, &mut caps);
    assert!(caps.supported_modes.is_empty());
}

#[test]
fn test_type_vii_zero_active_skipped() {
    // Pixel clock non-zero but h_active = 0 → degenerate, skipped.
    let d =
        make_type_vii_descriptor(148_500, 0, 280, 88, true, 44, 1080, 45, 4, true, 5, false);
    let mut caps = DisplayCapabilities::default();
    decode_type_vii_descriptor(&d, &mut caps);
    assert!(caps.supported_modes.is_empty());
}
