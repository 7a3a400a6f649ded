use piaf::capabilities::displayid::timing::coded::{
    decode_cta_video_timing_block, decode_type_iv_block, decode_type_viii_block,
    decode_vesa_video_timing_block,
};
use piaf::capabilities::displayid::timing::detailed::{
    decode_type_i_descriptor, decode_type_ii_descriptor, decode_type_vi_descriptor,
    decode_type_vii_descriptor, decode_type_vii_descriptor_to_mode,
};
use piaf::capabilities::displayid::timing::short::{
    decode_type_iii_descriptor, decode_type_ix_descriptor, decode_type_v_descriptor,
};
use piaf::capabilities::displayid::timing::{
    process_data_blocks, TAG_CTA_VIDEO_TIMING, TAG_TYPE_III_TIMING, TAG_TYPE_II_TIMING,
    TAG_TYPE_IV_TIMING, TAG_TYPE_I_TIMING, TAG_TYPE_VI_TIMING, TAG_TYPE_V_TIMING,
    TAG_V2_TYPE_IX_TIMING, TAG_V2_TYPE_VIII_TIMING, TAG_V2_TYPE_VII_TIMING, TAG_VESA_VIDEO_TIMING,
};
use piaf::capabilities::displayid::DISPLAYID_V2;
use piaf::model::mode::{CvtAlgorithm, RefreshRate, SyncDefinition};
use piaf::DisplayCapabilities;

fn make_type_iii_descriptor(
    preferred: bool,
    algo: u8,
    aspect: u8,
    h_raw: u8,
    interlaced: bool,
    refresh_raw: u8,
) -> [u8; 3] {
    let byte0 = ((preferred as u8) << 7) | ((algo & 0x07) << 4) | (aspect & 0x0F);
    let byte2 = ((interlaced as u8) << 7) | (refresh_raw & 0x7F);
    [byte0, h_raw, byte2]
}

#[test]
fn short_test_type_iii_16_9_decoded() {
    // 1920×1080@60 Hz: aspect=16:9(0x04), h_raw=239→h=1920, refresh_raw=59→60 Hz
    let d = make_type_iii_descriptor(false, 0, 0x04, 239, false, 59);
    let mut caps = DisplayCapabilities::default();
    decode_type_iii_descriptor(&d, &mut caps);
    assert_eq!(caps.supported_modes.len(), 1);
    let mode = &caps.supported_modes[0];
    assert_eq!(mode.width, 1920);
    assert_eq!(mode.height, 1080);
    assert_eq!(mode.refresh_rate, Some(RefreshRate::integral(60)));
    assert!(!mode.interlaced);
}

#[test]
fn short_test_type_iii_4_3_decoded() {
    // 1024×768@75 Hz: aspect=4:3(0x02), h_raw=127→h=1024, refresh_raw=74→75 Hz
    let d = make_type_iii_descriptor(false, 0, 0x02, 127, false, 74);
    let mut caps = DisplayCapabilities::default();
    decode_type_iii_descriptor(&d, &mut caps);
    assert_eq!(caps.supported_modes.len(), 1);
    assert_eq!(caps.supported_modes[0].width, 1024);
    assert_eq!(caps.supported_modes[0].height, 768);
    assert_eq!(
        caps.supported_modes[0].refresh_rate,
        Some(RefreshRate::integral(75))
    );
}

#[test]
fn short_test_type_iii_interlaced_flag() {
    let d = make_type_iii_descriptor(false, 0, 0x04, 239, true, 59);
    let mut caps = DisplayCapabilities::default();
    decode_type_iii_descriptor(&d, &mut caps);
    assert_eq!(caps.supported_modes.len(), 1);
    assert!(caps.supported_modes[0].interlaced);
}

#[test]
fn short_test_type_iii_undefined_aspect_skipped() {
    // Aspect code 0x08 = undefined; descriptor must be skipped.
    let d = make_type_iii_descriptor(false, 0, 0x08, 239, false, 59);
    let mut caps = DisplayCapabilities::default();
    decode_type_iii_descriptor(&d, &mut caps);
    assert!(caps.supported_modes.is_empty());
}

#[test]
fn short_test_type_iii_non_integer_height_skipped() {
    // 16:9 requires h_active divisible by 16. h_raw=0→h=8, 8*9/16=4.5 — not integer; skip.
    let d = make_type_iii_descriptor(false, 0, 0x04, 0, false, 59);
    let mut caps = DisplayCapabilities::default();
    decode_type_iii_descriptor(&d, &mut caps);
    assert!(caps.supported_modes.is_empty());
}

#[test]
fn short_test_type_iii_multiple_aspect_ratios() {
    let d1 = make_type_iii_descriptor(false, 0, 0x04, 239, false, 59); // 1920×1080@60
    let d2 = make_type_iii_descriptor(false, 0, 0x02, 159, false, 59); // 1280×960@60
    let d3 = make_type_iii_descriptor(false, 0, 0x05, 159, false, 59); // 1280×800@60
    let mut caps = DisplayCapabilities::default();
    decode_type_iii_descriptor(&d1, &mut caps);
    decode_type_iii_descriptor(&d2, &mut caps);
    decode_type_iii_descriptor(&d3, &mut caps);
    assert_eq!(caps.supported_modes.len(), 3);
    assert!(
        caps.supported_modes
            .iter()
            .any(|m| m.width == 1920 && m.height == 1080)
    );
    assert!(
        caps.supported_modes
            .iter()
            .any(|m| m.width == 1280 && m.height == 960)
    );
    assert!(
        caps.supported_modes
            .iter()
            .any(|m| m.width == 1280 && m.height == 800)
    );
}

// -----------------------------------------------------------------------
// Type V Short Descriptor Video Timing (tag 0x11)
// -----------------------------------------------------------------------

fn make_type_v_descriptor(h_active: u16, v_active: u16, refresh_raw: u8) -> [u8; 7] {
    let mut d = [0u8; 7];
    d[1..3].copy_from_slice(&h_active.to_le_bytes());
    d[3..5].copy_from_slice(&v_active.to_le_bytes());
    d[5] = refresh_raw;
    d
}

#[test]
fn test_type_v_1920x1080_at_60hz() {
    // refresh_raw = 59 → refresh = 60 Hz
    let d = make_type_v_descriptor(1920, 1080, 59);
    let mut caps = DisplayCapabilities::default();
    decode_type_v_descriptor(&d, &mut caps);
    assert_eq!(caps.supported_modes.len(), 1);
    let mode = &caps.supported_modes[0];
    assert_eq!(mode.width, 1920);
    assert_eq!(mode.height, 1080);
    assert_eq!(mode.refresh_rate, Some(RefreshRate::integral(60)));
    assert!(!mode.interlaced);
}

#[test]
fn test_type_v_refresh_raw_255_yields_256hz() {
    // refresh_raw = 255 → raw + 1 = 256 Hz (exact per spec; no longer clamped)
    let d = make_type_v_descriptor(3840, 2160, 255);
    let mut caps = DisplayCapabilities::default();
    decode_type_v_descriptor(&d, &mut caps);
    assert_eq!(caps.supported_modes.len(), 1);
    assert_eq!(
        caps.supported_modes[0].refresh_rate,
        Some(RefreshRate::integral(256))
    );
}

#[test]
fn test_type_v_zero_width_skipped() {
    let d = make_type_v_descriptor(0, 1080, 59);
    let mut caps = DisplayCapabilities::default();
    decode_type_v_descriptor(&d, &mut caps);
    assert!(caps.supported_modes.is_empty());
}

#[test]
fn test_type_v_zero_height_skipped() {
    let d = make_type_v_descriptor(1920, 0, 59);
    let mut caps = DisplayCapabilities::default();
    decode_type_v_descriptor(&d, &mut caps);
    assert!(caps.supported_modes.is_empty());
}

#[test]
fn test_type_v_large_resolution() {
    // 7680×4320@120 Hz (8K@120): refresh_raw = 119 → 120 Hz
    let d = make_type_v_descriptor(7680, 4320, 119);
    let mut caps = DisplayCapabilities::default();
    decode_type_v_descriptor(&d, &mut caps);
    assert_eq!(caps.supported_modes.len(), 1);
    assert_eq!(caps.supported_modes[0].width, 7680);
    assert_eq!(caps.supported_modes[0].height, 4320);
    assert_eq!(
        caps.supported_modes[0].refresh_rate,
        Some(RefreshRate::integral(120))
    );
}

// -----------------------------------------------------------------------
// Type IX Formula-Based Timing (DisplayID 2.x tag 0x24)
// -----------------------------------------------------------------------

fn make_type_ix_descriptor(h_active: u16, v_active: u16, refresh_raw: u8) -> [u8; 6] {
    let mut d = [0u8; 6];
    d[1..3].copy_from_slice(&h_active.to_le_bytes());
    d[3..5].copy_from_slice(&v_active.to_le_bytes());
    d[5] = refresh_raw;
    d
}

#[test]
fn test_type_ix_1920x1080_at_60hz() {
    let d = make_type_ix_descriptor(1920, 1080, 59);
    let mut caps = DisplayCapabilities::default();
    decode_type_ix_descriptor(&d, &mut caps);
    assert_eq!(caps.supported_modes.len(), 1);
    let mode = &caps.supported_modes[0];
    assert_eq!(mode.width, 1920);
    assert_eq!(mode.height, 1080);
    assert_eq!(mode.refresh_rate, Some(RefreshRate::integral(60)));
    assert!(!mode.interlaced);
    // byte 0 is zero → CVT-RB1, no Y420.
    assert_eq!(mode.cvt_algorithm, Some(CvtAlgorithm::CvtRb1));
    assert!(!mode.y420);
}

#[test]
fn test_type_ix_byte0_cvt_algorithm_decoded() {
    let cases = [
        (0b000, CvtAlgorithm::CvtRb1),
        (0b001, CvtAlgorithm::CvtRb2),
        (0b010, CvtAlgorithm::CvtRb3),
        (0b011, CvtAlgorithm::ReducedBlankingCvtRb1),
        (0b100, CvtAlgorithm::ReducedBlankingCvtRb2),
        (0b101, CvtAlgorithm::Reserved(5)),
        (0b110, CvtAlgorithm::Reserved(6)),
        (0b111, CvtAlgorithm::Reserved(7)),
    ];
    for (bits, expected) in cases {
        let mut d = make_type_ix_descriptor(1920, 1080, 59);
        d[0] = bits;
        let mut caps = DisplayCapabilities::default();
        decode_type_ix_descriptor(&d, &mut caps);
        assert_eq!(caps.supported_modes.len(), 1);
        assert_eq!(
            caps.supported_modes[0].cvt_algorithm,
            Some(expected),
            "byte 0 = {bits:#b}"
        );
    }
}

#[test]
fn test_type_ix_byte0_y420_flag_decoded() {
    let mut d = make_type_ix_descriptor(3840, 2160, 59);
    d[0] = 0x10; // bit 4 set = Y420
    let mut caps = DisplayCapabilities::default();
    decode_type_ix_descriptor(&d, &mut caps);
    assert_eq!(caps.supported_modes.len(), 1);
    assert!(caps.supported_modes[0].y420);
}

#[test]
fn test_type_ix_byte0_y420_off_when_bit_clear() {
    let mut d = make_type_ix_descriptor(3840, 2160, 59);
    d[0] = 0xEF; // every bit except bit 4 set; Y420 must remain off
    let mut caps = DisplayCapabilities::default();
    decode_type_ix_descriptor(&d, &mut caps);
    assert_eq!(caps.supported_modes.len(), 1);
    assert!(!caps.supported_modes[0].y420);
}

#[test]
fn test_type_ix_refresh_raw_255_yields_256hz() {
    let d = make_type_ix_descriptor(3840, 2160, 255);
    let mut caps = DisplayCapabilities::default();
    decode_type_ix_descriptor(&d, &mut caps);
    assert_eq!(caps.supported_modes.len(), 1);
    assert_eq!(
        caps.supported_modes[0].refresh_rate,
        Some(RefreshRate::integral(256))
    );
}

#[test]
fn test_type_ix_zero_width_skipped() {
    let d = make_type_ix_descriptor(0, 1080, 59);
    let mut caps = DisplayCapabilities::default();
    decode_type_ix_descriptor(&d, &mut caps);
    assert!(caps.supported_modes.is_empty());
}

#[test]
fn test_type_ix_zero_height_skipped() {
    let d = make_type_ix_descriptor(1920, 0, 59);
    let mut caps = DisplayCapabilities::default();
    decode_type_ix_descriptor(&d, &mut caps);
    assert!(caps.supported_modes.is_empty());
}

#[test]
fn test_type_ix_cvt_rb_v1_populates_pixel_clock_and_blanking() {
    // CVT-RB v1 1920×1080@60: VESA reference clock 138.500 MHz, blanking from RB v1 spec.
    let d = make_type_ix_descriptor(1920, 1080, 59); // byte 0 = 0 → CVT-RB1
    let mut caps = DisplayCapabilities::default();
    decode_type_ix_descriptor(&d, &mut caps);
    assert_eq!(caps.supported_modes.len(), 1);
    let mode = &caps.supported_modes[0];
    assert_eq!(mode.pixel_clock_khz, Some(138_500));
    assert_eq!(mode.h_front_porch, 48);
    assert_eq!(mode.h_sync_width, 32);
    assert_eq!(mode.v_front_porch, 3);
    assert_eq!(mode.v_sync_width, 4);
}

#[test]
fn test_type_ix_cvt_rb_v2_populates_pixel_clock_and_blanking() {
    // CVT-RB v2 1920×1080@60: 133.320 MHz pixel clock, 80 px H blanking,
    // V_FPORCH = 17 (slack lives in V_FPORCH for v2).
    let mut d = make_type_ix_descriptor(1920, 1080, 59);
    d[0] = 0x01; // bits 2:0 = 1 → CVT-RB2
    let mut caps = DisplayCapabilities::default();
    decode_type_ix_descriptor(&d, &mut caps);
    assert_eq!(caps.supported_modes.len(), 1);
    let mode = &caps.supported_modes[0];
    assert_eq!(mode.cvt_algorithm, Some(CvtAlgorithm::CvtRb2));
    assert_eq!(mode.pixel_clock_khz, Some(133_320));
    assert_eq!(mode.h_front_porch, 8);
    assert_eq!(mode.h_sync_width, 32);
    assert_eq!(mode.v_front_porch, 17);
    assert_eq!(mode.v_sync_width, 8);
}

#[test]
fn test_type_ix_cvt_rb_v3_leaves_timing_unpopulated() {
    // CVT-RB v3 evaluator not yet implemented — pixel_clock_khz and porches stay default.
    let mut d = make_type_ix_descriptor(1920, 1080, 59);
    d[0] = 0x02; // bits 2:0 = 2 → CVT-RB3
    let mut caps = DisplayCapabilities::default();
    decode_type_ix_descriptor(&d, &mut caps);
    assert_eq!(caps.supported_modes.len(), 1);
    let mode = &caps.supported_modes[0];
    assert_eq!(mode.cvt_algorithm, Some(CvtAlgorithm::CvtRb3));
    assert_eq!(mode.pixel_clock_khz, None);
    assert_eq!(mode.h_front_porch, 0);
    assert_eq!(mode.h_sync_width, 0);
    assert_eq!(mode.v_front_porch, 0);
    assert_eq!(mode.v_sync_width, 0);
}
