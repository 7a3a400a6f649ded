use piaf::capabilities::displayid::metadata::{
    decode_luminance_f16, decode_v2_cta_displayid_block, decode_v2_color_bit_depth,
    decode_v2_manufacture_date,
};
use piaf::capabilities::displayid::timing::coded::{hdmi_vic_to_mode, resolve_coded_timing};
use piaf::model::timing::{CvtAspectRatio, TimingFormula};
use piaf::{
    capabilities_from_edid, parse_edid, CvtAlgorithm, EdidSource, EdidWarning, Extension,
    ExtensionLibrary, ExtensionRegistry, ExtensionTagRegistry, ManufactureDate, ManufacturerId,
    ParsedEdid, ParsedEdidRef, RefreshRate, StereoMode, VideoMode, DisplayCapabilities, EDID_HEADER,
};

#[test]
fn timing_formula_variants() {
    let mut d = [0u8; 18];
    d[10] = 0x00;
    assert_eq!(TimingFormula::from_descriptor_bytes(&d), Some(TimingFormula::DefaultGtf));
    d[10] = 0x01;
    assert_eq!(TimingFormula::from_descriptor_bytes(&d), Some(TimingFormula::RangeLimitsOnly));
    d[10] = 0x03;
    assert_eq!(TimingFormula::from_descriptor_bytes(&d), None);
}

#[test]
fn timing_formula_secondary_gtf() {
    let mut d = [0u8; 18];
    d[10] = 0x02;
    d[12] = 50;
    d[13] = 80;
    d[14] = 0x58;
    d[15] = 0x02;
    d[16] = 128;
    d[17] = 40;
    let Some(TimingFormula::SecondaryGtf(p)) = TimingFormula::from_descriptor_bytes(&d) else {
        panic!("expected secondary GTF");
    };
    assert_eq!((p.start_freq_khz, p.c, p.m, p.k, p.j), (100, 40, 600, 128, 20));
}

#[test]
fn timing_formula_cvt() {
    let mut d = [0u8; 18];
    d[10] = 0x04;
    d[11] = 0x11;
    d[12] = (3 << 2) | 0x02; // pixel clock adjust 3, max h active high bits 2
    d[13] = 0x80; // → (0x80 + 512) × 8 = 5120
    d[14] = 0xFF;
    d[15] = 0b0010_1000; // preferred 16:9, standard blanking
    d[16] = 0xFF;
    d[17] = 60;
    let Some(TimingFormula::Cvt(p)) = TimingFormula::from_descriptor_bytes(&d) else {
        panic!("expected CVT");
    };
    assert_eq!(p.version, 0x11);
    assert_eq!(p.pixel_clock_adjust, 3);
    assert_eq!(p.max_h_active_pixels, Some(5120));
    assert_eq!(p.supported_aspect_ratios.bits(), 0xF8);
    assert_eq!(p.preferred_aspect_ratio, Some(CvtAspectRatio::R16_9));
    assert!(p.standard_blanking);
    assert!(!p.reduced_blanking);
    assert_eq!(p.scaling.bits(), 0xF0);
    assert_eq!(p.preferred_v_rate, Some(60));
}

#[test]
fn extension_registry_knows_standard_tags() {
    let mut reg = ExtensionRegistry::new();
    assert!(reg.is_known(0x02));
    assert!(reg.is_known(0x70));
    assert!(!reg.is_known(0xAB));
    reg.register(Extension { tag: 0xAB, display_name: "Mine".to_string() });
    reg.register(Extension { tag: 0x02, display_name: "Other".to_string() });
    assert!(reg.is_known(0xAB));
    assert_eq!(reg.known_extensions.len(), 3);
    assert_eq!(reg.known_extensions[0].display_name, "CEA-861");
}

#[test]
fn parsed_edid_ref_blocks_and_conversion() {
    let base = [7u8; 128];
    let raw = [1u8; 200]; // one whole block and a partial one
    let r = ParsedEdidRef {
        base_block: &base,
        raw_extensions: &raw,
        num_extensions: 2,
        warnings: vec![EdidWarning::DescriptorParseFailed],
    };
    assert_eq!(r.extension_block(0), Some([1u8; 128]));
    assert_eq!(r.extension_block(1), None);
    assert_eq!(r.extension_count(), 1);
    assert_eq!(r.iter_warnings(), &[EdidWarning::DescriptorParseFailed]);
    let owned = ParsedEdid::from_ref(r);
    assert_eq!(owned.base_block, base);
    assert_eq!(owned.extensions, vec![[1u8; 128]]);
    assert_eq!(owned.warnings, vec![EdidWarning::DescriptorParseFailed]);
}

#[test]
fn capabilities_from_either_source_agree() {
    let mut bytes = [0u8; 128];
    bytes[0..8].copy_from_slice(&EDID_HEADER);
    bytes[8] = 0x10; // "DEL"
    bytes[9] = 0xAC;
    bytes[0x14] = 0x80;
    let sum: u8 = bytes[..127].iter().fold(0u8, |a, &x| a.wrapping_add(x));
    bytes[127] = 0u8.wrapping_sub(sum);
    let parsed = parse_edid(&bytes, &ExtensionTagRegistry::new()).unwrap();
    let lib = ExtensionLibrary::with_standard_handlers();
    let base: [u8; 128] = bytes;
    let r = ParsedEdidRef { base_block: &base, raw_extensions: &[], num_extensions: 0, warnings: vec![] };
    let a = capabilities_from_edid(&parsed, &lib);
    let b = capabilities_from_edid(&r, &lib);
    assert_eq!(a, b);
    assert!(a.digital);
    assert_eq!(a.manufacturer, Some(ManufacturerId(*b"DEL")));
    assert_eq!(a.manufacturer.unwrap().as_str(), "DEL");
}

#[test]
fn v2_manufacture_date_and_depth_codes() {
    assert_eq!(decode_v2_manufacture_date(0, 24), ManufactureDate::Manufactured { week: None, year: 2024 });
    assert_eq!(decode_v2_manufacture_date(0xFF, 0), ManufactureDate::ModelYear(2000));
    assert_eq!(decode_v2_color_bit_depth(0), None);
    assert_eq!(decode_v2_color_bit_depth(4), Some(12));
    assert_eq!(decode_v2_color_bit_depth(0x0D), Some(16));
    assert_eq!(decode_v2_color_bit_depth(6), None);
}

#[test]
fn luminance_field_screening() {
    assert_eq!(decode_luminance_f16(0x0000), None);
    assert_eq!(decode_luminance_f16(0x8000), None);
    assert_eq!(decode_luminance_f16(0x7C00), None); // infinity
    assert_eq!(decode_luminance_f16(0x7E00), None); // NaN
    assert_eq!(decode_luminance_f16(0x63D0), Some(0x63D0)); // 1000.0
    assert_eq!(decode_luminance_f16(0x0001), Some(0x0001)); // subnormal
}

#[test]
fn cta_block_revision_warning() {
    let mut w = Vec::new();
    decode_v2_cta_displayid_block(0, &mut w);
    assert!(w.is_empty());
    decode_v2_cta_displayid_block(3, &mut w);
    assert_eq!(w, vec![EdidWarning::UnsupportedV2BlockRevision { tag: 0x81, revision: 3 }]);
}

#[test]
fn coded_timing_lookups() {
    let m = hdmi_vic_to_mode(4).unwrap();
    assert_eq!((m.width, m.height, m.refresh_rate), (4096, 2160, Some(RefreshRate::integral(24))));
    assert_eq!(hdmi_vic_to_mode(5), None);
    let dmt = resolve_coded_timing(0, 0x52).unwrap();
    assert_eq!((dmt.width, dmt.height), (1920, 1080));
    assert_eq!(dmt.h_blank, Some(280));
    assert_eq!(resolve_coded_timing(0, 0), None);
    let vic = resolve_coded_timing(1, 16).unwrap();
    assert_eq!((vic.width, vic.height, vic.refresh_rate), (1920, 1080, Some(RefreshRate::integral(60))));
    assert_eq!(resolve_coded_timing(1, 300), None);
    assert_eq!(resolve_coded_timing(3, 1), None);
}

#[test]
fn cvt_algorithm_codes() {
    assert_eq!(CvtAlgorithm::from_bits(0xF8), CvtAlgorithm::CvtRb1);
    assert_eq!(CvtAlgorithm::from_bits(4), CvtAlgorithm::ReducedBlankingCvtRb2);
    assert_eq!(CvtAlgorithm::from_bits(7), CvtAlgorithm::Reserved(7));
}

#[test]
fn push_mode_ignores_mode_with_same_key() {
    let m0 = VideoMode::new(640, 480, RefreshRate::integral(60), false);
    let detailed = m0.with_detailed_timing(25175, 16, 96, 10, 2, 0, 0, StereoMode::NoStereo, None);
    let mut caps = DisplayCapabilities::default();
    caps.push_mode(m0);
    caps.push_mode(detailed);
    assert_eq!(caps.supported_modes, vec![m0]);
    caps.push_mode(VideoMode::new(640, 480, RefreshRate::integral(60), true));
    assert_eq!(caps.supported_modes.len(), 2);
}
