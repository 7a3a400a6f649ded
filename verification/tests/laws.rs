use piaf::capabilities::displayid::metadata::{scan_all_metadata_blocks, scan_metadata_blocks};
use piaf::capabilities::displayid::timing::process_data_blocks;
use piaf::capabilities::displayid::DISPLAYID_V2;
use piaf::{
    parse_edid, ColorBitDepth, DisplayCapabilities, DisplayIdCapabilities, EdidWarning,
    ExtensionLibrary, ExtensionTagRegistry, RefreshRate, VideoMode, EDID_HEADER,
};

fn block(tag: u8, payload: &[u8]) -> Vec<u8> {
    let mut v = vec![tag, 0x00, payload.len() as u8];
    v.extend_from_slice(payload);
    v
}

fn edid_with_extension(tag: u8) -> Vec<u8> {
    let mut bytes = vec![0u8; 256];
    bytes[0..8].copy_from_slice(&EDID_HEADER);
    bytes[126] = 1;
    let sum: u8 = bytes[..127].iter().fold(0u8, |a, &x| a.wrapping_add(x));
    bytes[127] = 0u8.wrapping_sub(sum);
    bytes[128] = tag;
    bytes[255] = 0u8.wrapping_sub(tag);
    bytes
}

#[test]
fn law_register_twice_is_register_once() {
    let mut once = ExtensionTagRegistry::new();
    once.register(0x02);
    let mut twice = ExtensionTagRegistry::new();
    twice.register(0x02);
    twice.register(0x02);
    assert_eq!(once.known_tags, twice.known_tags);
    assert_eq!(twice.known_tags, vec![0x02]);
}

#[test]
fn law_register_keeps_known_tags() {
    let mut reg = ExtensionTagRegistry::new();
    reg.register(0x70);
    reg.register(0xEE);
    assert!(reg.is_known(0x70));
    assert!(reg.is_known(0xEE));
    assert!(!reg.is_known(0x02));
}

#[test]
fn law_exported_registry_knows_library_tags() {
    let lib = ExtensionLibrary::with_standard_extensions();
    let reg = lib.export_tags();
    for tag in 0u16..=255 {
        let tag = tag as u8;
        assert_eq!(reg.is_known(tag), lib.is_known(tag));
    }
}

#[test]
fn law_accepted_stream_has_valid_blocks() {
    let mut bytes = edid_with_extension(0x70);
    assert!(parse_edid(&bytes, &ExtensionTagRegistry::new()).is_ok());
    bytes[200] = 1; // breaks the extension block checksum
    assert!(parse_edid(&bytes, &ExtensionTagRegistry::new()).is_err());
}

#[test]
fn law_clean_stream_with_known_tags_has_no_warnings() {
    let bytes = edid_with_extension(0x70);
    let lib = ExtensionLibrary::with_standard_extensions();
    let parsed = parse_edid(&bytes, &lib).unwrap();
    assert!(parsed.warnings.is_empty());
    let unknown = parse_edid(&bytes, &ExtensionTagRegistry::new()).unwrap();
    assert_eq!(unknown.warnings, vec![EdidWarning::UnknownExtension(0x70)]);
}

#[test]
fn law_depth_code_bits() {
    for code in 0u8..8 {
        match ColorBitDepth::from_edid_bits(code) {
            Some(d) => assert_eq!(d.bits_per_primary(), 2 * code + 4),
            None => assert!(code == 0 || code == 7),
        }
    }
}

#[test]
fn law_v1_scan_ignores_v2_tags() {
    let payload = [block(0x20, &[0x00, 0x1A, 0x7E, 0x34, 0x12]), block(0x28, &[0; 7])].concat();
    let mut caps = DisplayCapabilities::default();
    scan_metadata_blocks(&payload, &mut caps);
    assert_eq!(caps, DisplayCapabilities::default());
}

#[test]
fn law_v2_scan_ignores_v1_tags() {
    let payload = [block(0x00, &[0x4C, 0x2D, 0x34, 0x12]), block(0x12, &[0; 7])].concat();
    let mut caps = DisplayCapabilities::default();
    let mut did = DisplayIdCapabilities::new(0x20, 0);
    let mut warnings = Vec::new();
    scan_all_metadata_blocks(&payload, DISPLAYID_V2, &mut caps, &mut did, &mut warnings);
    assert_eq!(caps, DisplayCapabilities::default());
    assert_eq!(did, DisplayIdCapabilities::new(0x20, 0));
    assert!(warnings.is_empty());
}

#[test]
fn law_v1_repeated_block_ignored() {
    let first = block(0x0A, b"AB1");
    let later = block(0x0A, b"XY9");
    let name = block(0x0B, b"abc");
    let with_repeat = [first.clone(), name.clone(), later.clone()].concat();
    let without = [first, name.clone()].concat();
    let only_later = [later, name].concat();
    let mut a = DisplayCapabilities::default();
    scan_metadata_blocks(&with_repeat, &mut a);
    let mut b = DisplayCapabilities::default();
    scan_metadata_blocks(&without, &mut b);
    let mut c = DisplayCapabilities::default();
    scan_metadata_blocks(&only_later, &mut c);
    assert_eq!(a, b);
    assert!(a.serial_number_string.is_some());
    assert_ne!(a.serial_number_string, c.serial_number_string);
}

#[test]
fn law_v2_repeated_block_ignored() {
    let first = block(0x29, &[0x11; 16]);
    let later = block(0x29, &[0x22; 16]);
    let vendor = block(0x7E, &[0x00, 0xD0, 0x46, 0x01]);
    let with_repeat = [first.clone(), vendor.clone(), later].concat();
    let without = [first, vendor].concat();
    let run = |p: &[u8]| {
        let mut caps = DisplayCapabilities::default();
        let mut did = DisplayIdCapabilities::new(0x20, 0);
        let mut w = Vec::new();
        scan_all_metadata_blocks(p, DISPLAYID_V2, &mut caps, &mut did, &mut w);
        (caps, did, w)
    };
    assert_eq!(run(&with_repeat), run(&without));
    assert_eq!(run(&with_repeat).1.container_id, Some([0x11; 16]));
}

#[test]
fn law_vendor_blocks_kept_in_order_and_repeated() {
    let payload = [
        block(0x7E, &[0x00, 0xD0, 0x46, 0x01]),
        block(0x7E, &[0x01, 0x02]), // too short: no record
        block(0x7E, &[0xCA, 0x12, 0x5C]),
        block(0x7E, &[0x00, 0xD0, 0x46, 0x02]),
    ]
    .concat();
    let mut caps = DisplayCapabilities::default();
    let mut did = DisplayIdCapabilities::new(0x20, 0);
    scan_all_metadata_blocks(&payload, DISPLAYID_V2, &mut caps, &mut did, &mut Vec::new());
    let ouis: Vec<[u8; 3]> = did.vendor_specific.iter().map(|v| v.oui).collect();
    assert_eq!(ouis, vec![[0x00, 0xD0, 0x46], [0xCA, 0x12, 0x5C], [0x00, 0xD0, 0x46]]);
    assert_eq!(did.vendor_specific[2].data, vec![0x02]);
}

#[test]
fn law_modes_are_kept_once() {
    let mode = VideoMode::new(1920, 1080, RefreshRate::integral(60), false);
    let mut caps = DisplayCapabilities::default();
    caps.push_mode(mode);
    caps.push_mode(mode);
    assert_eq!(caps.supported_modes.len(), 1);
    // Two identical Type V descriptors in one block give one mode.
    let d = [0u8, 0x80, 0x07, 0x38, 0x04, 59, 0];
    let payload = [block(0x11, &[d, d].concat())].concat();
    let mut caps = DisplayCapabilities::default();
    process_data_blocks(&payload, 0x12, &mut caps);
    assert_eq!(caps.supported_modes.len(), 1);
    assert_eq!(caps.supported_modes[0].refresh_rate, Some(RefreshRate::integral(60)));
}

#[test]
fn law_rate_from_ratio_is_the_ratio_in_lowest_terms() {
    let r = RefreshRate::from_ratio(148_500_000, 2200 * 1125).unwrap();
    assert_eq!(r, RefreshRate::integral(60));
    let r = RefreshRate::from_ratio(60_000, 1001).unwrap();
    assert_eq!((r.numer(), r.denom()), (60_000, 1001));
    let r = RefreshRate::from_ratio(120, 8).unwrap();
    assert_eq!((r.numer, r.denom), (15, 1));
    assert_eq!(RefreshRate::from_ratio(5, 0), None);
    assert_eq!(RefreshRate::from_ratio(u64::MAX, 1), None);
    assert_eq!(RefreshRate::fractional(50, 20), RefreshRate { numer: 5, denom: 2 });
}

#[test]
fn law_foreign_blocks_appended_are_ignored() {
    // A 1.x serial-number block, then a 2.x Product ID and a 2.x container ID block.
    let q = block(0x0A, b"AB1");
    let r = [block(0x20, &[0x00, 0xD0, 0x46, 0x34, 0x12, 0, 0, 0, 0, 0, 0, 0]), block(0x29, &[0x11; 16])]
        .concat();
    let run = |p: &[u8], version: u8| {
        let mut caps = DisplayCapabilities::default();
        let mut did = DisplayIdCapabilities::new(version, 0);
        let mut w = Vec::new();
        scan_all_metadata_blocks(p, version, &mut caps, &mut did, &mut w);
        (caps, did, w)
    };
    let with_r = [q.clone(), r.clone()].concat();
    assert_eq!(run(&with_r, 0x13), run(&q, 0x13));
    // In a 2.x section the same blocks do take effect.
    assert_ne!(run(&with_r, DISPLAYID_V2).1, run(&q, DISPLAYID_V2).1);
}

#[test]
fn law_library_register_keeps_first_entry_per_tag() {
    let mut lib = ExtensionLibrary::with_standard_handlers();
    lib.register(piaf::ExtensionMetadata {
        tag: 0x02,
        display_name: String::from("Other"),
        handler: None,
    });
    assert_eq!(lib.extensions.len(), 3);
    assert_eq!(lib.extensions[0].display_name, "CEA-861");
    assert_eq!(lib.extensions[0].handler, Some(piaf::BlockHandler::Cea861));
    let tags: Vec<u8> = lib.extensions.iter().map(|e| e.tag).collect();
    assert_eq!(tags, vec![0x02, 0x70, 0xF0]);
}
