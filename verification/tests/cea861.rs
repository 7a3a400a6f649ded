use piaf::capabilities::cea861::{decode_cta_collection, svd_to_vic};
use piaf::capabilities::displayid::metadata::TAG_V2_CTA_DISPLAYID;
use piaf::capabilities::displayid::timing::{process_data_blocks, process_data_blocks_static};
use piaf::capabilities::displayid::DISPLAYID_V2;
use piaf::{
    capabilities_from_edid, capabilities_from_edid_static, parse_edid, BlockHandler,
    Cea861Handler, DisplayCapabilities, DisplayIdHandler, EdidWarning, ExtensionHandler,
    ExtensionLibrary, ExtensionTagRegistry, RefreshRate, StaticContext,
    StaticDisplayCapabilities, StaticExtensionHandler, EDID_HEADER,
};

/// A 256-byte EDID with one CEA extension block holding a Video Data Block with `vics`.
fn edid_with_cea_vdb(vics: &[u8]) -> Vec<u8> {
    let mut bytes = vec![0u8; 256];
    bytes[0..8].copy_from_slice(&EDID_HEADER);
    bytes[126] = 1; // 1 extension block
    let base_sum: u8 = bytes[..127].iter().fold(0u8, |a, &x| a.wrapping_add(x));
    bytes[127] = 0u8.wrapping_sub(base_sum);
    bytes[128] = 0x02; // CEA-861 tag
    bytes[129] = 0x03; // CEA version 3
    bytes[130] = 4 + 1 + vics.len() as u8; // dtd_offset = after data blocks
    bytes[131] = 0x00;
    bytes[132] = (0x02 << 5) | (vics.len() as u8 & 0x1F);
    for (i, &vic) in vics.iter().enumerate() {
        bytes[133 + i] = vic;
    }
    let ext_sum: u8 = bytes[128..255].iter().fold(0u8, |a, &x| a.wrapping_add(x));
    bytes[255] = 0u8.wrapping_sub(ext_sum);
    bytes
}

fn standard_static_handlers() -> [&'static dyn StaticExtensionHandler; 2] {
    [&Cea861Handler, &DisplayIdHandler]
}

#[test]
fn test_static_cea861_svds() {
    let bytes = edid_with_cea_vdb(&[16]);
    let registry = ExtensionTagRegistry::new();
    let parsed = parse_edid(&bytes, &registry).unwrap();
    let caps: StaticDisplayCapabilities<64> =
        capabilities_from_edid_static(&parsed, &standard_static_handlers());
    assert!(
        caps.iter_modes().iter().any(|m| m.width == 1920
            && m.height == 1080
            && m.refresh_rate == Some(RefreshRate::integral(60))
            && !m.interlaced),
        "expected VIC 16 (1080p60) in static caps"
    );
}

#[test]
fn test_static_mode_cap_exceeded() {
    // VICs 1–16: 16 distinct entries, all in the table
    let vics: Vec<u8> = (1..=16).collect();
    let bytes = edid_with_cea_vdb(&vics);
    let registry = ExtensionTagRegistry::new();
    let parsed = parse_edid(&bytes, &registry).unwrap();
    // Constrain to only 4 slots
    let caps: StaticDisplayCapabilities<4> =
        capabilities_from_edid_static(&parsed, &standard_static_handlers());
    assert_eq!(caps.num_modes, 4, "expected exactly MAX_MODES modes, got {}", caps.num_modes);
}

#[test]
fn test_static_warning_cap() {
    let mut bytes = vec![0u8; 256];
    bytes[0..8].copy_from_slice(&EDID_HEADER);
    bytes[126] = 1;
    let base_sum: u8 = bytes[..127].iter().fold(0u8, |a, &x| a.wrapping_add(x));
    bytes[127] = 0u8.wrapping_sub(base_sum);
    // CEA extension block with a data block whose declared length runs past the collection end.
    bytes[128] = 0x02;
    bytes[129] = 0x03;
    bytes[130] = 5; // collection ends at offset 5 (1 byte: just the header)
    bytes[131] = 0x00;
    bytes[132] = (0x02 << 5) | 10; // tag=2, length=10 — but 0 bytes remain
    let ext_sum: u8 = bytes[128..255].iter().fold(0u8, |a, &x| a.wrapping_add(x));
    bytes[255] = 0u8.wrapping_sub(ext_sum);
    let registry = ExtensionTagRegistry::new();
    let parsed = parse_edid(&bytes, &registry).unwrap();
    let caps: StaticDisplayCapabilities<64> =
        capabilities_from_edid_static(&parsed, &standard_static_handlers());
    assert!(
        caps.iter_warnings().iter().any(|w| *w == EdidWarning::MalformedDataBlock),
        "expected MalformedDataBlock warning in static caps"
    );
}

#[test]
fn test_v2_cta_displayid_static_path_emits_modes() {
    // V2 section with a 0x81 block carrying VIC 1 (640x480@60).
    let collection: [u8; 2] = [
        (0x02 << 5) | 0x01, // CTA Video Data Block: tag=2, length=1
        1,                  // VIC 1
    ];
    let mut payload = vec![TAG_V2_CTA_DISPLAYID, 0x00, collection.len() as u8];
    payload.extend_from_slice(&collection);
    let mut caps = StaticDisplayCapabilities::<16>::default();
    let mut ctx = StaticContext::new(&mut caps);
    process_data_blocks_static(&payload, DISPLAYID_V2, &mut ctx);
    assert_eq!(caps.num_modes, 1);
    let mode = caps.supported_modes[0].as_ref().unwrap();
    assert_eq!(mode.width, 640);
    assert_eq!(mode.height, 480);
}

#[test]
fn standard_library_attaches_cea861_handler() {
    let lib = ExtensionLibrary::with_standard_handlers();
    assert_eq!(lib.extensions[0].tag, 0x02);
    assert_eq!(lib.extensions[0].handler, Some(BlockHandler::Cea861));
    assert_eq!(lib.extensions[1].handler, None);
    assert_eq!(lib.extensions[2].handler, None);
    assert_eq!(lib.base_handlers, vec![BlockHandler::BaseBlock]);
}

#[test]
fn alloc_pipeline_decodes_cea861_video_data_block() {
    let bytes = edid_with_cea_vdb(&[16, 1, 16]);
    let lib = ExtensionLibrary::with_standard_handlers();
    let parsed = parse_edid(&bytes, &lib).unwrap();
    let caps = capabilities_from_edid(&parsed, &lib);
    let sizes: Vec<(u16, u16)> = caps.supported_modes.iter().map(|m| (m.width, m.height)).collect();
    assert_eq!(sizes, vec![(1920, 1080), (640, 480)]);
    assert!(!caps.warnings.contains(&EdidWarning::MalformedDataBlock));
}

#[test]
fn cea861_handler_warns_on_malformed_collection() {
    let mut block = [0u8; 128];
    block[0] = 0x02;
    block[1] = 0x03;
    block[2] = 6;
    block[4] = (0x02 << 5) | 1;
    block[5] = 16;
    let mut caps = DisplayCapabilities::default();
    let mut warnings = Vec::new();
    ExtensionHandler::process(&Cea861Handler, &[block], &mut caps, &mut warnings);
    assert_eq!(caps.supported_modes.len(), 1);
    assert!(warnings.is_empty());
    block[4] = (0x02 << 5) | 5; // runs past offset 6
    let mut caps = DisplayCapabilities::default();
    ExtensionHandler::process(&Cea861Handler, &[block], &mut caps, &mut warnings);
    assert!(caps.supported_modes.is_empty());
    assert_eq!(warnings, vec![EdidWarning::MalformedDataBlock]);
}

#[test]
fn svd_bytes_map_to_vics() {
    assert_eq!(svd_to_vic(0), None);
    assert_eq!(svd_to_vic(16), Some((16, false)));
    assert_eq!(svd_to_vic(128 + 16), Some((16, true)));
    assert_eq!(svd_to_vic(128), None);
    assert_eq!(svd_to_vic(200), Some((200, false)));
    assert_eq!(svd_to_vic(254), None);
}

#[test]
fn collection_skips_other_blocks() {
    // An audio data block (tag 1) followed by a video data block with VIC 4 (1280×720@60).
    let coll = [(0x01 << 5) | 3, 0x09, 0x07, 0x07, (0x02 << 5) | 1, 4];
    let mut caps = DisplayCapabilities::default();
    let bad = decode_cta_collection(&coll, &mut caps);
    assert!(!bad);
    assert_eq!(caps.supported_modes.len(), 1);
    assert_eq!((caps.supported_modes[0].width, caps.supported_modes[0].height), (1280, 720));
}

#[test]
fn displayid_v2_cta_block_decodes_vics_in_timing_pass() {
    let payload = vec![TAG_V2_CTA_DISPLAYID, 0x00, 2, (0x02 << 5) | 1, 1];
    let mut caps = DisplayCapabilities::default();
    process_data_blocks(&payload, DISPLAYID_V2, &mut caps);
    assert_eq!(caps.supported_modes.len(), 1);
    let mut v1 = DisplayCapabilities::default();
    process_data_blocks(&payload, 0x13, &mut v1);
    assert!(v1.supported_modes.is_empty());
}
