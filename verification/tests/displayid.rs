use piaf::{DisplayCapabilities, DisplayIdHandler, EdidWarning, ExtensionHandler, ManufacturerId};

fn make_displayid_block(version: u8, data_blocks: &[u8]) -> [u8; 128] {
    let mut block = [0u8; 128];
    block[0] = 0x70; // extension tag
    block[1] = version;
    let section_byte_count = data_blocks.len().min(122);
    block[2] = section_byte_count as u8;
    block[3] = 0x00; // product_type=0, extension_count=0
    let end = 4 + section_byte_count;
    block[4..end].copy_from_slice(&data_blocks[..section_byte_count]);
    // Set DisplayID section checksum at block[4 + section_byte_count].
    let sum: u8 = block[1..end]
        .iter()
        .fold(0u8, |acc, &x| acc.wrapping_add(x));
    block[end] = 0u8.wrapping_sub(sum);
    // EDID extension block checksum at block[127] (covers all 128 bytes).
    let edid_sum: u8 = block[..127].iter().fold(0u8, |acc, &x| acc.wrapping_add(x));
    block[127] = 0u8.wrapping_sub(edid_sum);
    block
}

/// Recomputes the DisplayID section checksum and the EDID extension block checksum
/// after any modification to the block's header or data bytes.
fn fix_checksums(block: &mut [u8; 128]) {
    let n = block[2] as usize;
    let checksum_pos = 4 + n;
    if checksum_pos <= 126 {
        let sum: u8 = block[1..checksum_pos]
            .iter()
            .fold(0u8, |acc, &x| acc.wrapping_add(x));
        block[checksum_pos] = 0u8.wrapping_sub(sum);
    }
    let edid_sum: u8 = block[..127].iter().fold(0u8, |acc, &x| acc.wrapping_add(x));
    block[127] = 0u8.wrapping_sub(edid_sum);
}

#[test]
fn test_unknown_version_emits_warning() {
    let block = make_displayid_block(0x05, &[]);
    let mut caps = DisplayCapabilities::default();
    let mut warnings: Vec<EdidWarning> = Vec::new();
    DisplayIdHandler.process(&[block], &mut caps, &mut warnings);
    assert_eq!(warnings.len(), 1);
    assert_eq!(warnings[0], EdidWarning::DisplayIdVersionUnknown(0x05));
}

#[test]
fn test_extension_count_mismatch_warning() {
    // Declare 1 continuation block but provide none.
    let mut block = make_displayid_block(0x10, &[]);
    block[3] = 0x08; // extension_count = 1, product_type = 0
    fix_checksums(&mut block);
    let mut caps = DisplayCapabilities::default();
    let mut warnings: Vec<EdidWarning> = Vec::new();
    DisplayIdHandler.process(&[block], &mut caps, &mut warnings);
    assert_eq!(warnings.len(), 1);
    assert_eq!(
        warnings[0],
        EdidWarning::DisplayIdExtensionCountMismatch {
            declared: 1,
            found: 0
        }
    );
}

#[test]
fn test_v2_accepted_without_warning() {
    let block = make_displayid_block(0x20, &[]);
    let mut caps = DisplayCapabilities::default();
    let mut warnings: Vec<EdidWarning> = Vec::new();
    DisplayIdHandler.process(&[block], &mut caps, &mut warnings);
    assert!(warnings.is_empty());
}

#[test]
fn test_displayid_capabilities_stored() {
    // version 0x13 (DisplayID 1.3), product_type = 2 (packed in byte 3 as 0x02)
    let mut block = make_displayid_block(0x13, &[]);
    block[3] = 0x02; // extension_count=0, product_type=2
    fix_checksums(&mut block);
    let mut caps = DisplayCapabilities::default();
    let mut warnings: Vec<EdidWarning> = Vec::new();
    DisplayIdHandler.process(&[block], &mut caps, &mut warnings);
    assert!(warnings.is_empty());
    let did = caps.display_id.as_ref().unwrap();
    assert_eq!(did.version, 0x13);
    assert_eq!(did.product_type, 2);
}

#[test]
fn test_valid_checksum_no_warning() {
    // make_displayid_block already sets a valid checksum; no warning expected.
    let block = make_displayid_block(0x10, &[]);
    let mut caps = DisplayCapabilities::default();
    let mut warnings: Vec<EdidWarning> = Vec::new();
    DisplayIdHandler.process(&[block], &mut caps, &mut warnings);
    assert!(warnings.is_empty(), "unexpected warnings: {:?}", warnings);
}

#[test]
fn test_invalid_checksum_emits_warning() {
    let mut block = make_displayid_block(0x10, &[]);
    // Corrupt the DisplayID section checksum (at block[4 + section_byte_count]).
    let n = block[2] as usize;
    block[4 + n] ^= 0xFF;
    // Also fix the EDID extension block checksum so parsing reaches our code.
    let edid_sum: u8 = block[..127].iter().fold(0u8, |acc, &x| acc.wrapping_add(x));
    block[127] = 0u8.wrapping_sub(edid_sum);

    let mut caps = DisplayCapabilities::default();
    let mut warnings: Vec<EdidWarning> = Vec::new();
    DisplayIdHandler.process(&[block], &mut caps, &mut warnings);
    assert_eq!(warnings.len(), 1, "expected exactly one warning");
    assert_eq!(warnings[0], EdidWarning::DisplayIdChecksumMismatch);
}

fn make_type_i_descriptor(
    pixel_clock_10khz: u16,
    h_active: u16,
    h_blank: u16,
    h_fp: u16,
    h_sw: u16,
    v_active: u16,
    v_blank: u16,
    v_fp: u16,
    v_sw: u16,
    flags: u8,
) -> [u8; 20] {
    // Wire layout of a Type I descriptor: 24-bit pixel clock, options byte, then eight
    // 16-bit fields, each stored as `value − 1`.
    let mut d = [0u8; 20];
    let raw_pclk = pixel_clock_10khz as u32 - 1;
    d[0] = (raw_pclk & 0xFF) as u8;
    d[1] = ((raw_pclk >> 8) & 0xFF) as u8;
    d[2] = ((raw_pclk >> 16) & 0xFF) as u8;
    d[3] = flags;
    d[4..6].copy_from_slice(&(h_active - 1).to_le_bytes());
    d[6..8].copy_from_slice(&(h_blank - 1).to_le_bytes());
    d[8..10].copy_from_slice(&(h_fp - 1).to_le_bytes());
    d[10..12].copy_from_slice(&(h_sw - 1).to_le_bytes());
    d[12..14].copy_from_slice(&(v_active - 1).to_le_bytes());
    d[14..16].copy_from_slice(&(v_blank - 1).to_le_bytes());
    d[16..18].copy_from_slice(&(v_fp - 1).to_le_bytes());
    d[18..20].copy_from_slice(&(v_sw - 1).to_le_bytes());
    d
}

fn make_type_i_data_block(descriptor: &[u8; 20]) -> [u8; 23] {
    let mut db = [0u8; 23];
    db[0] = 0x03;
    db[1] = 0x00;
    db[2] = 20;
    db[3..23].copy_from_slice(descriptor);
    db
}


#[test]
fn test_multi_fragment_reassembly() {
    // First fragment: 1920×1080@60. Declares one continuation block.
    let desc1 = make_type_i_descriptor(14850, 1920, 280, 88, 44, 1080, 45, 4, 5, 0x00);
    let db1 = make_type_i_data_block(&desc1);
    let mut block1 = make_displayid_block(0x10, &db1);
    block1[3] = 0x08; // extension_count=1 (bits 7:3), product_type=0
    fix_checksums(&mut block1);

    // Second fragment (continuation): 2560×1440@60.
    let desc2 = make_type_i_descriptor(22118, 2560, 440, 80, 32, 1440, 41, 4, 5, 0x00);
    let db2 = make_type_i_data_block(&desc2);
    let block2 = make_displayid_block(0x10, &db2);

    let mut caps = DisplayCapabilities::default();
    let mut warnings: Vec<EdidWarning> = Vec::new();
    DisplayIdHandler.process(&[block1, block2], &mut caps, &mut warnings);

    assert!(warnings.is_empty(), "unexpected warnings: {:?}", warnings);
    assert_eq!(caps.supported_modes.len(), 2);
    assert!(
        caps.supported_modes
            .iter()
            .any(|m| m.width == 1920 && m.height == 1080)
    );
    assert!(
        caps.supported_modes
            .iter()
            .any(|m| m.width == 2560 && m.height == 1440)
    );
}

#[test]
fn test_product_id_and_timing_in_same_block() {
    // Product ID block followed by a Type I timing block — both must be decoded.
    let ca = (b'S' - b'A' + 1) as u16;
    let cb = (b'A' - b'A' + 1) as u16;
    let cc = (b'M' - b'A' + 1) as u16;
    let packed: u16 = (ca << 10) | (cb << 5) | cc;
    let mut pid_payload = Vec::new();
    pid_payload.extend_from_slice(&packed.to_be_bytes());
    pid_payload.extend_from_slice(&0xABCDu16.to_le_bytes());
    pid_payload.extend_from_slice(&0u32.to_le_bytes()); // serial = 0
    pid_payload.push(0); // week
    pid_payload.push(0); // year
    let mut pid_db = vec![0x00, 0x00, pid_payload.len() as u8];
    pid_db.extend_from_slice(&pid_payload);

    let desc = make_type_i_descriptor(14850, 1920, 280, 88, 44, 1080, 45, 4, 5, 0x00);
    let timing_db = make_type_i_data_block(&desc);

    let mut payload = Vec::new();
    payload.extend_from_slice(&pid_db);
    payload.extend_from_slice(&timing_db);

    let block = make_displayid_block(0x10, &payload);
    let mut caps = DisplayCapabilities::default();
    let mut warnings: Vec<EdidWarning> = Vec::new();
    DisplayIdHandler.process(&[block], &mut caps, &mut warnings);

    assert!(warnings.is_empty());
    assert_eq!(caps.manufacturer, Some(ManufacturerId(*b"SAM")));
    assert_eq!(caps.product_code, Some(0xABCD));
    assert_eq!(caps.supported_modes.len(), 1);
    assert_eq!(caps.supported_modes[0].width, 1920);
}

#[test]
fn block_handler_runs_the_displayid_handler() {
    let block = make_displayid_block(0x12, &[]);
    let mut caps_a = DisplayCapabilities::default();
    let mut warn_a = Vec::new();
    DisplayIdHandler.process(&[block], &mut caps_a, &mut warn_a);
    let mut caps_b = DisplayCapabilities::default();
    let mut warn_b = Vec::new();
    piaf::BlockHandler::DisplayId.process(&[block], &mut caps_b, &mut warn_b);
    assert_eq!(caps_a, caps_b);
    assert_eq!(warn_a, warn_b);
    assert!(caps_b.display_id.is_some());
}
