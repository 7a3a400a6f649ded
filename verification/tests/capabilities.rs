use piaf::{capabilities_from_edid, parse_edid, ExtensionLibrary, ExtensionTagRegistry, EDID_HEADER};

// Verifies that with_standard_handlers() wires BaseBlockHandler into the pipeline.
#[test]
fn test_standard_handlers_are_wired() {
    let mut bytes = [0u8; 128];
    bytes[0..8].copy_from_slice(&EDID_HEADER);
    bytes[0x14] = 0x80; // Digital input flag

    let mut sum = 0u8;
    for &b in bytes[..127].iter() {
        sum = sum.wrapping_add(b);
    }
    bytes[127] = 0u8.wrapping_sub(sum);

    let registry = ExtensionTagRegistry::new();
    let parsed = parse_edid(&bytes, &registry).unwrap();
    let caps = capabilities_from_edid(&parsed, &ExtensionLibrary::with_standard_handlers());

    assert!(caps.digital);
}
