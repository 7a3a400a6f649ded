use vstd::prelude::*;

use super::{
    data_block_spans, data_blocks, lemma_data_blocks_append, lemma_data_blocks_in_bounds,
    shift_spans, whole_blocks_from, DataBlockSpan, DISPLAYID_V2,
    TAG_ASCII_STRING,
    TAG_COLOR_CHARACTERISTICS, TAG_DISPLAY_DEVICE_DATA, TAG_DISPLAY_INTERFACE, TAG_DISPLAY_PARAMS,
    TAG_POWER_SEQUENCING, TAG_PRODUCT_ID, TAG_SERIAL_NUMBER, TAG_STEREO_DISPLAY_INTERFACE,
    TAG_TILED_TOPOLOGY, TAG_TRANSFER_CHARACTERISTICS, TAG_VIDEO_TIMING_RANGE,
};
use crate::model::capabilities::{CapabilitiesView, DisplayCapabilities};
use crate::model::color::{Chromaticity, ChromaticityPoint, ColorBitDepth};
use crate::model::diagnostics::EdidWarning;
use crate::model::displayid::{
    Chromaticity12, ChromaticityPoint12, ColorDepthsFull, ColorDepthsSubsampled,
    DisplayIdCapabilities, DisplayIdStereoInterfaceV2, DisplayIdVendorSpecific, DisplayIdView,
    DisplayInterfaceFeatures, DisplayParamsV2, DualInterfaceMirroring, DynamicTimingRange,
    ScanOrientation, StereoEye, StereoInterfaceV2View, StereoMethodView, StereoTimingScopeV2,
    StereoViewingMethodV2, V2DisplayTechnology, VendorSpecificView,
};
use crate::model::manufacture::{text_field, ManufactureDate, ManufacturerId, MonitorString};
use crate::model::panel::{
    BacklightType, DisplayIdInterface, DisplayIdStereoInterface, DisplayIdTiledTopology,
    DisplayInterfaceType, DisplayTechnology, InterfaceContentProtection, OperatingMode,
    PhysicalOrientation, PowerSequencing, RotationCapability, ScanDirection, StereoSyncInterface,
    StereoViewingMode, SubpixelLayout, TileBezelInfo, TileTopologyBehavior, ZeroPixelLocation,
};
use crate::model::transfer::{
    DisplayIdTransferCharacteristic, TransferCharacteristicView, TransferCurve, TransferCurveView,
    TransferPointEncoding,
};

verus! {

// ---------------------------------------------------------------------------------------------
// Byte-level helpers
// ---------------------------------------------------------------------------------------------

/// A little-endian 16-bit value.
pub open spec fn le16(lo: u8, hi: u8) -> u16 {
    (lo as u16) | ((hi as u16) << 8)
}

/// A little-endian 16-bit word is its low byte plus 256 times its high byte; its top bit
/// is the top bit of the high byte, and its low 15 bits are the low byte plus 256 times the
/// high byte's low 7 bits. Of the two 12-bit values packed in `lo hi` and the next byte,
/// the one ending in the low nibble of `hi` is `lo` plus 256 times that nibble, and the one
/// starting at the high nibble of `lo` is that nibble plus 16 times `hi`. Reading `lo hi`
/// as a big-endian bit stream, the 10- and 12-bit fields that straddle the two bytes are
/// the low bits of `lo` followed by the high bits of `hi`.
pub proof fn lemma_le16_parts(lo: u8, hi: u8)
    ensures
        le16(lo, hi) as int == lo + 256 * hi,
        (le16(lo, hi) >> 15 != 0) == (hi >= 128),
        (le16(lo, hi) & 0x7FFF) as int == lo + 256 * (hi % 128),
        ((lo as u16) | (((hi & 0x0F) as u16) << 8)) as int == lo + 256 * (hi % 16),
        ((((lo >> 4) & 0x0F) as u16) | ((hi as u16) << 4)) as int == lo / 16 + 16 * hi,
        (((lo as u16) << 2) | ((hi as u16) >> 6)) as int == 4 * lo + hi / 64,
        ((((lo as u16) & 0x3F) << 4) | ((hi as u16) >> 4)) as int == 16 * (lo % 64) + hi / 16,
        ((((lo as u16) & 0x0F) << 6) | ((hi as u16) >> 2)) as int == 64 * (lo % 16) + hi / 4,
        ((((lo as u16) & 0x03) << 8) | (hi as u16)) as int == 256 * (lo % 4) + hi,
        (((lo as u16) << 4) | ((hi as u16) >> 4)) as int == 16 * lo + hi / 16,
        ((((lo as u16) & 0x0F) << 8) | (hi as u16)) as int == 256 * (lo % 16) + hi,
{
    assert({
        &&& ((lo as u16) | ((hi as u16) << 8)) == (lo as u16) + 256 * (hi as u16)
        &&& (((lo as u16) | ((hi as u16) << 8)) >> 15 != 0) == (hi >= 128)
        &&& (((lo as u16) | ((hi as u16) << 8)) & 0x7FFF) == (lo as u16) + 256 * ((hi % 128) as u16)
        &&& ((lo as u16) | (((hi & 0x0F) as u16) << 8)) == (lo as u16) + 256 * ((hi % 16) as u16)
        &&& ((((lo >> 4) & 0x0F) as u16) | ((hi as u16) << 4)) == ((lo / 16) as u16) + 16 * (
        hi as u16)
        &&& (((lo as u16) << 2) | ((hi as u16) >> 6)) == 4 * (lo as u16) + (hi as u16) / 64
        &&& ((((lo as u16) & 0x3F) << 4) | ((hi as u16) >> 4)) == 16 * ((lo % 64) as u16) + (
        hi as u16) / 16
        &&& ((((lo as u16) & 0x0F) << 6) | ((hi as u16) >> 2)) == 64 * ((lo % 16) as u16) + (
        hi as u16) / 4
        &&& ((((lo as u16) & 0x03) << 8) | (hi as u16)) == 256 * ((lo % 4) as u16) + (hi as u16)
        &&& (((lo as u16) << 4) | ((hi as u16) >> 4)) == 16 * (lo as u16) + (hi as u16) / 16
        &&& ((((lo as u16) & 0x0F) << 8) | (hi as u16)) == 256 * ((lo % 16) as u16) + (hi as u16)
    }) by (bit_vector);
}

/// Little-endian 24- and 32-bit values are their bytes weighted by powers of 256.
pub proof fn lemma_le24_le32_parts(b0: u8, b1: u8, b2: u8, b3: u8)
    ensures
        le24(b0, b1, b2) as int == b0 + 256 * b1 + 65536 * b2,
        le32(b0, b1, b2, b3) as int == b0 + 256 * b1 + 65536 * b2 + 16777216 * b3,
{
    assert({
        &&& ((b0 as u32) | ((b1 as u32) << 8) | ((b2 as u32) << 16)) == (b0 as u32) + 256 * (
        b1 as u32) + 65536 * (b2 as u32)
        &&& ((b0 as u32) | ((b1 as u32) << 8) | ((b2 as u32) << 16) | ((b3 as u32) << 24)) == (
        b0 as u32) + 256 * (b1 as u32) + 65536 * (b2 as u32) + 16777216 * (b3 as u32)
    }) by (bit_vector);
}

/// A little-endian 24-bit value.
pub open spec fn le24(b0: u8, b1: u8, b2: u8) -> u32 {
    (b0 as u32) | ((b1 as u32) << 8) | ((b2 as u32) << 16)
}

/// A little-endian 32-bit value.
pub open spec fn le32(b0: u8, b1: u8, b2: u8, b3: u8) -> u32 {
    (b0 as u32) | ((b1 as u32) << 8) | ((b2 as u32) << 16) | ((b3 as u32) << 24)
}

fn read_le16(lo: u8, hi: u8) -> (r: u16)
    ensures
        r == le16(lo, hi),
{
    (lo as u16) | ((hi as u16) << 8)
}

/// Builds the 13-byte descriptor string that a text block payload becomes.
pub fn monitor_string_from(payload: &[u8]) -> (r: MonitorString)
    ensures
        r.0@ == text_field(payload@),
{
    let mut buf = [0x20u8; 13];
    let copy_len = if payload.len() < 13 {
        payload.len()
    } else {
        13
    };
    let mut i: usize = 0;
    while i < copy_len
        invariant
            copy_len <= 13,
            copy_len <= payload@.len(),
            copy_len == (if payload@.len() < 13 {
                payload@.len() as int
            } else {
                13
            }),
            i <= copy_len,
            buf@.len() == 13,
            forall|j: int| 0 <= j < i ==> buf@[j] == payload@[j],
            forall|j: int| i <= j < 13 ==> buf@[j] == 0x20u8,
        decreases copy_len - i,
    {
        buf[i] = payload[i];
        i = i + 1;
    }
    let ghost padded = payload@.take(copy_len as int) + Seq::new(
        (13 - copy_len) as nat,
        |k: int| 0x20u8,
    );
    assert(buf@ =~= padded);
    let mut has_terminator = false;
    let mut k: usize = 0;
    while k < 13
        invariant
            k <= 13,
            buf@ == padded,
            buf@.len() == 13,
            has_terminator == exists|j: int| 0 <= j < k && buf@[j] == 0x0Au8,
        decreases 13 - k,
    {
        if buf[k] == 0x0A {
            has_terminator = true;
        }
        k = k + 1;
    }
    assert(has_terminator == padded.contains(0x0Au8));
    if !has_terminator {
        let pos = if copy_len < 12 {
            copy_len
        } else {
            12
        };
        buf[pos] = 0x0A;
        assert(buf@ =~= padded.update(pos as int, 0x0Au8));
    }
    MonitorString(buf)
}

// ---------------------------------------------------------------------------------------------
// Product Identification Block (tag 0x00)
// ---------------------------------------------------------------------------------------------

/// The three letters of a 2-byte packed PNP manufacturer ID (big-endian, 5 bits per letter,
/// `1` = `A`), or `None` when a letter code lies outside 1–26.
pub open spec fn pnp_id(b0: u8, b1: u8) -> Option<Seq<u8>> {
    let raw = ((b0 as u16) << 8) | (b1 as u16);
    let c1 = ((raw >> 10) & 0x1F) as u8;
    let c2 = ((raw >> 5) & 0x1F) as u8;
    let c3 = (raw & 0x1F) as u8;
    if 1 <= c1 <= 26 && 1 <= c2 <= 26 && 1 <= c3 <= 26 {
        Some(seq![(c1 + 64) as u8, (c2 + 64) as u8, (c3 + 64) as u8])
    } else {
        None
    }
}

/// A PNP manufacturer ID packs three letters into five bits each of the big-endian word
/// `b0 b1` (bits 14–10, 9–5 and 4–0), 1 standing for `A`; it decodes exactly when all three
/// lie in 1–26.
pub proof fn lemma_pnp_letters(b0: u8, b1: u8)
    ensures
        ({
            let l1 = (b0 / 4) % 32;
            let l2 = (b0 % 4) * 8 + b1 / 32;
            let l3 = b1 % 32;
            &&& (pnp_id(b0, b1) is Some) == (1 <= l1 <= 26 && 1 <= l2 <= 26 && 1 <= l3 <= 26)
            &&& pnp_id(b0, b1) is Some ==> pnp_id(b0, b1)->0 == seq![
                (l1 + 64) as u8,
                (l2 + 64) as u8,
                (l3 + 64) as u8,
            ]
        }),
{
    assert({
        &&& ((((b0 as u16) << 8) | (b1 as u16)) >> 10) & 0x1F == ((b0 / 4) % 32) as u16
        &&& ((((b0 as u16) << 8) | (b1 as u16)) >> 5) & 0x1F == ((b0 % 4) * 8 + b1 / 32) as u16
        &&& (((b0 as u16) << 8) | (b1 as u16)) & 0x1F == (b1 % 32) as u16
    }) by (bit_vector);
}

/// The model after a Product Identification Block payload: manufacturer (bytes 0–1, PNP),
/// product code (bytes 2–3), serial number (bytes 4–7, when non-zero), manufacture date
/// (bytes 8–9, year from 1990) and product name (bytes 10+), each written only when the
/// payload reaches it.
pub open spec fn product_id_decoded(p: Seq<u8>, c: CapabilitiesView) -> CapabilitiesView {
    let c1 = if p.len() >= 2 && pnp_id(p[0], p[1]) is Some {
        CapabilitiesView { manufacturer: pnp_id(p[0], p[1]), ..c }
    } else {
        c
    };
    let c2 = if p.len() >= 4 {
        CapabilitiesView { product_code: Some(le16(p[2], p[3])), ..c1 }
    } else {
        c1
    };
    let c3 = if p.len() >= 8 && le32(p[4], p[5], p[6], p[7]) != 0 {
        CapabilitiesView { serial_number: Some(le32(p[4], p[5], p[6], p[7])), ..c2 }
    } else {
        c2
    };
    let c4 = if p.len() >= 10 {
        CapabilitiesView {
            manufacture_date: Some(ManufactureDate::spec_from_bytes(p[8], p[9], 1990)),
            ..c3
        }
    } else {
        c3
    };
    if p.len() >= 11 {
        CapabilitiesView { display_name: Some(text_field(p.subrange(10, p.len() as int))), ..c4 }
    } else {
        c4
    }
}

/// A Product Identification payload sets the product code to the little-endian word at bytes
/// 2–3 (given 4 bytes) and the serial number to the little-endian 32-bit value at bytes 4–7
/// (given 8 bytes and a non-zero value), leaving the mode list, warnings and DisplayID record
/// as they are.
pub proof fn lemma_product_id_fields(p: Seq<u8>, c: CapabilitiesView)
    ensures
        ({
            let r = product_id_decoded(p, c);
            &&& p.len() >= 4 ==> r.product_code == Some((p[2] + 256 * p[3]) as u16)
            &&& p.len() < 4 ==> r.product_code == c.product_code
            &&& p.len() >= 8 && p[4] + 256 * p[5] + 65536 * p[6] + 16777216 * p[7] != 0
                ==> r.serial_number == Some(
                (p[4] + 256 * p[5] + 65536 * p[6] + 16777216 * p[7]) as u32,
            )
            &&& r.supported_modes == c.supported_modes
            &&& r.warnings == c.warnings
            &&& r.display_id == c.display_id
        }),
{
    if p.len() >= 8 {
        lemma_le24_le32_parts(p[4], p[5], p[6], p[7]);
    }
    if p.len() >= 4 {
        lemma_le16_parts(p[2], p[3]);
    }
}

/// Decodes a Product Identification Block payload into `caps`.
pub fn decode_product_id_block(payload: &[u8], caps: &mut DisplayCapabilities)
    ensures
        final(caps)@ == product_id_decoded(payload@, old(caps)@),
{
    let len = payload.len();
    if len >= 2 {
        let id_raw = ((payload[0] as u16) << 8) | (payload[1] as u16);
        let char1 = ((id_raw >> 10) & 0x1F) as u8;
        let char2 = ((id_raw >> 5) & 0x1F) as u8;
        let char3 = (id_raw & 0x1F) as u8;
        if 1 <= char1 && char1 <= 26 && 1 <= char2 && char2 <= 26 && 1 <= char3 && char3 <= 26 {
            let id = ManufacturerId([char1 + 64, char2 + 64, char3 + 64]);
            assert(id.0@ =~= pnp_id(payload@[0], payload@[1]).unwrap());
            caps.manufacturer = Some(id);
        }
    }
    if len >= 4 {
        caps.product_code = Some(read_le16(payload[2], payload[3]));
    }
    if len >= 8 {
        let sn = (payload[4] as u32) | ((payload[5] as u32) << 8) | ((payload[6] as u32) << 16)
            | ((payload[7] as u32) << 24);
        if sn != 0 {
            caps.serial_number = Some(sn);
        }
    }
    if len >= 10 {
        caps.manufacture_date = Some(ManufactureDate::from_edid_bytes(payload[8], payload[9]));
    }
    if len >= 11 {
        let name = &payload[10..len];
        caps.display_name = Some(monitor_string_from(name));
    }
}

// ---------------------------------------------------------------------------------------------
// Display Parameters Block (tag 0x01)
// ---------------------------------------------------------------------------------------------

/// The EDID-style 3-bit depth code of a bits-per-color value (`0` when there is none).
pub open spec fn bpc_to_edid_bits(bpc: u8) -> u8 {
    if bpc == 6 {
        1
    } else if bpc == 8 {
        2
    } else if bpc == 10 {
        3
    } else if bpc == 12 {
        4
    } else if bpc == 14 {
        5
    } else if bpc == 16 {
        6
    } else {
        0
    }
}

fn edid_bits_for_bpc(bpc: u8) -> (r: u8)
    ensures
        r == bpc_to_edid_bits(bpc),
{
    match bpc {
        6 => 1,
        8 => 2,
        10 => 3,
        12 => 4,
        14 => 5,
        16 => 6,
        _ => 0,
    }
}

/// The color depth of a DisplayID depth byte: the low nibble holds bits-per-color − 1.
pub open spec fn depth_from_byte(b: u8) -> Option<ColorBitDepth> {
    ColorBitDepth::spec_from_edid_bits(bpc_to_edid_bits(((b & 0x0F) + 1) as u8))
}

fn decode_depth_byte(b: u8) -> (r: Option<ColorBitDepth>)
    ensures
        r == depth_from_byte(b),
{
    assert(b & 0x0F <= 15) by (bit_vector);
    let bpc = (b & 0x0F) + 1;
    ColorBitDepth::from_edid_bits(edid_bits_for_bpc(bpc))
}

/// The model after a Display Parameters Block payload: image size (bytes 0–3, both axes
/// non-zero), native pixels (bytes 4–7, both non-zero), aspect ratio (byte 10) and color
/// depth (byte 11), each written only when the payload reaches it.
pub open spec fn display_params_decoded(p: Seq<u8>, c: CapabilitiesView) -> CapabilitiesView {
    let c1 = if p.len() >= 4 && le16(p[0], p[1]) != 0 && le16(p[2], p[3]) != 0 {
        CapabilitiesView {
            preferred_image_size_mm: Some((le16(p[0], p[1]), le16(p[2], p[3]))),
            ..c
        }
    } else {
        c
    };
    let c2 = if p.len() >= 8 && le16(p[4], p[5]) != 0 && le16(p[6], p[7]) != 0 {
        CapabilitiesView { native_pixels: Some((le16(p[4], p[5]), le16(p[6], p[7]))), ..c1 }
    } else {
        c1
    };
    let c3 = if p.len() >= 11 {
        CapabilitiesView { panel_aspect_ratio_100: Some(p[10]), ..c2 }
    } else {
        c2
    };
    if p.len() >= 12 {
        CapabilitiesView { color_bit_depth: depth_from_byte(p[11]), ..c3 }
    } else {
        c3
    }
}

/// A Display Parameters payload sets the preferred image size to (horizontal, vertical) =
/// (word at bytes 0–1, word at bytes 2–3) and the native pixel format to (word at bytes
/// 4–5, word at bytes 6–7), little-endian, each only when both words are present and
/// non-zero; and the aspect ratio code to byte 10.
pub proof fn lemma_display_params_fields(p: Seq<u8>, c: CapabilitiesView)
    ensures
        ({
            let r = display_params_decoded(p, c);
            let (h, v) = (p[0] + 256 * p[1], p[2] + 256 * p[3]);
            let (hp, vp) = (p[4] + 256 * p[5], p[6] + 256 * p[7]);
            &&& p.len() >= 4 && h != 0 && v != 0 ==> r.preferred_image_size_mm == Some(
                (h as u16, v as u16),
            )
            &&& p.len() >= 8 && hp != 0 && vp != 0 ==> r.native_pixels == Some(
                (hp as u16, vp as u16),
            )
            &&& p.len() >= 11 ==> r.panel_aspect_ratio_100 == Some(p[10])
            &&& r.supported_modes == c.supported_modes
        }),
{
    if p.len() >= 4 {
        lemma_le16_parts(p[0], p[1]);
        lemma_le16_parts(p[2], p[3]);
    }
    if p.len() >= 8 {
        lemma_le16_parts(p[4], p[5]);
        lemma_le16_parts(p[6], p[7]);
    }
}

/// Decodes a Display Parameters Block payload into `caps`.
pub fn decode_display_params_block(payload: &[u8], caps: &mut DisplayCapabilities)
    ensures
        final(caps)@ == display_params_decoded(payload@, old(caps)@),
{
    let len = payload.len();
    if len >= 4 {
        let h = read_le16(payload[0], payload[1]);
        let v = read_le16(payload[2], payload[3]);
        if h != 0 && v != 0 {
            caps.preferred_image_size_mm = Some((h, v));
        }
    }
    if len >= 8 {
        let h_px = read_le16(payload[4], payload[5]);
        let v_px = read_le16(payload[6], payload[7]);
        if h_px != 0 && v_px != 0 {
            caps.native_pixels = Some((h_px, v_px));
        }
    }
    if len >= 11 {
        caps.panel_aspect_ratio_100 = Some(payload[10]);
    }
    if len >= 12 {
        caps.color_bit_depth = decode_depth_byte(payload[11]);
    }
}

// ---------------------------------------------------------------------------------------------
// Color Characteristics Block (tag 0x02)
// ---------------------------------------------------------------------------------------------

/// The chromaticity point at offset `i`: two little-endian 16-bit values, low 10 bits kept.
pub open spec fn point_at(p: Seq<u8>, i: int) -> ChromaticityPoint {
    ChromaticityPoint {
        x_raw: le16(p[i], p[i + 1]) & 0x03FF,
        y_raw: le16(p[i + 2], p[i + 3]) & 0x03FF,
    }
}

/// The model after a Color Characteristics Block payload: red, green, blue and white at
/// offsets 0, 4, 8 and 12; a payload shorter than 16 bytes changes nothing.
pub open spec fn color_characteristics_decoded(p: Seq<u8>, c: CapabilitiesView) -> CapabilitiesView {
    if p.len() < 16 {
        c
    } else {
        CapabilitiesView {
            chromaticity: Chromaticity {
                red: point_at(p, 0),
                green: point_at(p, 4),
                blue: point_at(p, 8),
                white: point_at(p, 12),
            },
            ..c
        }
    }
}

/// The low ten bits of the little-endian word `lo hi` are `lo` plus 256 times the low two
/// bits of `hi`.
pub proof fn lemma_le16_low10(lo: u8, hi: u8)
    ensures
        le16(lo, hi) & 0x03FF == lo + 256 * (hi % 4),
{
    lemma_le16_parts(lo, hi);
    vstd::bits::lemma_u16_low_bits_mask_is_mod(le16(lo, hi), 10);
    vstd::bits::lemma_low_bits_mask_values();
    vstd::arithmetic::power2::lemma2_to64();
    assert((lo + 256 * hi) % 1024 == lo + 256 * (hi % 4)) by (nonlinear_arith)
        requires
            lo < 256,
            hi < 256,
    ;
}

/// A Color Characteristics payload of at least 16 bytes sets the chromaticity and nothing
/// else: red, green, blue and white at offsets 0, 4, 8 and 12, each an x and a y of ten bits
/// from a little-endian word (the low byte plus 256 times bits 1–0 of the high byte). A
/// shorter payload changes nothing.
pub proof fn lemma_color_characteristics_fields(p: Seq<u8>, c: CapabilitiesView, i: int)
    requires
        i == 0 || i == 4 || i == 8 || i == 12,
    ensures
        p.len() < 16 ==> color_characteristics_decoded(p, c) == c,
        p.len() >= 16 ==> {
            let r = color_characteristics_decoded(p, c);
            let point = if i == 0 {
                r.chromaticity.red
            } else if i == 4 {
                r.chromaticity.green
            } else if i == 8 {
                r.chromaticity.blue
            } else {
                r.chromaticity.white
            };
            &&& point.x_raw == p[i] + 256 * (p[i + 1] % 4)
            &&& point.y_raw == p[i + 2] + 256 * (p[i + 3] % 4)
            &&& r == (CapabilitiesView { chromaticity: r.chromaticity, ..c })
        },
{
    if p.len() >= 16 {
        lemma_le16_low10(p[i], p[i + 1]);
        lemma_le16_low10(p[i + 2], p[i + 3]);
    }
}

fn read_point(payload: &[u8], i: usize) -> (r: ChromaticityPoint)
    requires
        i + 4 <= payload@.len(),
    ensures
        r == point_at(payload@, i as int),
{
    ChromaticityPoint {
        x_raw: read_le16(payload[i], payload[i + 1]) & 0x03FF,
        y_raw: read_le16(payload[i + 2], payload[i + 3]) & 0x03FF,
    }
}

/// Decodes a Color Characteristics Block payload into `caps.chromaticity`.
pub fn decode_color_characteristics_block(payload: &[u8], caps: &mut DisplayCapabilities)
    ensures
        final(caps)@ == color_characteristics_decoded(payload@, old(caps)@),
{
    if payload.len() < 16 {
        return;
    }
    caps.chromaticity = Chromaticity {
        red: read_point(payload, 0),
        green: read_point(payload, 4),
        blue: read_point(payload, 8),
        white: read_point(payload, 12),
    };
}

// ---------------------------------------------------------------------------------------------
// Video Timing Range Limits Block (tag 0x09)
// ---------------------------------------------------------------------------------------------

/// The model after a Video Timing Range Limits Block payload: maximum pixel clock
/// (bytes 3–5, 10 kHz units, stored in MHz truncated to 16 bits), horizontal rate range
/// (bytes 6–7) and vertical rate range (bytes 10–11), each when the payload reaches it.
pub open spec fn video_timing_range_decoded(p: Seq<u8>, c: CapabilitiesView) -> CapabilitiesView {
    let c1 = if p.len() >= 6 {
        CapabilitiesView {
            max_pixel_clock_mhz: Some((le24(p[3], p[4], p[5]) / 100) as u16),
            ..c
        }
    } else {
        c
    };
    let c2 = if p.len() >= 8 {
        CapabilitiesView {
            min_h_rate_khz: Some(p[6] as u16),
            max_h_rate_khz: Some(p[7] as u16),
            ..c1
        }
    } else {
        c1
    };
    if p.len() >= 12 {
        CapabilitiesView { min_v_rate: Some(p[10] as u16), max_v_rate: Some(p[11] as u16), ..c2 }
    } else {
        c2
    }
}

/// A Video Timing Range Limits payload sets the maximum pixel clock to the 24-bit value at
/// bytes 3–5 divided by 100 (10 kHz units to MHz), the horizontal rate range to
/// (byte 6, byte 7) kHz and the vertical rate range to (byte 10, byte 11) Hz, each when the
/// payload reaches those bytes.
pub proof fn lemma_video_timing_range_fields(p: Seq<u8>, c: CapabilitiesView)
    ensures
        ({
            let r = video_timing_range_decoded(p, c);
            &&& p.len() >= 6 ==> r.max_pixel_clock_mhz == Some(
                ((p[3] + 256 * p[4] + 65536 * p[5]) / 100) as u16,
            )
            &&& p.len() >= 8 ==> r.min_h_rate_khz == Some(p[6] as u16) && r.max_h_rate_khz == Some(
                p[7] as u16,
            )
            &&& p.len() >= 12 ==> r.min_v_rate == Some(p[10] as u16) && r.max_v_rate == Some(
                p[11] as u16,
            )
        }),
{
    if p.len() >= 6 {
        lemma_le24_le32_parts(p[3], p[4], p[5], 0);
    }
}

/// Decodes a Video Timing Range Limits Block payload into `caps`.
pub fn decode_video_timing_range_block(payload: &[u8], caps: &mut DisplayCapabilities)
    ensures
        final(caps)@ == video_timing_range_decoded(payload@, old(caps)@),
{
    let len = payload.len();
    if len >= 6 {
        let raw = (payload[3] as u32) | ((payload[4] as u32) << 8) | ((payload[5] as u32) << 16);
        caps.max_pixel_clock_mhz = Some((raw / 100) as u16);
    }
    if len >= 8 {
        caps.min_h_rate_khz = Some(payload[6] as u16);
        caps.max_h_rate_khz = Some(payload[7] as u16);
    }
    if len >= 12 {
        caps.min_v_rate = Some(payload[10] as u16);
        caps.max_v_rate = Some(payload[11] as u16);
    }
}

// ---------------------------------------------------------------------------------------------
// Product Serial Number Block (tag 0x0A) and General Purpose ASCII String Block (tag 0x0B)
// ---------------------------------------------------------------------------------------------

/// The model after a Product Serial Number Block payload: the serial number string, unless
/// the payload is empty.
pub open spec fn serial_number_decoded(p: Seq<u8>, c: CapabilitiesView) -> CapabilitiesView {
    if p.len() == 0 {
        c
    } else {
        CapabilitiesView { serial_number_string: Some(text_field(p)), ..c }
    }
}

/// Decodes a Product Serial Number Block payload into `caps.serial_number_string`.
pub fn decode_serial_number_block(payload: &[u8], caps: &mut DisplayCapabilities)
    ensures
        final(caps)@ == serial_number_decoded(payload@, old(caps)@),
{
    if payload.len() == 0 {
        return;
    }
    caps.serial_number_string = Some(monitor_string_from(payload));
}

/// The index of the first empty slot of `slots`, or its length when all are filled.
pub open spec fn first_free_slot(slots: Seq<Option<Seq<u8>>>) -> int
    decreases slots.len(),
{
    if slots.len() == 0 {
        0
    } else if slots[0] is None {
        0
    } else {
        1 + first_free_slot(slots.drop_first())
    }
}

proof fn lemma_first_free_slot(slots: Seq<Option<Seq<u8>>>)
    ensures
        0 <= first_free_slot(slots) <= slots.len(),
        forall|j: int| 0 <= j < first_free_slot(slots) ==> (#[trigger] slots[j]) is Some,
        first_free_slot(slots) < slots.len() ==> slots[first_free_slot(slots)] is None,
    decreases slots.len(),
{
    if slots.len() != 0 && slots[0] is Some {
        lemma_first_free_slot(slots.drop_first());
        assert forall|j: int| 0 <= j < first_free_slot(slots) implies (#[trigger] slots[j]) is Some by {
            if j > 0 {
                assert(slots[j] == slots.drop_first()[j - 1]);
            }
        }
    }
}

/// The model after a General Purpose ASCII String Block payload: the string goes into the
/// first empty `unspecified_text` slot; with all four slots filled, or an empty payload,
/// nothing changes.
pub open spec fn ascii_string_decoded(p: Seq<u8>, c: CapabilitiesView) -> CapabilitiesView {
    let k = first_free_slot(c.unspecified_text);
    if p.len() == 0 || k >= 4 {
        c
    } else {
        CapabilitiesView {
            unspecified_text: c.unspecified_text.update(k, Some(text_field(p))),
            ..c
        }
    }
}

/// Decodes a General Purpose ASCII String Block payload into the next free slot of
/// `caps.unspecified_text`.
pub fn decode_ascii_string_block(payload: &[u8], caps: &mut DisplayCapabilities)
    ensures
        final(caps)@ == ascii_string_decoded(payload@, old(caps)@),
{
    if payload.len() == 0 {
        return;
    }
    proof {
        lemma_first_free_slot(caps@.unspecified_text);
    }
    let mut slot: usize = 0;
    while slot < 4 && caps.unspecified_text[slot].is_some()
        invariant
            slot <= 4,
            caps@ == old(caps)@,
            *caps == *old(caps),
            forall|j: int| 0 <= j < slot ==> (#[trigger] caps@.unspecified_text[j]) is Some,
        decreases 4 - slot,
    {
        assert(caps@.unspecified_text[slot as int] is Some);
        slot = slot + 1;
    }
    proof {
        let k = first_free_slot(caps@.unspecified_text);
        if slot < 4 {
            assert(caps@.unspecified_text[slot as int] is None);
            if k < slot {
                assert(caps@.unspecified_text[k] is Some);
            }
            if slot < k {
                assert(caps@.unspecified_text[slot as int] is Some);
            }
        } else {
            if k < 4 {
                assert(caps@.unspecified_text[k] is Some);
            }
        }
    }
    if slot == 4 {
        return;
    }
    let text = monitor_string_from(payload);
    let mut slots = caps.unspecified_text;
    slots[slot] = Some(text);
    caps.unspecified_text = slots;
    assert(caps@.unspecified_text =~= old(caps)@.unspecified_text.update(
        slot as int,
        Some(text_field(payload@)),
    ));
}

// ---------------------------------------------------------------------------------------------
// Display Device Data Block (tag 0x0C)
// ---------------------------------------------------------------------------------------------

/// The model after a Display Device Data Block payload: technology and sub-type (byte 0),
/// operating mode, backlight and data-enable flags (byte 1), native pixels (bytes 2–5, both
/// non-zero), aspect ratio (byte 6), orientation fields (byte 7), sub-pixel layout
/// (byte 8), pixel pitch (bytes 9–10, both non-zero), color depth (byte 11) and response
/// time (byte 12, non-zero), each written only when the payload reaches it.
pub open spec fn display_device_data_decoded(p: Seq<u8>, c: CapabilitiesView) -> CapabilitiesView {
    let c1 = if p.len() >= 1 {
        CapabilitiesView {
            display_technology: Some(DisplayTechnology::spec_from_nibble(p[0] >> 4)),
            display_subtype: Some(p[0] & 0x0F),
            ..c
        }
    } else {
        c
    };
    let c2 = if p.len() >= 2 {
        CapabilitiesView {
            operating_mode: Some(OperatingMode::spec_from_nibble(p[1] & 0x0F)),
            backlight_type: Some(BacklightType::spec_from_bits((p[1] >> 4) & 0x03)),
            data_enable_used: Some((p[1] & 0x40) != 0),
            data_enable_positive: Some((p[1] & 0x80) != 0),
            ..c1
        }
    } else {
        c1
    };
    let c3 = if p.len() >= 6 && le16(p[2], p[3]) != 0 && le16(p[4], p[5]) != 0 {
        CapabilitiesView { native_pixels: Some((le16(p[2], p[3]), le16(p[4], p[5]))), ..c2 }
    } else {
        c2
    };
    let c4 = if p.len() >= 7 {
        CapabilitiesView { panel_aspect_ratio_100: Some(p[6]), ..c3 }
    } else {
        c3
    };
    let c5 = if p.len() >= 8 {
        CapabilitiesView {
            physical_orientation: Some(PhysicalOrientation::spec_from_bits(p[7] & 0x03)),
            rotation_capability: Some(RotationCapability::spec_from_bits((p[7] >> 2) & 0x03)),
            zero_pixel_location: Some(ZeroPixelLocation::spec_from_bits((p[7] >> 4) & 0x03)),
            scan_direction: Some(ScanDirection::spec_from_bits((p[7] >> 6) & 0x03)),
            ..c4
        }
    } else {
        c4
    };
    let c6 = if p.len() >= 9 {
        CapabilitiesView { subpixel_layout: Some(SubpixelLayout::spec_from_byte(p[8])), ..c5 }
    } else {
        c5
    };
    let c7 = if p.len() >= 11 && p[9] != 0 && p[10] != 0 {
        CapabilitiesView { pixel_pitch_hundredths_mm: Some((p[9], p[10])), ..c6 }
    } else {
        c6
    };
    let c8 = if p.len() >= 12 {
        CapabilitiesView { color_bit_depth: depth_from_byte(p[11]), ..c7 }
    } else {
        c7
    };
    if p.len() >= 13 && p[12] != 0 {
        CapabilitiesView { pixel_response_time_ms: Some(p[12]), ..c8 }
    } else {
        c8
    }
}

/// A Display Device Data payload reads its fields from fixed bit positions: the technology
/// from the high nibble of byte 0 and the sub-type from its low nibble; the operating mode
/// from the low nibble of byte 1, the backlight type from its bits 5–4, Data Enable use from
/// its bit 6 and polarity from its bit 7; the native pixel format (width, height) from the
/// little-endian words at bytes 2–3 and 4–5; the aspect ratio code from byte 6; orientation,
/// rotation, zero-pixel location and scan direction from bit pairs 1–0, 3–2, 5–4 and 7–6 of
/// byte 7; and the pixel pitch (horizontal, vertical) from bytes 9 and 10.
pub proof fn lemma_display_device_data_fields(p: Seq<u8>, c: CapabilitiesView)
    ensures
        ({
            let r = display_device_data_decoded(p, c);
            &&& p.len() >= 1 ==> r.display_technology == Some(
                DisplayTechnology::spec_from_nibble(p[0] / 16),
            ) && r.display_subtype == Some(p[0] % 16)
            &&& p.len() >= 2 ==> {
                &&& r.operating_mode == Some(OperatingMode::spec_from_nibble(p[1] % 16))
                &&& r.backlight_type == Some(BacklightType::spec_from_bits((p[1] / 16) % 4))
                &&& r.data_enable_used == Some((p[1] / 64) % 2 == 1)
                &&& r.data_enable_positive == Some(p[1] >= 128)
            }
            &&& p.len() >= 6 && p[2] + 256 * p[3] != 0 && p[4] + 256 * p[5] != 0
                ==> r.native_pixels == Some(((p[2] + 256 * p[3]) as u16, (p[4] + 256 * p[5]) as u16))
            &&& p.len() >= 7 ==> r.panel_aspect_ratio_100 == Some(p[6])
            &&& p.len() >= 8 ==> {
                &&& r.physical_orientation == Some(PhysicalOrientation::spec_from_bits(p[7] % 4))
                &&& r.rotation_capability == Some(RotationCapability::spec_from_bits((p[7] / 4) % 4))
                &&& r.zero_pixel_location == Some(ZeroPixelLocation::spec_from_bits((p[7] / 16) % 4))
                &&& r.scan_direction == Some(ScanDirection::spec_from_bits(p[7] / 64))
            }
            &&& p.len() >= 11 && p[9] != 0 && p[10] != 0 ==> r.pixel_pitch_hundredths_mm == Some(
                (p[9], p[10]),
            )
        }),
{
    if p.len() >= 1 {
        let b0 = p[0];
        assert(b0 >> 4 == b0 / 16 && b0 & 0x0F == b0 % 16) by (bit_vector);
    }
    if p.len() >= 2 {
        let b1 = p[1];
        assert({
            &&& b1 & 0x0F == b1 % 16
            &&& (b1 >> 4) & 0x03 == (b1 / 16) % 4
            &&& ((b1 & 0x40) != 0) == ((b1 / 64) % 2 == 1)
            &&& ((b1 & 0x80) != 0) == (b1 >= 128)
        }) by (bit_vector);
    }
    if p.len() >= 6 {
        lemma_le16_parts(p[2], p[3]);
        lemma_le16_parts(p[4], p[5]);
    }
    if p.len() >= 8 {
        let b7 = p[7];
        assert({
            &&& b7 & 0x03 == b7 % 4
            &&& (b7 >> 2) & 0x03 == (b7 / 4) % 4
            &&& (b7 >> 4) & 0x03 == (b7 / 16) % 4
            &&& (b7 >> 6) & 0x03 == b7 / 64
        }) by (bit_vector);
    }
}

/// Decodes a Display Device Data Block payload into `caps`.
pub fn decode_display_device_data_block(payload: &[u8], caps: &mut DisplayCapabilities)
    ensures
        final(caps)@ == display_device_data_decoded(payload@, old(caps)@),
{
    let len = payload.len();
    if len >= 1 {
        caps.display_technology = Some(DisplayTechnology::from_nibble(payload[0] >> 4));
        caps.display_subtype = Some(payload[0] & 0x0F);
    }
    if len >= 2 {
        caps.operating_mode = Some(OperatingMode::from_nibble(payload[1] & 0x0F));
        caps.backlight_type = Some(BacklightType::from_bits((payload[1] >> 4) & 0x03));
        caps.data_enable_used = Some((payload[1] & 0x40) != 0);
        caps.data_enable_positive = Some((payload[1] & 0x80) != 0);
    }
    if len >= 6 {
        let h = read_le16(payload[2], payload[3]);
        let v = read_le16(payload[4], payload[5]);
        if h != 0 && v != 0 {
            caps.native_pixels = Some((h, v));
        }
    }
    if len >= 7 {
        caps.panel_aspect_ratio_100 = Some(payload[6]);
    }
    if len >= 8 {
        caps.physical_orientation = Some(PhysicalOrientation::from_bits(payload[7] & 0x03));
        caps.rotation_capability = Some(RotationCapability::from_bits((payload[7] >> 2) & 0x03));
        caps.zero_pixel_location = Some(ZeroPixelLocation::from_bits((payload[7] >> 4) & 0x03));
        caps.scan_direction = Some(ScanDirection::from_bits((payload[7] >> 6) & 0x03));
    }
    if len >= 9 {
        caps.subpixel_layout = Some(SubpixelLayout::from_byte(payload[8]));
    }
    if len >= 11 {
        let h_pitch = payload[9];
        let v_pitch = payload[10];
        if h_pitch != 0 && v_pitch != 0 {
            caps.pixel_pitch_hundredths_mm = Some((h_pitch, v_pitch));
        }
    }
    if len >= 12 {
        caps.color_bit_depth = decode_depth_byte(payload[11]);
    }
    if len >= 13 {
        let rt = payload[12];
        if rt != 0 {
            caps.pixel_response_time_ms = Some(rt);
        }
    }
}

// ---------------------------------------------------------------------------------------------
// Interface Power Sequencing Block (tag 0x0D)
// ---------------------------------------------------------------------------------------------

/// The model after an Interface Power Sequencing Block payload: T1–T6 from bytes 0–5; a
/// payload shorter than 6 bytes changes nothing.
pub open spec fn power_sequencing_decoded(p: Seq<u8>, c: CapabilitiesView) -> CapabilitiesView {
    if p.len() >= 6 {
        CapabilitiesView {
            power_sequencing: Some(
                PowerSequencing {
                    t1_power_to_signal: p[0],
                    t2_signal_to_backlight: p[1],
                    t3_backlight_to_signal_off: p[2],
                    t4_signal_to_power_off: p[3],
                    t5_power_off_min: p[4],
                    t6_backlight_off_min: p[5],
                },
            ),
            ..c
        }
    } else {
        c
    }
}

/// An Interface Power Sequencing payload of at least 6 bytes gives the six delays T1 to T6
/// in byte order: power on to signal, signal to backlight, backlight off to signal off,
/// signal off to power off, minimum power off and minimum backlight off.
pub proof fn lemma_power_sequencing_fields(p: Seq<u8>, c: CapabilitiesView)
    ensures
        p.len() >= 6 ==> (power_sequencing_decoded(p, c).power_sequencing matches Some(s) && {
            &&& s.t1_power_to_signal == p[0]
            &&& s.t2_signal_to_backlight == p[1]
            &&& s.t3_backlight_to_signal_off == p[2]
            &&& s.t4_signal_to_power_off == p[3]
            &&& s.t5_power_off_min == p[4]
            &&& s.t6_backlight_off_min == p[5]
        }),
        p.len() < 6 ==> power_sequencing_decoded(p, c) == c,
{
}

/// Decodes an Interface Power Sequencing Block payload into `caps`.
pub fn decode_power_sequencing_block(payload: &[u8], caps: &mut DisplayCapabilities)
    ensures
        final(caps)@ == power_sequencing_decoded(payload@, old(caps)@),
{
    if payload.len() >= 6 {
        caps.power_sequencing = Some(
            PowerSequencing {
                t1_power_to_signal: payload[0],
                t2_signal_to_backlight: payload[1],
                t3_backlight_to_signal_off: payload[2],
                t4_signal_to_power_off: payload[3],
                t5_power_off_min: payload[4],
                t6_backlight_off_min: payload[5],
            },
        );
    }
}

// ---------------------------------------------------------------------------------------------
// Display Interface Data Block (tag 0x0F)
// ---------------------------------------------------------------------------------------------

/// The model after a Display Interface Data Block payload; a payload shorter than 7 bytes
/// changes nothing.
pub open spec fn display_interface_decoded(p: Seq<u8>, c: CapabilitiesView) -> CapabilitiesView {
    if p.len() < 7 {
        c
    } else {
        CapabilitiesView {
            display_id_interface: Some(
                DisplayIdInterface {
                    interface_type: DisplayInterfaceType::spec_from_nibble(p[0]),
                    spread_spectrum: (p[0] & 0x10) != 0,
                    num_lanes: p[1] & 0x0F,
                    min_pixel_clock_10khz: le16(p[2], p[3]) as u32,
                    max_pixel_clock_10khz: le16(p[4], p[5]) as u32,
                    content_protection: InterfaceContentProtection::spec_from_bits(p[6]),
                },
            ),
            ..c
        }
    }
}

/// The bit fields of a byte in arithmetic: bit `k` is set exactly when `b / 2^k` is odd,
/// the low `k` bits are `b % 2^k`, and the bits from `k` up are `b / 2^k`.
pub proof fn lemma_byte_bits(b: u8)
    ensures
        (b & 0x01 != 0) == (b % 2 == 1),
        (b & 0x02 != 0) == ((b / 2) % 2 == 1),
        (b & 0x04 != 0) == ((b / 4) % 2 == 1),
        (b & 0x08 != 0) == ((b / 8) % 2 == 1),
        (b & 0x10 != 0) == ((b / 16) % 2 == 1),
        (b & 0x20 != 0) == ((b / 32) % 2 == 1),
        (b & 0x40 != 0) == ((b / 64) % 2 == 1),
        (b & 0x80 != 0) == (b >= 128),
        b & 0x03 == b % 4,
        b & 0x07 == b % 8,
        b & 0x0F == b % 16,
        b & 0x1F == b % 32,
        b & 0x3F == b % 64,
        b & 0x7F == b % 128,
        b >> 4 == b / 16,
        (b >> 4) & 0x03 == (b / 16) % 4,
        (b >> 4) & 0x07 == (b / 16) % 8,
        b >> 5 == b / 32,
        b >> 6 == b / 64,
        b >> 7 == b / 128,
        ((b >> 3) & 1 != 0) == ((b / 8) % 2 == 1),
        ((b >> 6) & 1 != 0) == ((b / 64) % 2 == 1),
        ((b >> 7) & 1 != 0) == (b >= 128),
        b & 0xF8 == b - b % 8,
        b & 0xF0 == b - b % 16,
        (b >> 6) & 0x03 == b / 64,
        ((b >> 4) & 1 != 0) == ((b / 16) % 2 == 1),
{
    assert({
        &&& (b & 0x01 != 0) == (b % 2 == 1)
        &&& (b & 0x02 != 0) == ((b / 2) % 2 == 1)
        &&& (b & 0x04 != 0) == ((b / 4) % 2 == 1)
        &&& (b & 0x08 != 0) == ((b / 8) % 2 == 1)
        &&& (b & 0x10 != 0) == ((b / 16) % 2 == 1)
        &&& (b & 0x20 != 0) == ((b / 32) % 2 == 1)
        &&& (b & 0x40 != 0) == ((b / 64) % 2 == 1)
        &&& (b & 0x80 != 0) == (b >= 128)
        &&& b & 0x03 == b % 4
        &&& b & 0x07 == b % 8
        &&& b & 0x0F == b % 16
        &&& b & 0x1F == b % 32
        &&& b & 0x3F == b % 64
        &&& b & 0x7F == b % 128
        &&& b >> 4 == b / 16
        &&& (b >> 4) & 0x03 == (b / 16) % 4
        &&& (b >> 4) & 0x07 == (b / 16) % 8
        &&& b >> 5 == b / 32
        &&& b >> 6 == b / 64
        &&& b >> 7 == b / 128
        &&& ((b >> 3) & 1 != 0) == ((b / 8) % 2 == 1)
        &&& ((b >> 6) & 1 != 0) == ((b / 64) % 2 == 1)
        &&& ((b >> 7) & 1 != 0) == (b >= 128)
        &&& b & 0xF8 == b - b % 8
        &&& b & 0xF0 == b - b % 16
        &&& (b >> 6) & 0x03 == b / 64
        &&& ((b >> 4) & 1 != 0) == ((b / 16) % 2 == 1)
    }) by (bit_vector);
}

/// A Display Interface payload of at least 7 bytes sets the DisplayID interface and nothing
/// else: the interface type is named by the low nibble of byte 0 and spread spectrum is bit
/// 4 of byte 0; the lane count is the low nibble of byte 1; the minimum and maximum pixel
/// clocks, in 10 kHz, are the little-endian words at bytes 2–3 and 4–5; the content
/// protection is named by bits 1–0 of byte 6. A shorter payload changes nothing.
pub proof fn lemma_display_interface_fields(p: Seq<u8>, c: CapabilitiesView)
    ensures
        p.len() < 7 ==> display_interface_decoded(p, c) == c,
        p.len() >= 7 ==> (display_interface_decoded(p, c).display_id_interface matches Some(i) && {
            &&& i.interface_type == DisplayInterfaceType::spec_from_nibble(p[0] % 16)
            &&& i.spread_spectrum == ((p[0] / 16) % 2 == 1)
            &&& i.num_lanes == p[1] % 16
            &&& i.min_pixel_clock_10khz == p[2] + 256 * p[3]
            &&& i.max_pixel_clock_10khz == p[4] + 256 * p[5]
            &&& i.content_protection == InterfaceContentProtection::spec_from_bits(p[6] % 4)
        }),
        p.len() >= 7 ==> display_interface_decoded(p, c) == (CapabilitiesView {
            display_id_interface: display_interface_decoded(p, c).display_id_interface,
            ..c
        }),
{
    if p.len() >= 7 {
        assert(DisplayInterfaceType::spec_from_nibble(p[0]) == DisplayInterfaceType::spec_from_nibble(
            p[0] % 16,
        ) && ((p[0] & 0x10) != 0) == ((p[0] / 16) % 2 == 1)) by {
            lemma_byte_bits(p[0]);
            lemma_byte_bits(p[0] % 16);
        }
        assert(p[1] & 0x0F == p[1] % 16) by {
            lemma_byte_bits(p[1]);
        }
        assert(InterfaceContentProtection::spec_from_bits(p[6])
            == InterfaceContentProtection::spec_from_bits(p[6] % 4)) by {
            lemma_byte_bits(p[6]);
            lemma_byte_bits(p[6] % 4);
        }
        lemma_le16_parts(p[2], p[3]);
        lemma_le16_parts(p[4], p[5]);
    }
}

/// Decodes a Display Interface Data Block payload into `caps`.
pub fn decode_display_interface_block(payload: &[u8], caps: &mut DisplayCapabilities)
    ensures
        final(caps)@ == display_interface_decoded(payload@, old(caps)@),
{
    if payload.len() < 7 {
        return;
    }
    let interface_type = DisplayInterfaceType::from_nibble(payload[0]);
    let spread_spectrum = (payload[0] & 0x10) != 0;
    let num_lanes = payload[1] & 0x0F;
    let min_pixel_clock_10khz = read_le16(payload[2], payload[3]) as u32;
    let max_pixel_clock_10khz = read_le16(payload[4], payload[5]) as u32;
    let content_protection = InterfaceContentProtection::from_bits(payload[6]);
    caps.display_id_interface = Some(
        DisplayIdInterface {
            interface_type,
            spread_spectrum,
            num_lanes,
            min_pixel_clock_10khz,
            max_pixel_clock_10khz,
            content_protection,
        },
    );
}

// ---------------------------------------------------------------------------------------------
// Stereo Display Interface Data Block (tag 0x10)
// ---------------------------------------------------------------------------------------------

/// The model after a Stereo Display Interface Data Block payload; a payload shorter than
/// 2 bytes changes nothing.
pub open spec fn stereo_display_interface_decoded(p: Seq<u8>, c: CapabilitiesView) -> CapabilitiesView {
    if p.len() < 2 {
        c
    } else {
        CapabilitiesView {
            stereo_interface: Some(
                DisplayIdStereoInterface {
                    viewing_mode: StereoViewingMode::spec_from_nibble(p[0]),
                    sync_polarity_positive: (p[0] & 0x10) != 0,
                    sync_interface: StereoSyncInterface::spec_from_byte(p[1]),
                },
            ),
            ..c
        }
    }
}

/// A Stereo Display Interface payload of at least 2 bytes sets the stereo interface and
/// nothing else: the viewing mode is named by the low nibble of byte 0, the sync polarity
/// is positive exactly when bit 4 of byte 0 is set, and the sync interface is named by byte
/// 1. A shorter payload changes nothing.
pub proof fn lemma_stereo_interface_fields(p: Seq<u8>, c: CapabilitiesView)
    ensures
        p.len() < 2 ==> stereo_display_interface_decoded(p, c) == c,
        p.len() >= 2 ==> (stereo_display_interface_decoded(p, c).stereo_interface matches Some(i)
            && {
            &&& i.viewing_mode == StereoViewingMode::spec_from_nibble(p[0] % 16)
            &&& i.sync_polarity_positive == ((p[0] / 16) % 2 == 1)
            &&& i.sync_interface == StereoSyncInterface::spec_from_byte(p[1])
        }),
        p.len() >= 2 ==> stereo_display_interface_decoded(p, c) == (CapabilitiesView {
            stereo_interface: stereo_display_interface_decoded(p, c).stereo_interface,
            ..c
        }),
{
    if p.len() >= 2 {
        assert(StereoViewingMode::spec_from_nibble(p[0]) == StereoViewingMode::spec_from_nibble(
            p[0] % 16,
        ) && ((p[0] & 0x10) != 0) == ((p[0] / 16) % 2 == 1)) by {
            lemma_byte_bits(p[0]);
            lemma_byte_bits(p[0] % 16);
        }
    }
}

/// Decodes a Stereo Display Interface Data Block payload into `caps`.
pub fn decode_stereo_display_interface_block(payload: &[u8], caps: &mut DisplayCapabilities)
    ensures
        final(caps)@ == stereo_display_interface_decoded(payload@, old(caps)@),
{
    if payload.len() < 2 {
        return;
    }
    caps.stereo_interface = Some(
        DisplayIdStereoInterface {
            viewing_mode: StereoViewingMode::from_nibble(payload[0]),
            sync_polarity_positive: (payload[0] & 0x10) != 0,
            sync_interface: StereoSyncInterface::from_byte(payload[1]),
        },
    );
}

// ---------------------------------------------------------------------------------------------
// Tiled Display Topology Data Block (tag 0x12)
// ---------------------------------------------------------------------------------------------

/// The tiled topology of a payload of at least 7 bytes; bezel sizes (bytes 7–10) are read
/// when byte 0 bit 6 is set and the payload has 11 bytes.
pub open spec fn tiled_topology_of(p: Seq<u8>) -> DisplayIdTiledTopology {
    DisplayIdTiledTopology {
        single_enclosure: (p[0] & 0x80) != 0,
        topology_behavior: TileTopologyBehavior::spec_from_bits((p[0] >> 4) & 0x03),
        h_tile_count: ((p[1] >> 4) + 1) as u8,
        v_tile_count: ((p[1] & 0x0F) + 1) as u8,
        h_tile_location: p[2] >> 4,
        v_tile_location: p[2] & 0x0F,
        tile_width_px: le16(p[3], p[4]),
        tile_height_px: le16(p[5], p[6]),
        bezel: if (p[0] & 0x40) != 0 && p.len() >= 11 {
            Some(TileBezelInfo { top_px: p[7], bottom_px: p[8], right_px: p[9], left_px: p[10] })
        } else {
            None
        },
    }
}

/// The model after a Tiled Display Topology Data Block payload; a payload shorter than
/// 7 bytes changes nothing.
pub open spec fn tiled_topology_decoded(p: Seq<u8>, c: CapabilitiesView) -> CapabilitiesView {
    if p.len() < 7 {
        c
    } else {
        CapabilitiesView { tiled_topology: Some(tiled_topology_of(p)), ..c }
    }
}

/// A Tiled Display Topology payload of at least 7 bytes sets the tiled topology and nothing
/// else: single enclosure from byte 0 bit 7; horizontal and vertical tile counts from the
/// high and low nibbles of byte 1 plus one; the tile's location from the high and low
/// nibbles of byte 2; tile width and height from the little-endian words at bytes 3–4 and
/// 5–6; the topology behavior from byte 0 bits 5–4; and, when byte 0 bit 6 is set and the payload has 11 bytes, the top, bottom, right
/// and left bezels from bytes 7, 8, 9 and 10. A shorter payload changes nothing.
pub proof fn lemma_tiled_topology_fields(p: Seq<u8>, c: CapabilitiesView)
    ensures
        p.len() < 7 ==> tiled_topology_decoded(p, c) == c,
        p.len() >= 7 ==> (tiled_topology_decoded(p, c).tiled_topology matches Some(t) && {
            &&& t.single_enclosure == (p[0] >= 128)
            &&& t.topology_behavior == TileTopologyBehavior::spec_from_bits(p[0] / 16)
            &&& t.h_tile_count == p[1] / 16 + 1
            &&& t.v_tile_count == p[1] % 16 + 1
            &&& t.h_tile_location == p[2] / 16
            &&& t.v_tile_location == p[2] % 16
            &&& t.tile_width_px == p[3] + 256 * p[4]
            &&& t.tile_height_px == p[5] + 256 * p[6]
            &&& t.bezel == (if (p[0] / 64) % 2 == 1 && p.len() >= 11 {
                Some(TileBezelInfo { top_px: p[7], bottom_px: p[8], right_px: p[9], left_px: p[10] })
            } else {
                None
            })
        }),
        p.len() >= 7 ==> tiled_topology_decoded(p, c) == (CapabilitiesView {
            tiled_topology: tiled_topology_decoded(p, c).tiled_topology,
            ..c
        }),
{
    if p.len() >= 7 {
        let (b0, b1, b2) = (p[0], p[1], p[2]);
        assert({
            &&& ((b0 & 0x80) != 0) == (b0 >= 128)
            &&& ((b0 & 0x40) != 0) == ((b0 / 64) % 2 == 1)
            &&& (b0 >> 4) & 0x03 == (b0 / 16) % 4
            &&& b1 >> 4 == b1 / 16 && b1 & 0x0F == b1 % 16
            &&& b2 >> 4 == b2 / 16 && b2 & 0x0F == b2 % 16
        }) by (bit_vector);
        lemma_le16_parts(p[3], p[4]);
        lemma_le16_parts(p[5], p[6]);
        TileTopologyBehavior::lemma_codes((b0 >> 4) & 0x03);
        TileTopologyBehavior::lemma_codes(b0 / 16);
    }
}

/// Decodes a Tiled Display Topology Data Block payload into `caps`.
pub fn decode_tiled_topology_block(payload: &[u8], caps: &mut DisplayCapabilities)
    ensures
        final(caps)@ == tiled_topology_decoded(payload@, old(caps)@),
{
    let len = payload.len();
    if len < 7 {
        return;
    }
    let single_enclosure = (payload[0] & 0x80) != 0;
    let has_bezel_info = (payload[0] & 0x40) != 0;
    let topology_behavior = TileTopologyBehavior::from_bits((payload[0] >> 4) & 0x03);
    let b1 = payload[1];
    assert(b1 >> 4 <= 15) by (bit_vector);
    assert(b1 & 0x0F <= 15) by (bit_vector);
    let h_tile_count = (b1 >> 4) + 1;
    let v_tile_count = (b1 & 0x0F) + 1;
    let h_tile_location = payload[2] >> 4;
    let v_tile_location = payload[2] & 0x0F;
    let tile_width_px = read_le16(payload[3], payload[4]);
    let tile_height_px = read_le16(payload[5], payload[6]);
    let bezel = if has_bezel_info && len >= 11 {
        Some(
            TileBezelInfo {
                top_px: payload[7],
                bottom_px: payload[8],
                right_px: payload[9],
                left_px: payload[10],
            },
        )
    } else {
        None
    };
    caps.tiled_topology = Some(
        DisplayIdTiledTopology {
            single_enclosure,
            topology_behavior,
            h_tile_count,
            v_tile_count,
            h_tile_location,
            v_tile_location,
            tile_width_px,
            tile_height_px,
            bezel,
        },
    );
}

// ---------------------------------------------------------------------------------------------
// Transfer Characteristics Block (tag 0x0E)
// ---------------------------------------------------------------------------------------------

/// The encoding that bits 7:6 of the first payload byte name (`0b11` is reserved).
pub open spec fn encoding_of(bits: u8) -> TransferPointEncoding {
    if bits == 0 {
        TransferPointEncoding::Bits8
    } else if bits == 1 {
        TransferPointEncoding::Bits10
    } else {
        TransferPointEncoding::Bits12
    }
}

/// 8-bit samples: one per byte.
pub open spec fn unpack8(src: Seq<u8>) -> Seq<u16> {
    Seq::new(src.len(), |i: int| src[i] as u16)
}

/// The four 10-bit samples packed MSB-first into the five bytes at offset `o`.
pub open spec fn group10(src: Seq<u8>, o: int) -> Seq<u16> {
    let b0 = src[o] as u16;
    let b1 = src[o + 1] as u16;
    let b2 = src[o + 2] as u16;
    let b3 = src[o + 3] as u16;
    let b4 = src[o + 4] as u16;
    seq![
        (b0 << 2) | (b1 >> 6),
        ((b1 & 0x3F) << 4) | (b2 >> 4),
        ((b2 & 0x0F) << 6) | (b3 >> 2),
        ((b3 & 0x03) << 8) | b4,
    ]
}

/// Five bytes hold four 10-bit samples and three bytes two 12-bit samples, each a
/// big-endian bit field read from the most significant bit of the first byte on; so the
/// four 10-bit samples, weighted by 2^30, 2^20, 2^10 and 1, add up to the five bytes read as
/// one 40-bit big-endian number, and the two 12-bit samples, weighted by 2^12 and 1, to the
/// three bytes read as one 24-bit number.
pub proof fn lemma_sample_groups(src: Seq<u8>, o: int)
    ensures
        0 <= o && o + 5 <= src.len() ==> {
            let (b0, b1, b2, b3, b4) = (src[o], src[o + 1], src[o + 2], src[o + 3], src[o + 4]);
            let g = group10(src, o);
            &&& g.len() == 4
            &&& g[0] == 4 * b0 + b1 / 64
            &&& g[1] == 16 * (b1 % 64) + b2 / 16
            &&& g[2] == 64 * (b2 % 16) + b3 / 4
            &&& g[3] == 256 * (b3 % 4) + b4
            &&& g[0] * 0x4000_0000 + g[1] * 0x10_0000 + g[2] * 0x400 + g[3] == b0 * 0x1_0000_0000
                + b1 * 0x100_0000 + b2 * 0x1_0000 + b3 * 0x100 + b4
        },
        0 <= o && o + 3 <= src.len() ==> {
            let (b0, b1, b2) = (src[o], src[o + 1], src[o + 2]);
            let g = group12(src, o);
            &&& g.len() == 2
            &&& g[0] == 16 * b0 + b1 / 16
            &&& g[1] == 256 * (b1 % 16) + b2
            &&& g[0] * 0x1000 + g[1] == b0 * 0x1_0000 + b1 * 0x100 + b2
        },
{
    if 0 <= o && o + 3 <= src.len() {
        lemma_le16_parts(src[o], src[o + 1]);
        lemma_le16_parts(src[o + 1], src[o + 2]);
        if o + 5 <= src.len() {
            lemma_le16_parts(src[o + 2], src[o + 3]);
            lemma_le16_parts(src[o + 3], src[o + 4]);
        }
        let (b1, b2, b3) = (src[o + 1] as int, src[o + 2] as int, src[o + 3] as int);
        assert(b1 == 64 * (b1 / 64) + b1 % 64 && b2 == 16 * (b2 / 16) + b2 % 16 && b3 == 4 * (b3
            / 4) + b3 % 4 && b1 == 16 * (b1 / 16) + b1 % 16);
    }
}

/// The samples of the first `g` five-byte groups.
pub open spec fn unpack10_groups(src: Seq<u8>, g: int) -> Seq<u16>
    decreases g,
{
    if g <= 0 {
        Seq::empty()
    } else {
        unpack10_groups(src, g - 1) + group10(src, 5 * (g - 1))
    }
}

/// 10-bit samples: four per complete five-byte group; trailing bytes are ignored.
pub open spec fn unpack10(src: Seq<u8>) -> Seq<u16> {
    unpack10_groups(src, src.len() as int / 5)
}

/// The two 12-bit samples packed MSB-first into the three bytes at offset `o`.
pub open spec fn group12(src: Seq<u8>, o: int) -> Seq<u16> {
    let b0 = src[o] as u16;
    let b1 = src[o + 1] as u16;
    let b2 = src[o + 2] as u16;
    seq![(b0 << 4) | (b1 >> 4), ((b1 & 0x0F) << 8) | b2]
}

/// The samples of the first `g` three-byte groups.
pub open spec fn unpack12_groups(src: Seq<u8>, g: int) -> Seq<u16>
    decreases g,
{
    if g <= 0 {
        Seq::empty()
    } else {
        unpack12_groups(src, g - 1) + group12(src, 3 * (g - 1))
    }
}

/// 12-bit samples: two per complete three-byte group; trailing bytes are ignored.
pub open spec fn unpack12(src: Seq<u8>) -> Seq<u16> {
    unpack12_groups(src, src.len() as int / 3)
}

/// The samples of `src` in the given encoding.
pub open spec fn unpack_samples(enc: TransferPointEncoding, src: Seq<u8>) -> Seq<u16> {
    match enc {
        TransferPointEncoding::Bits8 => unpack8(src),
        TransferPointEncoding::Bits10 => unpack10(src),
        TransferPointEncoding::Bits12 => unpack12(src),
    }
}

/// The model after a Transfer Characteristics Block payload.
///
/// Byte 0 bits 7:6 give the encoding; the reserved `0b11` adds an
/// `UnknownTransferEncoding` warning and nothing else. With byte 0 bit 5 set the sample
/// bytes (bytes 1+) are three equal regions, red, green and blue, and a byte count not
/// divisible by three changes nothing; otherwise they hold one luminance curve. A payload
/// shorter than 2 bytes changes nothing.
pub open spec fn transfer_characteristics_decoded(p: Seq<u8>, c: CapabilitiesView) -> CapabilitiesView {
    if p.len() < 2 {
        c
    } else {
        let bits = (p[0] >> 6) & 0x03;
        if bits == 3 {
            CapabilitiesView {
                warnings: c.warnings.push(EdidWarning::UnknownTransferEncoding(bits)),
                ..c
            }
        } else {
            let enc = encoding_of(bits);
            let data = p.subrange(1, p.len() as int);
            if (p[0] & 0x20) != 0 {
                if data.len() % 3 != 0 {
                    c
                } else {
                    let region = data.len() as int / 3;
                    CapabilitiesView {
                        transfer_characteristic: Some(
                            TransferCharacteristicView {
                                encoding: enc,
                                curve: TransferCurveView::Rgb {
                                    red: unpack_samples(enc, data.subrange(0, region)),
                                    green: unpack_samples(enc, data.subrange(region, 2 * region)),
                                    blue: unpack_samples(enc, data.subrange(2 * region, 3 * region)),
                                },
                            },
                        ),
                        ..c
                    }
                }
            } else {
                CapabilitiesView {
                    transfer_characteristic: Some(
                        TransferCharacteristicView {
                            encoding: enc,
                            curve: TransferCurveView::Luminance(unpack_samples(enc, data)),
                        },
                    ),
                    ..c
                }
            }
        }
    }
}

/// A Transfer Characteristics payload of at least 2 bytes: bits 7–6 of byte 0 select 8-,
/// 10- or 12-bit samples for codes 0, 1 and 2, and code 3 only adds an
/// `UnknownTransferEncoding(3)` warning. Otherwise the samples follow byte 0: with bit 5 of
/// byte 0 set they form three equal red, green and blue curves (a sample area whose length
/// is not a multiple of three changes nothing), and with it clear one luminance curve. No
/// other field changes; a shorter payload changes nothing.
pub proof fn lemma_transfer_fields(p: Seq<u8>, c: CapabilitiesView)
    ensures
        p.len() < 2 ==> transfer_characteristics_decoded(p, c) == c,
        p.len() >= 2 && p[0] / 64 == 3 ==> transfer_characteristics_decoded(p, c) == (
        CapabilitiesView { warnings: c.warnings.push(EdidWarning::UnknownTransferEncoding(3)), ..c }),
        p.len() >= 2 && p[0] / 64 < 3 ==> {
            let r = transfer_characteristics_decoded(p, c);
            let enc = if p[0] / 64 == 0 {
                TransferPointEncoding::Bits8
            } else if p[0] / 64 == 1 {
                TransferPointEncoding::Bits10
            } else {
                TransferPointEncoding::Bits12
            };
            let data = p.subrange(1, p.len() as int);
            let n = data.len() as int / 3;
            &&& ((p[0] / 32) % 2 == 1 && data.len() % 3 != 0) ==> r == c
            &&& ((p[0] / 32) % 2 == 1 && data.len() % 3 == 0) ==> r == (CapabilitiesView {
                transfer_characteristic: Some(
                    TransferCharacteristicView {
                        encoding: enc,
                        curve: TransferCurveView::Rgb {
                            red: unpack_samples(enc, data.subrange(0, n)),
                            green: unpack_samples(enc, data.subrange(n, 2 * n)),
                            blue: unpack_samples(enc, data.subrange(2 * n, 3 * n)),
                        },
                    },
                ),
                ..c
            })
            &&& (p[0] / 32) % 2 == 0 ==> r == (CapabilitiesView {
                transfer_characteristic: Some(
                    TransferCharacteristicView {
                        encoding: enc,
                        curve: TransferCurveView::Luminance(unpack_samples(enc, data)),
                    },
                ),
                ..c
            })
        },
{
    if p.len() >= 2 {
        lemma_byte_bits(p[0]);
    }
}

fn unpack8_exec(src: &[u8]) -> (r: Vec<u16>)
    ensures
        r@ == unpack8(src@),
{
    let mut pts: Vec<u16> = Vec::new();
    let mut i: usize = 0;
    while i < src.len()
        invariant
            i <= src@.len(),
            pts@ == unpack8(src@).take(i as int),
        decreases src@.len() - i,
    {
        pts.push(src[i] as u16);
        i = i + 1;
        assert(pts@ =~= unpack8(src@).take(i as int));
    }
    assert(unpack8(src@).take(i as int) =~= unpack8(src@));
    pts
}

fn unpack10_exec(src: &[u8]) -> (r: Vec<u16>)
    ensures
        r@ == unpack10(src@),
{
    let len = src.len();
    let mut pts: Vec<u16> = Vec::new();
    let mut i: usize = 0;
    let mut g: usize = 0;
    while len - i >= 5
        invariant
            len == src@.len(),
            i == 5 * g,
            i <= len,
            pts@ == unpack10_groups(src@, g as int),
        decreases len - i,
    {
        let b0 = src[i] as u16;
        let b1 = src[i + 1] as u16;
        let b2 = src[i + 2] as u16;
        let b3 = src[i + 3] as u16;
        let b4 = src[i + 4] as u16;
        pts.push((b0 << 2) | (b1 >> 6));
        pts.push(((b1 & 0x3F) << 4) | (b2 >> 4));
        pts.push(((b2 & 0x0F) << 6) | (b3 >> 2));
        pts.push(((b3 & 0x03) << 8) | b4);
        assert(pts@ =~= unpack10_groups(src@, g + 1));
        i = i + 5;
        g = g + 1;
    }
    assert(g == len / 5);
    pts
}

fn unpack12_exec(src: &[u8]) -> (r: Vec<u16>)
    ensures
        r@ == unpack12(src@),
{
    let len = src.len();
    let mut pts: Vec<u16> = Vec::new();
    let mut i: usize = 0;
    let mut g: usize = 0;
    while len - i >= 3
        invariant
            len == src@.len(),
            i == 3 * g,
            i <= len,
            pts@ == unpack12_groups(src@, g as int),
        decreases len - i,
    {
        let b0 = src[i] as u16;
        let b1 = src[i + 1] as u16;
        let b2 = src[i + 2] as u16;
        pts.push((b0 << 4) | (b1 >> 4));
        pts.push(((b1 & 0x0F) << 8) | b2);
        assert(pts@ =~= unpack12_groups(src@, g + 1));
        i = i + 3;
        g = g + 1;
    }
    assert(g == len / 3);
    pts
}

fn unpack_exec(enc: TransferPointEncoding, src: &[u8]) -> (r: Vec<u16>)
    ensures
        r@ == unpack_samples(enc, src@),
{
    match enc {
        TransferPointEncoding::Bits8 => unpack8_exec(src),
        TransferPointEncoding::Bits10 => unpack10_exec(src),
        TransferPointEncoding::Bits12 => unpack12_exec(src),
    }
}

/// Decodes a Transfer Characteristics Block payload into `caps.transfer_characteristic`
/// (a reserved encoding adds a warning to `caps.warnings` instead).
pub fn decode_transfer_characteristics_block(payload: &[u8], caps: &mut DisplayCapabilities)
    ensures
        final(caps)@ == transfer_characteristics_decoded(payload@, old(caps)@),
{
    let len = payload.len();
    if len < 2 {
        return;
    }
    let b0 = payload[0];
    let bits = (b0 >> 6) & 0x03;
    assert(bits <= 3) by (bit_vector)
        requires
            bits == (b0 >> 6) & 0x03,
    ;
    let encoding = match bits {
        0 => TransferPointEncoding::Bits8,
        1 => TransferPointEncoding::Bits10,
        2 => TransferPointEncoding::Bits12,
        _ => {
            caps.warnings.push(EdidWarning::UnknownTransferEncoding(bits));
            return;
        },
    };
    let multi_channel = (payload[0] & 0x20) != 0;
    let data = &payload[1..len];
    let curve = if multi_channel {
        let total = data.len();
        if total % 3 != 0 {
            return;
        }
        let region = total / 3;
        let r_data = &data[0..region];
        let g_data = &data[region..2 * region];
        let b_data = &data[2 * region..3 * region];
        TransferCurve::Rgb {
            red: unpack_exec(encoding, r_data),
            green: unpack_exec(encoding, g_data),
            blue: unpack_exec(encoding, b_data),
        }
    } else {
        TransferCurve::Luminance(unpack_exec(encoding, data))
    };
    caps.transfer_characteristic = Some(DisplayIdTransferCharacteristic { encoding, curve });
}

// ---------------------------------------------------------------------------------------------
// Dispatch over the data blocks of a section
// ---------------------------------------------------------------------------------------------

/// The model after one DisplayID 1.x metadata data block with `tag` and payload `p`; tags
/// that carry no metadata change nothing.
pub open spec fn block_decoded(tag: u8, p: Seq<u8>, c: CapabilitiesView) -> CapabilitiesView {
    if tag == TAG_PRODUCT_ID {
        product_id_decoded(p, c)
    } else if tag == TAG_DISPLAY_PARAMS {
        display_params_decoded(p, c)
    } else if tag == TAG_COLOR_CHARACTERISTICS {
        color_characteristics_decoded(p, c)
    } else if tag == TAG_VIDEO_TIMING_RANGE {
        video_timing_range_decoded(p, c)
    } else if tag == TAG_SERIAL_NUMBER {
        serial_number_decoded(p, c)
    } else if tag == TAG_ASCII_STRING {
        ascii_string_decoded(p, c)
    } else if tag == TAG_DISPLAY_DEVICE_DATA {
        display_device_data_decoded(p, c)
    } else if tag == TAG_POWER_SEQUENCING {
        power_sequencing_decoded(p, c)
    } else if tag == TAG_TRANSFER_CHARACTERISTICS {
        transfer_characteristics_decoded(p, c)
    } else if tag == TAG_DISPLAY_INTERFACE {
        display_interface_decoded(p, c)
    } else if tag == TAG_STEREO_DISPLAY_INTERFACE {
        stereo_display_interface_decoded(p, c)
    } else if tag == TAG_TILED_TOPOLOGY {
        tiled_topology_decoded(p, c)
    } else {
        c
    }
}

/// Decodes one DisplayID 1.x metadata data block according to its tag.
pub fn decode_metadata_block(tag: u8, payload: &[u8], caps: &mut DisplayCapabilities)
    ensures
        final(caps)@ == block_decoded(tag, payload@, old(caps)@),
{
    if tag == TAG_PRODUCT_ID {
        decode_product_id_block(payload, caps);
    } else if tag == TAG_DISPLAY_PARAMS {
        decode_display_params_block(payload, caps);
    } else if tag == TAG_COLOR_CHARACTERISTICS {
        decode_color_characteristics_block(payload, caps);
    } else if tag == TAG_VIDEO_TIMING_RANGE {
        decode_video_timing_range_block(payload, caps);
    } else if tag == TAG_SERIAL_NUMBER {
        decode_serial_number_block(payload, caps);
    } else if tag == TAG_ASCII_STRING {
        decode_ascii_string_block(payload, caps);
    } else if tag == TAG_DISPLAY_DEVICE_DATA {
        decode_display_device_data_block(payload, caps);
    } else if tag == TAG_POWER_SEQUENCING {
        decode_power_sequencing_block(payload, caps);
    } else if tag == TAG_TRANSFER_CHARACTERISTICS {
        decode_transfer_characteristics_block(payload, caps);
    } else if tag == TAG_DISPLAY_INTERFACE {
        decode_display_interface_block(payload, caps);
    } else if tag == TAG_STEREO_DISPLAY_INTERFACE {
        decode_stereo_display_interface_block(payload, caps);
    } else if tag == TAG_TILED_TOPOLOGY {
        decode_tiled_topology_block(payload, caps);
    }
}

/// The payload bytes of a data block.
pub open spec fn span_bytes(payload: Seq<u8>, b: DataBlockSpan) -> Seq<u8> {
    payload.subrange(b.start as int, b.end as int)
}

/// A block with `tag` occurs among the first `k` blocks.
pub open spec fn seen_before(blocks: Seq<DataBlockSpan>, k: int, tag: u8) -> bool {
    exists|j: int| 0 <= j < k && (#[trigger] blocks[j]).tag == tag
}

/// The effect of block `k` in a section scan: every metadata tag but the ASCII string is
/// decoded only at its first occurrence; ASCII strings are decoded each time.
pub open spec fn metadata_step(
    payload: Seq<u8>,
    blocks: Seq<DataBlockSpan>,
    k: int,
    c: CapabilitiesView,
) -> CapabilitiesView {
    let b = blocks[k];
    if b.tag != TAG_ASCII_STRING && seen_before(blocks, k, b.tag) {
        c
    } else {
        block_decoded(b.tag, span_bytes(payload, b), c)
    }
}

/// The model after the first `n` blocks of a section scan.
pub open spec fn metadata_scan_upto(
    payload: Seq<u8>,
    blocks: Seq<DataBlockSpan>,
    n: int,
    c: CapabilitiesView,
) -> CapabilitiesView
    decreases n,
{
    if n <= 0 {
        c
    } else {
        metadata_step(payload, blocks, n - 1, metadata_scan_upto(payload, blocks, n - 1, c))
    }
}

/// The model after scanning every data block of a DisplayID 1.x section payload.
pub open spec fn metadata_scanned(payload: Seq<u8>, c: CapabilitiesView) -> CapabilitiesView {
    metadata_scan_upto(payload, data_blocks(payload), data_blocks(payload).len() as int, c)
}

/// Scans all DisplayID 1.x metadata blocks of `payload` in one pass, decoding each
/// single-instance block type only at its first occurrence and every ASCII string block.
pub fn scan_metadata_blocks(payload: &[u8], caps: &mut DisplayCapabilities)
    ensures
        final(caps)@ == metadata_scanned(payload@, old(caps)@),
{
    let spans = data_block_spans(payload);
    let len = payload.len();
    proof {
        lemma_data_blocks_in_bounds(payload@, 0);
    }
    let ghost blocks = spans@;
    let mut seen = [false; 19];
    let mut i: usize = 0;
    while i < spans.len()
        invariant
            blocks == spans@,
            blocks == data_blocks(payload@),
            i <= spans@.len(),
            seen@.len() == 19,
            forall|t: int| 0 <= t < 19 ==> seen@[t] == seen_before(blocks, i as int, t as u8),
            forall|k: int|
                0 <= k < blocks.len() ==> {
                    let b = #[trigger] blocks[k];
                    b.start <= b.end <= payload@.len()
                },
            caps@ == metadata_scan_upto(payload@, blocks, i as int, old(caps)@),
        decreases spans@.len() - i,
    {
        let span = spans[i];
        assert(span == blocks[i as int]);
        let tag = span.tag;
        let block = &payload[span.start..span.end];
        proof {
            if tag >= 19 {
                assert(block_decoded(tag, block@, caps@) == caps@);
            }
        }
        if tag >= 19 || tag == TAG_ASCII_STRING || !seen[tag as usize] {
            decode_metadata_block(tag, block, caps);
        }
        if tag < 19 {
            seen[tag as usize] = true;
        }
        proof {
            assert forall|t: int| 0 <= t < 19 implies seen@[t] == seen_before(
                blocks,
                i + 1,
                t as u8,
            ) by {
                if seen_before(blocks, i + 1, t as u8) && !seen_before(blocks, i as int, t as u8) {
                    let j = choose|j: int| 0 <= j < i + 1 && (#[trigger] blocks[j]).tag == t as u8;
                    assert(j == i);
                }
                if seen_before(blocks, i as int, t as u8) {
                    let j = choose|j: int| 0 <= j < i && (#[trigger] blocks[j]).tag == t as u8;
                    assert(0 <= j < i + 1 && blocks[j].tag == t as u8);
                }
                if t == tag as int {
                    assert(blocks[i as int].tag == t as u8);
                }
            }
        }
        i = i + 1;
    }
}

/// The index of the first block with `tag`, or the block count when there is none.
pub open spec fn first_with_tag(blocks: Seq<DataBlockSpan>, tag: u8) -> int
    decreases blocks.len(),
{
    if blocks.len() == 0 {
        0
    } else if blocks[0].tag == tag {
        0
    } else {
        1 + first_with_tag(blocks.drop_first(), tag)
    }
}

proof fn lemma_first_with_tag(blocks: Seq<DataBlockSpan>, tag: u8)
    ensures
        0 <= first_with_tag(blocks, tag) <= blocks.len(),
        forall|j: int| 0 <= j < first_with_tag(blocks, tag) ==> (#[trigger] blocks[j]).tag != tag,
        first_with_tag(blocks, tag) < blocks.len() ==> blocks[first_with_tag(blocks, tag)].tag
            == tag,
    decreases blocks.len(),
{
    if blocks.len() != 0 && blocks[0].tag != tag {
        lemma_first_with_tag(blocks.drop_first(), tag);
        assert forall|j: int| 0 <= j < first_with_tag(blocks, tag) implies (
        #[trigger] blocks[j]).tag != tag by {
            if j > 0 {
                assert(blocks[j] == blocks.drop_first()[j - 1]);
            }
        }
    }
}

/// The model after decoding only the first block of `payload` with `tag`.
pub open spec fn first_block_decoded(payload: Seq<u8>, tag: u8, c: CapabilitiesView) -> CapabilitiesView {
    let bs = data_blocks(payload);
    let k = first_with_tag(bs, tag);
    if k < bs.len() {
        block_decoded(tag, span_bytes(payload, bs[k]), c)
    } else {
        c
    }
}

/// Decodes the first data block of `payload` whose tag is `tag`, if there is one.
pub fn scan_first_block(payload: &[u8], tag: u8, caps: &mut DisplayCapabilities)
    ensures
        final(caps)@ == first_block_decoded(payload@, tag, old(caps)@),
{
    let spans = data_block_spans(payload);
    let len = payload.len();
    proof {
        lemma_data_blocks_in_bounds(payload@, 0);
        lemma_first_with_tag(spans@, tag);
    }
    let mut i: usize = 0;
    while i < spans.len()
        invariant
            spans@ == data_blocks(payload@),
            i <= spans@.len(),
            forall|j: int| 0 <= j < i ==> (#[trigger] spans@[j]).tag != tag,
            *caps == *old(caps),
            len == payload@.len(),
        decreases spans@.len() - i,
    {
        let span = spans[i];
        if span.tag == tag {
            proof {
                lemma_first_with_tag(spans@, tag);
                lemma_data_blocks_in_bounds(payload@, 0);
                let k = first_with_tag(spans@, tag);
                if k < i {
                    assert(spans@[k].tag == tag);
                }
                if i < k {
                    assert(spans@[i as int].tag != tag);
                }
                assert(span.start <= span.end <= payload@.len());
            }
            decode_metadata_block(tag, &payload[span.start..span.end], caps);
            return;
        }
        i = i + 1;
    }
    proof {
        lemma_first_with_tag(spans@, tag);
        let k = first_with_tag(spans@, tag);
        if k < spans@.len() {
            assert(spans@[k].tag == tag);
        }
    }
}

/// Decodes the first Product Identification Block of `payload`.
pub fn scan_product_id_block(payload: &[u8], caps: &mut DisplayCapabilities)
    ensures
        final(caps)@ == first_block_decoded(payload@, TAG_PRODUCT_ID, old(caps)@),
{
    scan_first_block(payload, TAG_PRODUCT_ID, caps)
}

/// Decodes the first Display Parameters Block of `payload`.
pub fn scan_display_params_block(payload: &[u8], caps: &mut DisplayCapabilities)
    ensures
        final(caps)@ == first_block_decoded(payload@, TAG_DISPLAY_PARAMS, old(caps)@),
{
    scan_first_block(payload, TAG_DISPLAY_PARAMS, caps)
}

/// Decodes the first Color Characteristics Block of `payload`.
pub fn scan_color_characteristics_block(payload: &[u8], caps: &mut DisplayCapabilities)
    ensures
        final(caps)@ == first_block_decoded(payload@, TAG_COLOR_CHARACTERISTICS, old(caps)@),
{
    scan_first_block(payload, TAG_COLOR_CHARACTERISTICS, caps)
}

/// Decodes the first Video Timing Range Limits Block of `payload`.
pub fn scan_video_timing_range_block(payload: &[u8], caps: &mut DisplayCapabilities)
    ensures
        final(caps)@ == first_block_decoded(payload@, TAG_VIDEO_TIMING_RANGE, old(caps)@),
{
    scan_first_block(payload, TAG_VIDEO_TIMING_RANGE, caps)
}

/// Decodes the first Product Serial Number Block of `payload`.
pub fn scan_serial_number_block(payload: &[u8], caps: &mut DisplayCapabilities)
    ensures
        final(caps)@ == first_block_decoded(payload@, TAG_SERIAL_NUMBER, old(caps)@),
{
    scan_first_block(payload, TAG_SERIAL_NUMBER, caps)
}

/// Decodes the first Display Device Data Block of `payload`.
pub fn scan_display_device_data_block(payload: &[u8], caps: &mut DisplayCapabilities)
    ensures
        final(caps)@ == first_block_decoded(payload@, TAG_DISPLAY_DEVICE_DATA, old(caps)@),
{
    scan_first_block(payload, TAG_DISPLAY_DEVICE_DATA, caps)
}

/// Decodes the first Interface Power Sequencing Block of `payload`.
pub fn scan_power_sequencing_block(payload: &[u8], caps: &mut DisplayCapabilities)
    ensures
        final(caps)@ == first_block_decoded(payload@, TAG_POWER_SEQUENCING, old(caps)@),
{
    scan_first_block(payload, TAG_POWER_SEQUENCING, caps)
}

/// Decodes the first Transfer Characteristics Block of `payload`.
pub fn scan_transfer_characteristics_block(payload: &[u8], caps: &mut DisplayCapabilities)
    ensures
        final(caps)@ == first_block_decoded(payload@, TAG_TRANSFER_CHARACTERISTICS, old(caps)@),
{
    scan_first_block(payload, TAG_TRANSFER_CHARACTERISTICS, caps)
}

/// Decodes the first Display Interface Data Block of `payload`.
pub fn scan_display_interface_block(payload: &[u8], caps: &mut DisplayCapabilities)
    ensures
        final(caps)@ == first_block_decoded(payload@, TAG_DISPLAY_INTERFACE, old(caps)@),
{
    scan_first_block(payload, TAG_DISPLAY_INTERFACE, caps)
}

/// Decodes the first Stereo Display Interface Data Block of `payload`.
pub fn scan_stereo_display_interface_block(payload: &[u8], caps: &mut DisplayCapabilities)
    ensures
        final(caps)@ == first_block_decoded(payload@, TAG_STEREO_DISPLAY_INTERFACE, old(caps)@),
{
    scan_first_block(payload, TAG_STEREO_DISPLAY_INTERFACE, caps)
}

/// Decodes the first Tiled Display Topology Data Block of `payload`.
pub fn scan_tiled_topology_block(payload: &[u8], caps: &mut DisplayCapabilities)
    ensures
        final(caps)@ == first_block_decoded(payload@, TAG_TILED_TOPOLOGY, old(caps)@),
{
    scan_first_block(payload, TAG_TILED_TOPOLOGY, caps)
}

// ---------------------------------------------------------------------------------------------
// DisplayID 2.x data blocks
// ---------------------------------------------------------------------------------------------

/// DisplayID 2.x Product Identification Block.
pub const TAG_V2_PRODUCT_ID: u8 = 0x20;
/// DisplayID 2.x Display Parameters Block.
pub const TAG_V2_DISPLAY_PARAMS: u8 = 0x21;
/// DisplayID 2.x Dynamic Video Timing Range Limits Block.
pub const TAG_V2_DYNAMIC_TIMING_RANGE: u8 = 0x25;
/// DisplayID 2.x Display Interface Features Block.
pub const TAG_V2_INTERFACE_FEATURES: u8 = 0x26;
/// DisplayID 2.x Stereo Display Interface Block.
pub const TAG_V2_STEREO_INTERFACE: u8 = 0x27;
/// DisplayID 2.x Tiled Display Topology Block.
pub const TAG_V2_TILED_TOPOLOGY: u8 = 0x28;
/// DisplayID 2.x ContainerID Block.
pub const TAG_V2_CONTAINER_ID: u8 = 0x29;
/// DisplayID 2.x Vendor-Specific Block.
pub const TAG_V2_VENDOR_SPECIFIC: u8 = 0x7E;
/// DisplayID 2.x CTA DisplayID Block.
pub const TAG_V2_CTA_DISPLAYID: u8 = 0x81;

// --- Product Identification (0x20) -----------------------------------------------------------

/// The model after a 2.x Product Identification payload: product code (bytes 3–4), serial
/// number (bytes 5–8, when non-zero), manufacture date (bytes 9–10, year from 2000) and the
/// product name (byte 11 gives its length, the name follows), each written only when the
/// payload holds it. The PNP manufacturer field is left alone.
pub open spec fn v2_product_id_caps(p: Seq<u8>, c: CapabilitiesView) -> CapabilitiesView {
    let c1 = if p.len() >= 5 {
        CapabilitiesView { product_code: Some(le16(p[3], p[4])), ..c }
    } else {
        c
    };
    let c2 = if p.len() >= 9 && le32(p[5], p[6], p[7], p[8]) != 0 {
        CapabilitiesView { serial_number: Some(le32(p[5], p[6], p[7], p[8])), ..c1 }
    } else {
        c1
    };
    let c3 = if p.len() >= 11 {
        CapabilitiesView {
            manufacture_date: Some(ManufactureDate::spec_from_bytes(p[9], p[10], 2000)),
            ..c2
        }
    } else {
        c2
    };
    if p.len() >= 12 && p[11] > 0 && p.len() >= 12 + p[11] {
        CapabilitiesView { display_name: Some(text_field(p.subrange(12, 12 + p[11]))), ..c3 }
    } else {
        c3
    }
}

/// The section record after a 2.x Product Identification payload: the IEEE OUI (bytes
/// 0–2), when present.
pub open spec fn v2_product_id_did(p: Seq<u8>, d: DisplayIdView) -> DisplayIdView {
    if p.len() >= 3 {
        DisplayIdView { manufacturer_oui: Some(p.subrange(0, 3)), ..d }
    } else {
        d
    }
}

/// Decodes the 2.x manufacture date (year counted from 2000).
pub fn decode_v2_manufacture_date(week: u8, year: u8) -> (r: ManufactureDate)
    ensures
        r == ManufactureDate::spec_from_bytes(week, year, 2000),
{
    let y = year as u16 + 2000;
    match week {
        0xFF => ManufactureDate::ModelYear(y),
        0x00 => ManufactureDate::Manufactured { week: None, year: y },
        w => ManufactureDate::Manufactured { week: Some(w), year: y },
    }
}

/// A 2.x Product Identification payload gives the IEEE OUI as bytes 0–2 in order, the
/// product code as the little-endian word at bytes 3–4, the serial number as the
/// little-endian 32-bit value at bytes 5–8 (when non-zero), and a manufacture date whose
/// year counts from 2000 (byte 10) with week byte 9.
pub proof fn lemma_v2_product_id_fields(p: Seq<u8>, c: CapabilitiesView, d: DisplayIdView)
    ensures
        ({
            let r = v2_product_id_caps(p, c);
            let serial = p[5] + 256 * p[6] + 65536 * p[7] + 16777216 * p[8];
            &&& p.len() >= 3 ==> v2_product_id_did(p, d).manufacturer_oui == Some(
                seq![p[0], p[1], p[2]],
            )
            &&& p.len() >= 5 ==> r.product_code == Some((p[3] + 256 * p[4]) as u16)
            &&& p.len() >= 9 && serial != 0 ==> r.serial_number == Some(serial as u32)
            &&& p.len() >= 11 ==> r.manufacture_date == Some(
                ManufactureDate::spec_from_bytes(p[9], p[10], 2000),
            )
        }),
{
    if p.len() >= 3 {
        assert(p.subrange(0, 3) =~= seq![p[0], p[1], p[2]]);
    }
    if p.len() >= 5 {
        lemma_le16_parts(p[3], p[4]);
    }
    if p.len() >= 9 {
        lemma_le24_le32_parts(p[5], p[6], p[7], p[8]);
    }
}

/// Decodes a DisplayID 2.x Product Identification Block payload (tag `0x20`).
pub fn decode_v2_product_id_block(
    payload: &[u8],
    caps: &mut DisplayCapabilities,
    did: &mut DisplayIdCapabilities,
)
    ensures
        final(caps)@ == v2_product_id_caps(payload@, old(caps)@),
        final(did)@ == v2_product_id_did(payload@, old(did)@),
{
    let len = payload.len();
    if len >= 3 {
        let oui = [payload[0], payload[1], payload[2]];
        assert(oui@ =~= payload@.subrange(0, 3));
        did.manufacturer_oui = Some(oui);
    }
    if len >= 5 {
        caps.product_code = Some(read_le16(payload[3], payload[4]));
    }
    if len >= 9 {
        let sn = (payload[5] as u32) | ((payload[6] as u32) << 8) | ((payload[7] as u32) << 16)
            | ((payload[8] as u32) << 24);
        if sn != 0 {
            caps.serial_number = Some(sn);
        }
    }
    if len >= 11 {
        caps.manufacture_date = Some(decode_v2_manufacture_date(payload[9], payload[10]));
    }
    if len >= 12 {
        let name_len = payload[11] as usize;
        if name_len > 0 && len >= 12 + name_len {
            let name = &payload[12..12 + name_len];
            caps.display_name = Some(monitor_string_from(name));
        }
    }
}

// --- Display Parameters (0x21) ---------------------------------------------------------------

/// Bits per component of the 3-bit 2.x color depth code (`None` for undefined and reserved
/// codes; the 2.x encoding has no 14 bpc).
pub open spec fn v2_depth_code(field: u8) -> Option<u8> {
    let v = field & 7;
    if v == 1 {
        Some(6u8)
    } else if v == 2 {
        Some(8u8)
    } else if v == 3 {
        Some(10u8)
    } else if v == 4 {
        Some(12u8)
    } else if v == 5 {
        Some(16u8)
    } else {
        None
    }
}

/// Maps the 3-bit DisplayID 2.x color depth field to bits per component.
pub fn decode_v2_color_bit_depth(field: u8) -> (r: Option<u8>)
    ensures
        r == v2_depth_code(field),
{
    match field & 0x07 {
        1 => Some(6),
        2 => Some(8),
        3 => Some(10),
        4 => Some(12),
        5 => Some(16),
        _ => None,
    }
}

/// The [`ColorBitDepth`] of a bits-per-component value.
pub open spec fn depth_of_bpc(bpc: u8) -> Option<ColorBitDepth> {
    if bpc == 6 {
        Some(ColorBitDepth::Depth6)
    } else if bpc == 8 {
        Some(ColorBitDepth::Depth8)
    } else if bpc == 10 {
        Some(ColorBitDepth::Depth10)
    } else if bpc == 12 {
        Some(ColorBitDepth::Depth12)
    } else if bpc == 16 {
        Some(ColorBitDepth::Depth16)
    } else {
        None
    }
}

/// A binary16 luminance field: `None` for either zero (`0x8000` is the "not used" sentinel,
/// `0x0000` a degenerate value) and for infinities and NaNs (exponent all ones); otherwise
/// the field's bits.
pub open spec fn luminance_bits(raw: u16) -> Option<u16> {
    if raw & 0x7FFF == 0 || (raw >> 10) & 0x1F == 31 {
        None
    } else {
        Some(raw)
    }
}

/// Checks a binary16 luminance field, keeping its bits when it encodes a usable luminance.
pub fn decode_luminance_f16(raw: u16) -> (r: Option<u16>)
    ensures
        r == luminance_bits(raw),
{
    if raw & 0x7FFF == 0 {
        return None;
    }
    let exp = (raw >> 10) & 0x1F;
    if exp == 31 {
        None
    } else {
        Some(raw)
    }
}

/// The 12-bit chromaticity pair packed in the three bytes at offset `o`.
pub open spec fn point12_at(p: Seq<u8>, o: int) -> ChromaticityPoint12 {
    ChromaticityPoint12 {
        x_raw: (p[o] as u16) | (((p[o + 1] & 0x0F) as u16) << 8),
        y_raw: (((p[o + 1] >> 4) & 0x0F) as u16) | ((p[o + 2] as u16) << 4),
    }
}

fn read_point12(payload: &[u8], o: usize) -> (r: ChromaticityPoint12)
    requires
        o + 3 <= payload@.len(),
    ensures
        r == point12_at(payload@, o as int),
{
    ChromaticityPoint12 {
        x_raw: (payload[o] as u16) | (((payload[o + 1] & 0x0F) as u16) << 8),
        y_raw: (((payload[o + 1] >> 4) & 0x0F) as u16) | ((payload[o + 2] as u16) << 4),
    }
}

/// The display parameters record of a (29-byte or longer) 2.x Display Parameters payload.
pub open spec fn params_v2_of(p: Seq<u8>) -> DisplayParamsV2 {
    let flags = p[8];
    DisplayParamsV2 {
        chromaticity: Chromaticity12 {
            primary1: point12_at(p, 9),
            primary2: point12_at(p, 12),
            primary3: point12_at(p, 15),
            white: point12_at(p, 18),
        },
        color_space_cie1976: (flags >> 6) & 1 != 0,
        max_luminance_full: luminance_bits(le16(p[21], p[22])),
        max_luminance_10pct: luminance_bits(le16(p[23], p[24])),
        min_luminance: luminance_bits(le16(p[25], p[26])),
        luminance_guidance: (flags >> 3) & 1 != 0,
        color_bit_depth: v2_depth_code(p[27] & 7),
        display_technology: V2DisplayTechnology::spec_from_byte((p[27] >> 4) & 7),
        gamma: if p[28] == 0xFF {
            None
        } else {
            Some(p[28])
        },
        scan_orientation: ScanOrientation::spec_from_bits(flags),
        audio_external: (flags >> 7) & 1 != 0,
    }
}

/// The model after a 2.x Display Parameters payload of at least 29 bytes (shorter ones
/// change nothing): the image size (bytes 0–3, both axes non-zero; in 0.1 mm units and
/// converted to whole mm unless bit 7 of the block revision selects 1 mm units), the
/// native pixel count (bytes 4–7, both non-zero) and the color depth (byte 27 bits 2:0,
/// when defined).
pub open spec fn v2_display_params_caps(p: Seq<u8>, revision: u8, c: CapabilitiesView) -> CapabilitiesView {
    if p.len() < 29 {
        c
    } else {
        let h = le16(p[0], p[1]);
        let v = le16(p[2], p[3]);
        let c1 = if h != 0 && v != 0 {
            CapabilitiesView {
                preferred_image_size_mm: Some(
                    if revision >= 0x80 {
                        (h, v)
                    } else {
                        ((h / 10) as u16, (v / 10) as u16)
                    },
                ),
                ..c
            }
        } else {
            c
        };
        let c2 = if le16(p[4], p[5]) != 0 && le16(p[6], p[7]) != 0 {
            CapabilitiesView { native_pixels: Some((le16(p[4], p[5]), le16(p[6], p[7]))), ..c1 }
        } else {
            c1
        };
        match v2_depth_code(p[27] & 7) {
            Some(bpc) => CapabilitiesView { color_bit_depth: depth_of_bpc(bpc), ..c2 },
            None => c2,
        }
    }
}

/// The bits per component that the 3-bit 2.x depth code `code` names: 6, 8, 10 and 12 for
/// codes 1 to 4 and 16 for code 5; the other codes name none.
pub proof fn lemma_v2_depth_codes(field: u8)
    ensures
        (v2_depth_code(field) is Some) == (1 <= field % 8 <= 5),
        1 <= field % 8 <= 4 ==> v2_depth_code(field) == Some((2 * (field % 8) + 4) as u8),
        field % 8 == 5 ==> v2_depth_code(field) == Some(16u8),
        v2_depth_code(field) matches Some(bpc) ==> depth_of_bpc(bpc) matches Some(d)
            && d.spec_bits_per_primary() == bpc,
{
    lemma_byte_bits(field);
}

/// The 12-bit chromaticity pair at offset `o` has x = byte `o` plus 256 × (byte `o + 1`
/// bits 3–0) and y = (byte `o + 1` bits 7–4) plus 16 × byte `o + 2`.
pub proof fn lemma_point12_fields(p: Seq<u8>, o: int)
    requires
        0 <= o && o + 3 <= p.len(),
    ensures
        point12_at(p, o).x_raw == p[o] + 256 * (p[o + 1] % 16),
        point12_at(p, o).y_raw == p[o + 1] / 16 + 16 * p[o + 2],
{
    lemma_le16_parts(p[o], p[o + 1]);
    lemma_le16_parts(p[o + 1], p[o + 2]);
}

/// A 2.x Display Parameters payload of at least 29 bytes: the image size is the
/// little-endian words at bytes 0–1 and 2–3, in mm when revision bit 7 is set and in
/// tenths of a mm (rounded down to whole mm) otherwise, kept only when both are non-zero;
/// the native pixel counts are the words at bytes 4–5 and 6–7, kept only when both are
/// non-zero; the color depth of the 3-bit code in byte 27 replaces the model's when the code
/// is defined. In the section record, byte 8 carries the audio (bit 7), color space
/// (bit 6), luminance guidance (bit 3) and scan orientation (bits 2–0) flags, byte 27 bits
/// 6–4 name the display technology, and byte 28 is the gamma code, `0xFF` for none. A
/// shorter payload changes neither. The primaries and white point are the 12-bit pairs at
/// bytes 9, 12, 15 and 18.
pub proof fn lemma_v2_display_params_fields(
    p: Seq<u8>,
    revision: u8,
    c: CapabilitiesView,
    d: DisplayIdView,
)
    ensures
        p.len() < 29 ==> v2_display_params_caps(p, revision, c) == c
            && v2_display_params_did(p, d) == d,
        p.len() >= 29 ==> {
            let r = v2_display_params_caps(p, revision, c);
            let h = p[0] + 256 * p[1];
            let v = p[2] + 256 * p[3];
            let nh = p[4] + 256 * p[5];
            let nv = p[6] + 256 * p[7];
            &&& (h != 0 && v != 0 && revision >= 128) ==> r.preferred_image_size_mm == Some(
                (h as u16, v as u16),
            )
            &&& (h != 0 && v != 0 && revision < 128) ==> r.preferred_image_size_mm == Some(
                ((h / 10) as u16, (v / 10) as u16),
            )
            &&& (h == 0 || v == 0) ==> r.preferred_image_size_mm == c.preferred_image_size_mm
            &&& (nh != 0 && nv != 0) ==> r.native_pixels == Some((nh as u16, nv as u16))
            &&& (nh == 0 || nv == 0) ==> r.native_pixels == c.native_pixels
            &&& (1 <= p[27] % 8 <= 5) ==> (r.color_bit_depth matches Some(depth)
                && depth.spec_bits_per_primary() == (if p[27] % 8 == 5 {
                16
            } else {
                2 * (p[27] % 8) + 4
            }))
            &&& !(1 <= p[27] % 8 <= 5) ==> r.color_bit_depth == c.color_bit_depth
            &&& r == (CapabilitiesView {
                preferred_image_size_mm: r.preferred_image_size_mm,
                native_pixels: r.native_pixels,
                color_bit_depth: r.color_bit_depth,
                ..c
            })
        },
        p.len() >= 29 ==> (v2_display_params_did(p, d).display_params_v2 matches Some(q) && {
            &&& q.chromaticity.primary1 == point12_at(p, 9)
            &&& q.chromaticity.primary2 == point12_at(p, 12)
            &&& q.chromaticity.primary3 == point12_at(p, 15)
            &&& q.chromaticity.white == point12_at(p, 18)
            &&& q.audio_external == (p[8] >= 128)
            &&& q.color_space_cie1976 == ((p[8] / 64) % 2 == 1)
            &&& q.luminance_guidance == ((p[8] / 8) % 2 == 1)
            &&& q.scan_orientation == ScanOrientation::spec_from_bits(p[8] % 8)
            &&& q.display_technology == V2DisplayTechnology::spec_from_byte((p[27] / 16) % 8)
            &&& q.color_bit_depth == v2_depth_code(p[27] % 8)
            &&& q.gamma == (if p[28] == 0xFF {
                None
            } else {
                Some(p[28])
            })
        }),
{
    if p.len() >= 29 {
        assert(le16(p[0], p[1]) == p[0] + 256 * p[1] && le16(p[2], p[3]) == p[2] + 256 * p[3]
            && le16(p[4], p[5]) == p[4] + 256 * p[5] && le16(p[6], p[7]) == p[6] + 256 * p[7]) by {
            lemma_le16_parts(p[0], p[1]);
            lemma_le16_parts(p[2], p[3]);
            lemma_le16_parts(p[4], p[5]);
            lemma_le16_parts(p[6], p[7]);
        }
        assert(ScanOrientation::spec_from_bits(p[8]) == ScanOrientation::spec_from_bits(p[8] % 8)
            && ((p[8] >> 7) & 1 != 0) == (p[8] >= 128) && ((p[8] >> 6) & 1 != 0) == ((p[8] / 64)
            % 2 == 1) && ((p[8] >> 3) & 1 != 0) == ((p[8] / 8) % 2 == 1)) by {
            lemma_byte_bits(p[8]);
            lemma_byte_bits(p[8] % 8);
        }
        assert((p[27] >> 4) & 7 == (p[27] / 16) % 8 && p[27] & 7 == p[27] % 8) by {
            lemma_byte_bits(p[27]);
        }
        assert(v2_depth_code(p[27] & 7) == v2_depth_code(p[27] % 8)) by {
            lemma_byte_bits(p[27] % 8);
        }
        lemma_v2_depth_codes(p[27] % 8);
    }
}

/// The section record after a 2.x Display Parameters payload: the full record, for
/// payloads of at least 29 bytes.
pub open spec fn v2_display_params_did(p: Seq<u8>, d: DisplayIdView) -> DisplayIdView {
    if p.len() < 29 {
        d
    } else {
        DisplayIdView { display_params_v2: Some(params_v2_of(p)), ..d }
    }
}

/// Decodes a DisplayID 2.x Display Parameters Block payload (tag `0x21`).
pub fn decode_v2_display_params_block(
    payload: &[u8],
    revision: u8,
    caps: &mut DisplayCapabilities,
    did: &mut DisplayIdCapabilities,
)
    ensures
        final(caps)@ == v2_display_params_caps(payload@, revision, old(caps)@),
        final(did)@ == v2_display_params_did(payload@, old(did)@),
{
    if payload.len() < 29 {
        return;
    }
    let size_in_whole_mm = (revision >> 7) & 0x01 != 0;
    assert(size_in_whole_mm == (revision >= 0x80)) by (bit_vector)
        requires
            size_in_whole_mm == ((revision >> 7) & 0x01 != 0),
    ;
    let h_size = read_le16(payload[0], payload[1]);
    let v_size = read_le16(payload[2], payload[3]);
    if h_size != 0 && v_size != 0 {
        let mm = if size_in_whole_mm {
            (h_size, v_size)
        } else {
            (h_size / 10, v_size / 10)
        };
        caps.preferred_image_size_mm = Some(mm);
    }
    let h_px = read_le16(payload[4], payload[5]);
    let v_px = read_le16(payload[6], payload[7]);
    if h_px != 0 && v_px != 0 {
        caps.native_pixels = Some((h_px, v_px));
    }
    let flags = payload[8];
    let scan_orientation = ScanOrientation::from_bits(flags);
    let luminance_guidance = (flags >> 3) & 0x01 != 0;
    let color_space_cie1976 = (flags >> 6) & 0x01 != 0;
    let audio_external = (flags >> 7) & 0x01 != 0;
    let chromaticity = Chromaticity12 {
        primary1: read_point12(payload, 9),
        primary2: read_point12(payload, 12),
        primary3: read_point12(payload, 15),
        white: read_point12(payload, 18),
    };
    let max_luminance_full = decode_luminance_f16(read_le16(payload[21], payload[22]));
    let max_luminance_10pct = decode_luminance_f16(read_le16(payload[23], payload[24]));
    let min_luminance = decode_luminance_f16(read_le16(payload[25], payload[26]));
    let depth_tech_byte = payload[27];
    let color_bit_depth = decode_v2_color_bit_depth(depth_tech_byte & 0x07);
    let display_technology = V2DisplayTechnology::from_byte((depth_tech_byte >> 4) & 0x07);
    let gamma_byte = payload[28];
    let gamma = if gamma_byte == 0xFF {
        None
    } else {
        Some(gamma_byte)
    };
    if let Some(bpc) = color_bit_depth {
        caps.color_bit_depth = match bpc {
            6 => Some(ColorBitDepth::Depth6),
            8 => Some(ColorBitDepth::Depth8),
            10 => Some(ColorBitDepth::Depth10),
            12 => Some(ColorBitDepth::Depth12),
            16 => Some(ColorBitDepth::Depth16),
            _ => None,
        };
    }
    did.display_params_v2 = Some(
        DisplayParamsV2 {
            chromaticity,
            color_space_cie1976,
            max_luminance_full,
            max_luminance_10pct,
            min_luminance,
            luminance_guidance,
            color_bit_depth,
            display_technology,
            gamma,
            scan_orientation,
            audio_external,
        },
    );
}

// --- Dynamic Video Timing Range Limits (0x25) ------------------------------------------------

/// The range record of a (9-byte or longer) 2.x Dynamic Video Timing Range payload: pixel
/// clocks in kHz (24-bit, bytes 0–2 and 3–5), minimum vertical rate (byte 6), maximum
/// vertical rate (byte 7, widened by byte 8 bits 1:0 from block revision 1 on) and the VRR
/// flag (byte 8 bit 7).
pub open spec fn timing_range_of(p: Seq<u8>, revision: u8) -> DynamicTimingRange {
    DynamicTimingRange {
        min_pixel_clock_khz: le24(p[0], p[1], p[2]),
        max_pixel_clock_khz: le24(p[3], p[4], p[5]),
        min_v_rate_hz: p[6],
        max_v_rate_hz: if revision & 7 >= 1 {
            (p[7] as u16) | (((p[8] & 3) as u16) << 8)
        } else {
            p[7] as u16
        },
        vrr_supported: (p[8] >> 7) & 1 != 0,
    }
}

/// A 2.x Dynamic Video Timing Range record reads the minimum and maximum pixel clocks as the
/// little-endian 24-bit values at bytes 0–2 and 3–5, the minimum vertical rate as byte 6,
/// the maximum as byte 7 plus 256 times bits 1–0 of byte 8 from block revision 1 on (byte 7
/// alone before), and variable refresh as bit 7 of byte 8.
pub proof fn lemma_timing_range_fields(p: Seq<u8>, revision: u8)
    requires
        p.len() >= 9,
    ensures
        ({
            let r = timing_range_of(p, revision);
            &&& r.min_pixel_clock_khz == p[0] + 256 * p[1] + 65536 * p[2]
            &&& r.max_pixel_clock_khz == p[3] + 256 * p[4] + 65536 * p[5]
            &&& r.min_v_rate_hz == p[6]
            &&& r.max_v_rate_hz == (if revision % 8 >= 1 {
                p[7] + 256 * (p[8] % 4)
            } else {
                p[7] as int
            })
            &&& r.vrr_supported == (p[8] >= 128)
        }),
{
    lemma_le24_le32_parts(p[0], p[1], p[2], 0);
    lemma_le24_le32_parts(p[3], p[4], p[5], 0);
    let (b7, b8) = (p[7], p[8]);
    assert({
        &&& ((b7 as u16) | (((b8 & 3) as u16) << 8)) == (b7 as u16) + 256 * ((b8 % 4) as u16)
        &&& ((b8 >> 7) & 1 != 0) == (b8 >= 128)
        &&& revision & 7 == revision % 8
    }) by (bit_vector);
}

/// The model after a 2.x Dynamic Video Timing Range payload of at least 9 bytes: the
/// maximum pixel clock in whole MHz (when non-zero) and the vertical rate limits (each when
/// non-zero).
pub open spec fn v2_timing_range_caps(p: Seq<u8>, revision: u8, c: CapabilitiesView) -> CapabilitiesView {
    if p.len() < 9 {
        c
    } else {
        let r = timing_range_of(p, revision);
        let c1 = if r.max_pixel_clock_khz != 0 {
            CapabilitiesView {
                max_pixel_clock_mhz: Some(
                    (if r.max_pixel_clock_khz / 1000 > 0xFFFF {
                        0xFFFF
                    } else {
                        r.max_pixel_clock_khz / 1000
                    }) as u16,
                ),
                ..c
            }
        } else {
            c
        };
        let c2 = if r.min_v_rate_hz != 0 {
            CapabilitiesView { min_v_rate: Some(r.min_v_rate_hz as u16), ..c1 }
        } else {
            c1
        };
        if r.max_v_rate_hz != 0 {
            CapabilitiesView { max_v_rate: Some(r.max_v_rate_hz), ..c2 }
        } else {
            c2
        }
    }
}

/// The section record after a 2.x Dynamic Video Timing Range payload of at least 9 bytes.
pub open spec fn v2_timing_range_did(p: Seq<u8>, revision: u8, d: DisplayIdView) -> DisplayIdView {
    if p.len() < 9 {
        d
    } else {
        DisplayIdView { dynamic_timing_range: Some(timing_range_of(p, revision)), ..d }
    }
}

/// Decodes a DisplayID 2.x Dynamic Video Timing Range Limits Block payload (tag `0x25`).
pub fn decode_v2_dynamic_timing_range_block(
    payload: &[u8],
    revision: u8,
    caps: &mut DisplayCapabilities,
    did: &mut DisplayIdCapabilities,
)
    ensures
        final(caps)@ == v2_timing_range_caps(payload@, revision, old(caps)@),
        final(did)@ == v2_timing_range_did(payload@, revision, old(did)@),
{
    if payload.len() < 9 {
        return;
    }
    let min_pixel_clock_khz = (payload[0] as u32) | ((payload[1] as u32) << 8) | ((
    payload[2] as u32) << 16);
    let max_pixel_clock_khz = (payload[3] as u32) | ((payload[4] as u32) << 8) | ((
    payload[5] as u32) << 16);
    let min_v_rate_hz = payload[6];
    let max_v_lsb = payload[7];
    let flags = payload[8];
    let block_revision = revision & 0x07;
    let max_v_rate_hz: u16 = if block_revision >= 1 {
        (max_v_lsb as u16) | (((flags & 0x03) as u16) << 8)
    } else {
        max_v_lsb as u16
    };
    let vrr_supported = (flags >> 7) & 0x01 != 0;
    did.dynamic_timing_range = Some(
        DynamicTimingRange {
            min_pixel_clock_khz,
            max_pixel_clock_khz,
            min_v_rate_hz,
            max_v_rate_hz,
            vrr_supported,
        },
    );
    if max_pixel_clock_khz != 0 {
        let mhz = max_pixel_clock_khz / 1000;
        let capped = if mhz > 0xFFFF {
            0xFFFFu32
        } else {
            mhz
        };
        caps.max_pixel_clock_mhz = Some(capped as u16);
    }
    if min_v_rate_hz != 0 {
        caps.min_v_rate = Some(min_v_rate_hz as u16);
    }
    if max_v_rate_hz != 0 {
        caps.max_v_rate = Some(max_v_rate_hz);
    }
}

// --- Display Interface Features (0x26) -------------------------------------------------------

/// The section record after a 2.x Display Interface Features payload: for payloads of at
/// least 9 bytes, the color depth masks (bytes 0–3, undefined bits dropped), the minimum
/// 4:2:0 pixel rate (byte 4), the audio flags (byte 5) and the color space / EOTF mask
/// (byte 6).
pub open spec fn v2_interface_features_did(p: Seq<u8>, d: DisplayIdView) -> DisplayIdView {
    if p.len() < 9 {
        d
    } else {
        DisplayIdView {
            interface_features: Some(
                DisplayInterfaceFeatures {
                    color_depth_rgb: ColorDepthsFull { flags: p[0] & 0x3F },
                    color_depth_ycbcr444: ColorDepthsFull { flags: p[1] & 0x3F },
                    color_depth_ycbcr422: ColorDepthsSubsampled { flags: p[2] & 0x1F },
                    color_depth_ycbcr420: ColorDepthsSubsampled { flags: p[3] & 0x1F },
                    min_ycbcr420_pixel_rate: p[4],
                    audio_flags: p[5],
                    color_space_eotf_combos: p[6],
                },
            ),
            ..d
        }
    }
}

/// A 2.x Display Interface Features payload of at least 9 bytes sets the interface features
/// of the section record and nothing else: the RGB and YCbCr 4:4:4 color depth flags are
/// bits 5–0 of bytes 0 and 1, the YCbCr 4:2:2 and 4:2:0 flags bits 4–0 of bytes 2 and 3,
/// and bytes 4, 5 and 6 are the minimum 4:2:0 pixel rate, the audio flags and the color
/// space and EOTF combinations. A shorter payload changes nothing.
pub proof fn lemma_v2_interface_features_fields(p: Seq<u8>, d: DisplayIdView)
    ensures
        p.len() < 9 ==> v2_interface_features_did(p, d) == d,
        p.len() >= 9 ==> (v2_interface_features_did(p, d).interface_features matches Some(f) && {
            &&& f.color_depth_rgb.flags == p[0] % 64
            &&& f.color_depth_ycbcr444.flags == p[1] % 64
            &&& f.color_depth_ycbcr422.flags == p[2] % 32
            &&& f.color_depth_ycbcr420.flags == p[3] % 32
            &&& f.min_ycbcr420_pixel_rate == p[4]
            &&& f.audio_flags == p[5]
            &&& f.color_space_eotf_combos == p[6]
        }),
        p.len() >= 9 ==> v2_interface_features_did(p, d) == (DisplayIdView {
            interface_features: v2_interface_features_did(p, d).interface_features,
            ..d
        }),
{
    if p.len() >= 9 {
        assert(p[0] & 0x3F == p[0] % 64) by {
            lemma_byte_bits(p[0]);
        }
        assert(p[1] & 0x3F == p[1] % 64) by {
            lemma_byte_bits(p[1]);
        }
        assert(p[2] & 0x1F == p[2] % 32) by {
            lemma_byte_bits(p[2]);
        }
        assert(p[3] & 0x1F == p[3] % 32) by {
            lemma_byte_bits(p[3]);
        }
    }
}

/// Decodes a DisplayID 2.x Display Interface Features Block payload (tag `0x26`).
pub fn decode_v2_interface_features_block(payload: &[u8], did: &mut DisplayIdCapabilities)
    ensures
        final(did)@ == v2_interface_features_did(payload@, old(did)@),
{
    if payload.len() < 9 {
        return;
    }
    did.interface_features = Some(
        DisplayInterfaceFeatures {
            color_depth_rgb: ColorDepthsFull::from_bits_truncate(payload[0]),
            color_depth_ycbcr444: ColorDepthsFull::from_bits_truncate(payload[1]),
            color_depth_ycbcr422: ColorDepthsSubsampled::from_bits_truncate(payload[2]),
            color_depth_ycbcr420: ColorDepthsSubsampled::from_bits_truncate(payload[3]),
            min_ycbcr420_pixel_rate: payload[4],
            audio_flags: payload[5],
            color_space_eotf_combos: payload[6],
        },
    );
}

// --- Stereo Display Interface (0x27) ---------------------------------------------------------

/// The eye that bit 0 of `b` selects.
pub open spec fn eye_of(b: u8) -> StereoEye {
    if b & 1 != 0 {
        StereoEye::Right
    } else {
        StereoEye::Left
    }
}

fn decode_eye(b: u8) -> (r: StereoEye)
    ensures
        r == eye_of(b),
{
    if (b & 0x01) != 0 {
        StereoEye::Right
    } else {
        StereoEye::Left
    }
}

/// The mirroring that a 2-bit code denotes.
pub open spec fn mirroring_of(code: u8) -> DualInterfaceMirroring {
    if code == 0 {
        DualInterfaceMirroring::NoMirroring
    } else if code == 1 {
        DualInterfaceMirroring::LeftRight
    } else if code == 2 {
        DualInterfaceMirroring::TopBottom
    } else {
        DualInterfaceMirroring::Reserved
    }
}

/// The viewing method of method byte `m` with argument bytes `args`, or `None` when the
/// method needs more argument bytes than there are (one for field sequential, side by
/// side, dual interface and stacked frame; eight for pixel interleaved; two for multi-view).
pub open spec fn stereo_method_of(m: u8, args: Seq<u8>) -> Option<StereoMethodView> {
    if m == 0x00 {
        if args.len() == 0 {
            None
        } else {
            Some(StereoMethodView::FieldSequential { eye_on_high_half: eye_of(args[0]) })
        }
    } else if m == 0x01 {
        if args.len() == 0 {
            None
        } else {
            Some(StereoMethodView::SideBySide { left_half: eye_of(args[0]) })
        }
    } else if m == 0x02 {
        if args.len() < 8 {
            None
        } else {
            Some(StereoMethodView::PixelInterleaved { pattern: args.subrange(0, 8) })
        }
    } else if m == 0x03 {
        if args.len() == 0 {
            None
        } else {
            Some(
                StereoMethodView::DualInterface {
                    eye: eye_of(args[0]),
                    mirroring: mirroring_of((args[0] >> 1) & 3),
                },
            )
        }
    } else if m == 0x04 {
        if args.len() < 2 {
            None
        } else {
            Some(
                StereoMethodView::MultiView { view_count: args[0], interleaving_method_code: args[1] },
            )
        }
    } else if m == 0x05 {
        if args.len() == 0 {
            None
        } else {
            Some(StereoMethodView::StackedFrame { top_half: eye_of(args[0]) })
        }
    } else if m == 0xFF {
        Some(StereoMethodView::Proprietary)
    } else {
        Some(StereoMethodView::Reserved(m))
    }
}

/// The stereo record of a 2.x Stereo Display Interface payload: byte 0 is the descriptor
/// length `n` (at least 1), byte 1 the method and bytes `2..1 + n` its arguments; the
/// timing scope comes from bits 7:6 of the block revision. `None` when the payload is
/// shorter than 2 bytes or than the descriptor, or the method lacks arguments.
pub open spec fn stereo_v2_of(p: Seq<u8>, revision: u8) -> Option<StereoInterfaceV2View> {
    if p.len() < 2 || p[0] < 1 || p.len() < 1 + p[0] {
        None
    } else {
        match stereo_method_of(p[1], p.subrange(2, 1 + p[0])) {
            Some(m) => Some(
                StereoInterfaceV2View {
                    timing_scope: StereoTimingScopeV2::spec_from_revision(revision),
                    method: m,
                },
            ),
            None => None,
        }
    }
}

/// The section record after a 2.x Stereo Display Interface payload.
pub open spec fn v2_stereo_did(p: Seq<u8>, revision: u8, d: DisplayIdView) -> DisplayIdView {
    match stereo_v2_of(p, revision) {
        Some(s) => DisplayIdView { stereo_interface_v2: Some(s), ..d },
        None => d,
    }
}

fn decode_stereo_method(m: u8, args: &[u8]) -> (r: Option<StereoViewingMethodV2>)
    ensures
        match r {
            Some(x) => stereo_method_of(m, args@) == Some(x@),
            None => stereo_method_of(m, args@) is None,
        },
{
    match m {
        0x00 => {
            if args.len() == 0 {
                return None;
            }
            Some(StereoViewingMethodV2::FieldSequential { eye_on_high_half: decode_eye(args[0]) })
        },
        0x01 => {
            if args.len() == 0 {
                return None;
            }
            Some(StereoViewingMethodV2::SideBySide { left_half: decode_eye(args[0]) })
        },
        0x02 => {
            if args.len() < 8 {
                return None;
            }
            let pattern = [
                args[0],
                args[1],
                args[2],
                args[3],
                args[4],
                args[5],
                args[6],
                args[7],
            ];
            assert(pattern@ =~= args@.subrange(0, 8));
            Some(StereoViewingMethodV2::PixelInterleaved { pattern })
        },
        0x03 => {
            if args.len() == 0 {
                return None;
            }
            let eye = decode_eye(args[0]);
            let mirroring = match (args[0] >> 1) & 0x03 {
                0 => DualInterfaceMirroring::NoMirroring,
                1 => DualInterfaceMirroring::LeftRight,
                2 => DualInterfaceMirroring::TopBottom,
                _ => DualInterfaceMirroring::Reserved,
            };
            Some(StereoViewingMethodV2::DualInterface { eye, mirroring })
        },
        0x04 => {
            if args.len() < 2 {
                return None;
            }
            Some(
                StereoViewingMethodV2::MultiView {
                    view_count: args[0],
                    interleaving_method_code: args[1],
                },
            )
        },
        0x05 => {
            if args.len() == 0 {
                return None;
            }
            Some(StereoViewingMethodV2::StackedFrame { top_half: decode_eye(args[0]) })
        },
        0xFF => Some(StereoViewingMethodV2::Proprietary),
        other => Some(StereoViewingMethodV2::Reserved(other)),
    }
}

/// Decodes a DisplayID 2.x Stereo Display Interface Block payload (tag `0x27`).
pub fn decode_v2_stereo_interface_block(
    payload: &[u8],
    revision: u8,
    did: &mut DisplayIdCapabilities,
)
    ensures
        final(did)@ == v2_stereo_did(payload@, revision, old(did)@),
{
    if payload.len() < 2 {
        return;
    }
    let descriptor_len = payload[0] as usize;
    if descriptor_len < 1 || payload.len() < 1 + descriptor_len {
        return;
    }
    let method_byte = payload[1];
    let args = &payload[2..1 + descriptor_len];
    if let Some(method) = decode_stereo_method(method_byte, args) {
        let timing_scope = StereoTimingScopeV2::from_revision(revision);
        did.stereo_interface_v2 = Some(DisplayIdStereoInterfaceV2 { timing_scope, method });
    }
}

// --- ContainerID (0x29) and Vendor-Specific (0x7E) ------------------------------------------

/// The section record after a 2.x ContainerID payload: its first 16 bytes, when present.
pub open spec fn v2_container_id_did(p: Seq<u8>, d: DisplayIdView) -> DisplayIdView {
    if p.len() < 16 {
        d
    } else {
        DisplayIdView { container_id: Some(p.subrange(0, 16)), ..d }
    }
}

/// Decodes a DisplayID 2.x ContainerID Block payload (tag `0x29`).
pub fn decode_v2_container_id_block(payload: &[u8], did: &mut DisplayIdCapabilities)
    ensures
        final(did)@ == v2_container_id_did(payload@, old(did)@),
{
    if payload.len() < 16 {
        return;
    }
    let mut uuid = [0u8; 16];
    let mut i: usize = 0;
    while i < 16
        invariant
            16 <= payload@.len(),
            i <= 16,
            uuid@.len() == 16,
            forall|j: int| 0 <= j < i ==> uuid@[j] == payload@[j],
        decreases 16 - i,
    {
        uuid[i] = payload[i];
        i = i + 1;
    }
    assert(uuid@ =~= payload@.subrange(0, 16));
    did.container_id = Some(uuid);
}

/// The section record after a 2.x Vendor-Specific payload: for payloads of at least 3
/// bytes, a record of the OUI (bytes 0–2) and the remaining bytes is appended.
pub open spec fn v2_vendor_specific_did(p: Seq<u8>, d: DisplayIdView) -> DisplayIdView {
    if p.len() < 3 {
        d
    } else {
        DisplayIdView {
            vendor_specific: d.vendor_specific.push(
                VendorSpecificView { oui: p.subrange(0, 3), data: p.subrange(3, p.len() as int) },
            ),
            ..d
        }
    }
}

/// Decodes a DisplayID 2.x Vendor-Specific Block payload (tag `0x7E`).
pub fn decode_v2_vendor_specific_block(payload: &[u8], did: &mut DisplayIdCapabilities)
    ensures
        final(did)@ == v2_vendor_specific_did(payload@, old(did)@),
{
    if payload.len() < 3 {
        return;
    }
    let oui = [payload[0], payload[1], payload[2]];
    assert(oui@ =~= payload@.subrange(0, 3));
    let data = vstd::slice::slice_to_vec(&payload[3..payload.len()]);
    let record = DisplayIdVendorSpecific { oui, data };
    let ghost before = did.vendor_specific@;
    did.vendor_specific.push(record);
    proof {
        assert(did.vendor_specific@ == before.push(record));
        assert(did@.vendor_specific =~= old(did)@.vendor_specific.push(record@));
    }
}

// --- CTA DisplayID (0x81) --------------------------------------------------------------------

/// The warnings after a 2.x CTA DisplayID block: only revision 0 is defined, so any other
/// revision adds an `UnsupportedV2BlockRevision` warning.
pub open spec fn v2_cta_warnings(revision: u8, w: Seq<EdidWarning>) -> Seq<EdidWarning> {
    if revision != 0 {
        w.push(EdidWarning::UnsupportedV2BlockRevision { tag: TAG_V2_CTA_DISPLAYID, revision })
    } else {
        w
    }
}

/// Handles a DisplayID 2.x CTA DisplayID Block (tag `0x81`) in the metadata scan: checks its
/// revision. The video modes of its CTA-861 data block collection are decoded with the
/// section's timing blocks.
pub fn decode_v2_cta_displayid_block(revision: u8, warnings: &mut Vec<EdidWarning>)
    ensures
        final(warnings)@ == v2_cta_warnings(revision, old(warnings)@),
{
    if revision != 0 {
        warnings.push(
            EdidWarning::UnsupportedV2BlockRevision { tag: TAG_V2_CTA_DISPLAYID, revision },
        );
    }
}

// --- Dispatch --------------------------------------------------------------------------------

/// The state a DisplayID 2.x section scan carries: the shared model, the section record,
/// and the handler's warnings.
pub struct V2ScanState {
    /// The shared capability model.
    pub caps: CapabilitiesView,
    /// The DisplayID section record.
    pub did: DisplayIdView,
    /// Warnings collected by the handler.
    pub warnings: Seq<EdidWarning>,
}

/// The state after one DisplayID 2.x data block with `tag`, `revision` and payload `p`;
/// tags other than the 2.x metadata tags change nothing.
pub open spec fn v2_block_decoded(tag: u8, revision: u8, p: Seq<u8>, s: V2ScanState) -> V2ScanState {
    if tag == TAG_V2_PRODUCT_ID {
        V2ScanState { caps: v2_product_id_caps(p, s.caps), did: v2_product_id_did(p, s.did), ..s }
    } else if tag == TAG_V2_DISPLAY_PARAMS {
        V2ScanState {
            caps: v2_display_params_caps(p, revision, s.caps),
            did: v2_display_params_did(p, s.did),
            ..s
        }
    } else if tag == TAG_V2_DYNAMIC_TIMING_RANGE {
        V2ScanState {
            caps: v2_timing_range_caps(p, revision, s.caps),
            did: v2_timing_range_did(p, revision, s.did),
            ..s
        }
    } else if tag == TAG_V2_INTERFACE_FEATURES {
        V2ScanState { did: v2_interface_features_did(p, s.did), ..s }
    } else if tag == TAG_V2_STEREO_INTERFACE {
        V2ScanState { did: v2_stereo_did(p, revision, s.did), ..s }
    } else if tag == TAG_V2_TILED_TOPOLOGY {
        V2ScanState { caps: tiled_topology_decoded(p, s.caps), ..s }
    } else if tag == TAG_V2_CONTAINER_ID {
        V2ScanState { did: v2_container_id_did(p, s.did), ..s }
    } else if tag == TAG_V2_VENDOR_SPECIFIC {
        V2ScanState { did: v2_vendor_specific_did(p, s.did), ..s }
    } else if tag == TAG_V2_CTA_DISPLAYID {
        V2ScanState { warnings: v2_cta_warnings(revision, s.warnings), ..s }
    } else {
        s
    }
}

/// Decodes one DisplayID 2.x data block according to its tag.
pub fn decode_v2_block(
    tag: u8,
    revision: u8,
    payload: &[u8],
    caps: &mut DisplayCapabilities,
    did: &mut DisplayIdCapabilities,
    warnings: &mut Vec<EdidWarning>,
)
    ensures
        ({
            let r = v2_block_decoded(
                tag,
                revision,
                payload@,
                V2ScanState { caps: old(caps)@, did: old(did)@, warnings: old(warnings)@ },
            );
            &&& final(caps)@ == r.caps
            &&& final(did)@ == r.did
            &&& final(warnings)@ == r.warnings
        }),
{
    if tag == TAG_V2_PRODUCT_ID {
        decode_v2_product_id_block(payload, caps, did);
    } else if tag == TAG_V2_DISPLAY_PARAMS {
        decode_v2_display_params_block(payload, revision, caps, did);
    } else if tag == TAG_V2_DYNAMIC_TIMING_RANGE {
        decode_v2_dynamic_timing_range_block(payload, revision, caps, did);
    } else if tag == TAG_V2_INTERFACE_FEATURES {
        decode_v2_interface_features_block(payload, did);
    } else if tag == TAG_V2_STEREO_INTERFACE {
        decode_v2_stereo_interface_block(payload, revision, did);
    } else if tag == TAG_V2_TILED_TOPOLOGY {
        decode_tiled_topology_block(payload, caps);
    } else if tag == TAG_V2_CONTAINER_ID {
        decode_v2_container_id_block(payload, did);
    } else if tag == TAG_V2_VENDOR_SPECIFIC {
        decode_v2_vendor_specific_block(payload, did);
    } else if tag == TAG_V2_CTA_DISPLAYID {
        decode_v2_cta_displayid_block(revision, warnings);
    }
}

/// The DisplayID 2.x block types that take effect at every occurrence; all others take
/// effect only at their first.
pub open spec fn v2_single_instance(tag: u8) -> bool {
    tag != TAG_V2_VENDOR_SPECIFIC && tag != TAG_V2_CTA_DISPLAYID
}

/// The state after the first `n` blocks of a DisplayID 2.x section scan.
pub open spec fn v2_scan_upto(
    payload: Seq<u8>,
    blocks: Seq<DataBlockSpan>,
    n: int,
    s: V2ScanState,
) -> V2ScanState
    decreases n,
{
    if n <= 0 {
        s
    } else {
        let prev = v2_scan_upto(payload, blocks, n - 1, s);
        let b = blocks[n - 1];
        if v2_single_instance(b.tag) && seen_before(blocks, n - 1, b.tag) {
            prev
        } else {
            v2_block_decoded(b.tag, b.revision, span_bytes(payload, b), prev)
        }
    }
}

/// The state after every data block of a DisplayID 2.x section payload.
pub open spec fn v2_metadata_scanned(payload: Seq<u8>, s: V2ScanState) -> V2ScanState {
    v2_scan_upto(payload, data_blocks(payload), data_blocks(payload).len() as int, s)
}

/// The state after scanning a section payload of the given DisplayID version: the 2.x
/// block types for version `0x20`, the 1.x metadata block types otherwise.
pub open spec fn all_metadata_scanned(payload: Seq<u8>, version: u8, s: V2ScanState) -> V2ScanState {
    if version == DISPLAYID_V2 {
        v2_metadata_scanned(payload, s)
    } else {
        V2ScanState { caps: metadata_scanned(payload, s.caps), ..s }
    }
}

/// Scans all DisplayID metadata blocks of a section payload in one pass, dispatching on the
/// section's version byte.
pub fn scan_all_metadata_blocks(
    payload: &[u8],
    version: u8,
    caps: &mut DisplayCapabilities,
    did: &mut DisplayIdCapabilities,
    warnings: &mut Vec<EdidWarning>,
)
    ensures
        ({
            let r = all_metadata_scanned(
                payload@,
                version,
                V2ScanState { caps: old(caps)@, did: old(did)@, warnings: old(warnings)@ },
            );
            &&& final(caps)@ == r.caps
            &&& final(did)@ == r.did
            &&& final(warnings)@ == r.warnings
        }),
{
    if version != DISPLAYID_V2 {
        scan_metadata_blocks(payload, caps);
        return;
    }
    let spans = data_block_spans(payload);
    let _len = payload.len();
    proof {
        lemma_data_blocks_in_bounds(payload@, 0);
    }
    let ghost blocks = spans@;
    let ghost start = V2ScanState { caps: caps@, did: did@, warnings: warnings@ };
    let mut seen = [false; 256];
    let mut i: usize = 0;
    while i < spans.len()
        invariant
            blocks == spans@,
            blocks == data_blocks(payload@),
            i <= spans@.len(),
            seen@.len() == 256,
            forall|t: int| 0 <= t < 256 ==> seen@[t] == seen_before(blocks, i as int, t as u8),
            forall|k: int|
                0 <= k < blocks.len() ==> {
                    let b = #[trigger] blocks[k];
                    b.start <= b.end <= payload@.len()
                },
            ({
                let r = v2_scan_upto(payload@, blocks, i as int, start);
                &&& caps@ == r.caps
                &&& did@ == r.did
                &&& warnings@ == r.warnings
            }),
        decreases spans@.len() - i,
    {
        let span = spans[i];
        assert(span == blocks[i as int]);
        let tag = span.tag;
        let block = &payload[span.start..span.end];
        if tag == TAG_V2_VENDOR_SPECIFIC || tag == TAG_V2_CTA_DISPLAYID || !seen[tag as usize] {
            decode_v2_block(tag, span.revision, block, caps, did, warnings);
        }
        seen[tag as usize] = true;
        proof {
            assert forall|t: int| 0 <= t < 256 implies seen@[t] == seen_before(
                blocks,
                i + 1,
                t as u8,
            ) by {
                if seen_before(blocks, i + 1, t as u8) && !seen_before(blocks, i as int, t as u8) {
                    let j = choose|j: int| 0 <= j < i + 1 && (#[trigger] blocks[j]).tag == t as u8;
                    assert(j == i);
                }
                if seen_before(blocks, i as int, t as u8) {
                    let j = choose|j: int| 0 <= j < i && (#[trigger] blocks[j]).tag == t as u8;
                    assert(0 <= j < i + 1 && blocks[j].tag == t as u8);
                }
                if t == tag as int {
                    assert(blocks[i as int].tag == t as u8);
                }
            }
        }
        i = i + 1;
    }
}

// ---------------------------------------------------------------------------------------------
// Laws of the section scans
// ---------------------------------------------------------------------------------------------

proof fn lemma_v1_scan_upto_ignores_v2_tags(
    payload: Seq<u8>,
    blocks: Seq<DataBlockSpan>,
    n: int,
    c: CapabilitiesView,
)
    requires
        n <= blocks.len(),
        forall|k: int| 0 <= k < blocks.len() ==> (#[trigger] blocks[k]).tag >= 0x20,
    ensures
        metadata_scan_upto(payload, blocks, n, c) == c,
    decreases n,
{
    if n > 0 {
        lemma_v1_scan_upto_ignores_v2_tags(payload, blocks, n - 1, c);
        assert(blocks[n - 1].tag >= 0x20);
    }
}

/// A DisplayID 1.x section scan ignores data blocks whose tags lie in the 2.x tag space
/// (`0x20` and up): when every block carries such a tag, the model is unchanged.
pub proof fn lemma_v1_scan_ignores_v2_tags(payload: Seq<u8>, c: CapabilitiesView)
    requires
        forall|k: int|
            0 <= k < data_blocks(payload).len() ==> (#[trigger] data_blocks(payload)[k]).tag >= 0x20,
    ensures
        metadata_scanned(payload, c) == c,
{
    lemma_v1_scan_upto_ignores_v2_tags(
        payload,
        data_blocks(payload),
        data_blocks(payload).len() as int,
        c,
    );
}

proof fn lemma_v2_scan_upto_ignores_v1_tags(
    payload: Seq<u8>,
    blocks: Seq<DataBlockSpan>,
    n: int,
    s: V2ScanState,
)
    requires
        n <= blocks.len(),
        forall|k: int| 0 <= k < blocks.len() ==> (#[trigger] blocks[k]).tag < 0x20,
    ensures
        v2_scan_upto(payload, blocks, n, s) == s,
    decreases n,
{
    if n > 0 {
        lemma_v2_scan_upto_ignores_v1_tags(payload, blocks, n - 1, s);
        assert(blocks[n - 1].tag < 0x20);
    }
}

/// A DisplayID 2.x section scan ignores data blocks with 1.x tags (below `0x20`): when
/// every block carries such a tag, the model, the section record and the warnings are
/// unchanged.
pub proof fn lemma_v2_scan_ignores_v1_tags(payload: Seq<u8>, s: V2ScanState)
    requires
        forall|k: int|
            0 <= k < data_blocks(payload).len() ==> (#[trigger] data_blocks(payload)[k]).tag < 0x20,
    ensures
        v2_metadata_scanned(payload, s) == s,
{
    lemma_v2_scan_upto_ignores_v1_tags(
        payload,
        data_blocks(payload),
        data_blocks(payload).len() as int,
        s,
    );
}

/// The vendor-specific records of the first `n` blocks: one for each 2.x Vendor-Specific
/// block of at least 3 bytes, in order.
pub open spec fn vendor_records_upto(payload: Seq<u8>, blocks: Seq<DataBlockSpan>, n: int) -> Seq<
    VendorSpecificView,
>
    decreases n,
{
    if n <= 0 {
        Seq::empty()
    } else {
        let prev = vendor_records_upto(payload, blocks, n - 1);
        let p = span_bytes(payload, blocks[n - 1]);
        if blocks[n - 1].tag == TAG_V2_VENDOR_SPECIFIC && p.len() >= 3 {
            prev.push(
                VendorSpecificView { oui: p.subrange(0, 3), data: p.subrange(3, p.len() as int) },
            )
        } else {
            prev
        }
    }
}

proof fn lemma_v2_scan_upto_vendor_records(
    payload: Seq<u8>,
    blocks: Seq<DataBlockSpan>,
    n: int,
    s: V2ScanState,
)
    requires
        0 <= n <= blocks.len(),
    ensures
        v2_scan_upto(payload, blocks, n, s).did.vendor_specific == s.did.vendor_specific
            + vendor_records_upto(payload, blocks, n),
    decreases n,
{
    if n == 0 {
        assert(s.did.vendor_specific + Seq::<VendorSpecificView>::empty() =~= s.did.vendor_specific);
    } else {
        lemma_v2_scan_upto_vendor_records(payload, blocks, n - 1, s);
        let prev = v2_scan_upto(payload, blocks, n - 1, s);
        let b = blocks[n - 1];
        let p = span_bytes(payload, b);
        if b.tag == TAG_V2_VENDOR_SPECIFIC && p.len() >= 3 {
            let rec = VendorSpecificView { oui: p.subrange(0, 3), data: p.subrange(3, p.len() as int) };
            assert(s.did.vendor_specific + vendor_records_upto(payload, blocks, n - 1).push(rec)
                =~= (s.did.vendor_specific + vendor_records_upto(payload, blocks, n - 1)).push(rec));
        }
    }
}

/// Every 2.x Vendor-Specific block of at least 3 bytes in a section contributes a record of
/// its OUI and data, in payload order, after the records that were there before; no other
/// block changes the list.
pub proof fn lemma_v2_vendor_records_in_order(payload: Seq<u8>, s: V2ScanState)
    ensures
        v2_metadata_scanned(payload, s).did.vendor_specific == s.did.vendor_specific
            + vendor_records_upto(payload, data_blocks(payload), data_blocks(payload).len() as int),
{
    lemma_v2_scan_upto_vendor_records(
        payload,
        data_blocks(payload),
        data_blocks(payload).len() as int,
        s,
    );
}

proof fn lemma_seen_before_prefix(a: Seq<DataBlockSpan>, b: Seq<DataBlockSpan>, n: int, t: u8)
    requires
        0 <= n <= a.len(),
        n <= b.len(),
        forall|j: int| 0 <= j < n ==> a[j] == b[j],
    ensures
        seen_before(a, n, t) == seen_before(b, n, t),
{
    if seen_before(a, n, t) {
        let j = choose|j: int| 0 <= j < n && (#[trigger] a[j]).tag == t;
        assert(b[j] == a[j]);
    }
    if seen_before(b, n, t) {
        let j = choose|j: int| 0 <= j < n && (#[trigger] b[j]).tag == t;
        assert(a[j] == b[j]);
    }
}

proof fn lemma_seen_before_remove(blocks: Seq<DataBlockSpan>, k: int, m: int, t: u8)
    requires
        0 <= k < m <= blocks.len(),
        seen_before(blocks, k, blocks[k].tag),
    ensures
        seen_before(blocks, m, t) == seen_before(blocks.remove(k), m - 1, t),
{
    let r = blocks.remove(k);
    if seen_before(blocks, m, t) {
        let j = choose|j: int| 0 <= j < m && (#[trigger] blocks[j]).tag == t;
        if j < k {
            assert(r[j] == blocks[j]);
        } else if j == k {
            let j2 = choose|j2: int| 0 <= j2 < k && (#[trigger] blocks[j2]).tag == blocks[k].tag;
            assert(r[j2] == blocks[j2]);
        } else {
            assert(r[j - 1] == blocks[j]);
        }
    }
    if seen_before(r, m - 1, t) {
        let j = choose|j: int| 0 <= j < m - 1 && (#[trigger] r[j]).tag == t;
        if j < k {
            assert(blocks[j] == r[j]);
        } else {
            assert(blocks[j + 1] == r[j]);
        }
    }
}

proof fn lemma_v1_scan_prefix(
    payload: Seq<u8>,
    a: Seq<DataBlockSpan>,
    b: Seq<DataBlockSpan>,
    n: int,
    c: CapabilitiesView,
)
    requires
        0 <= n <= a.len(),
        n <= b.len(),
        forall|j: int| 0 <= j < n ==> a[j] == b[j],
    ensures
        metadata_scan_upto(payload, a, n, c) == metadata_scan_upto(payload, b, n, c),
    decreases n,
{
    if n > 0 {
        lemma_v1_scan_prefix(payload, a, b, n - 1, c);
        lemma_seen_before_prefix(a, b, n - 1, a[n - 1].tag);
    }
}

proof fn lemma_v1_scan_remove_repeat(
    payload: Seq<u8>,
    blocks: Seq<DataBlockSpan>,
    k: int,
    n: int,
    c: CapabilitiesView,
)
    requires
        0 <= k < n <= blocks.len(),
        blocks[k].tag != TAG_ASCII_STRING,
        seen_before(blocks, k, blocks[k].tag),
    ensures
        metadata_scan_upto(payload, blocks, n, c) == metadata_scan_upto(
            payload,
            blocks.remove(k),
            n - 1,
            c,
        ),
    decreases n,
{
    let r = blocks.remove(k);
    if n == k + 1 {
        lemma_v1_scan_prefix(payload, blocks, r, k, c);
    } else {
        lemma_v1_scan_remove_repeat(payload, blocks, k, n - 1, c);
        assert(r[n - 2] == blocks[n - 1]);
        lemma_seen_before_remove(blocks, k, n - 1, blocks[n - 1].tag);
    }
}

/// First wins, DisplayID 1.x: a block whose single-instance type (any metadata type but the
/// ASCII string) already occurred earlier in the section has no effect; the scan gives the
/// same model as the scan of the section's blocks with that block taken out.
pub proof fn lemma_v1_repeated_block_ignored(payload: Seq<u8>, k: int, c: CapabilitiesView)
    requires
        0 <= k < data_blocks(payload).len(),
        data_blocks(payload)[k].tag != TAG_ASCII_STRING,
        seen_before(data_blocks(payload), k, data_blocks(payload)[k].tag),
    ensures
        metadata_scanned(payload, c) == metadata_scan_upto(
            payload,
            data_blocks(payload).remove(k),
            data_blocks(payload).len() - 1,
            c,
        ),
{
    lemma_v1_scan_remove_repeat(
        payload,
        data_blocks(payload),
        k,
        data_blocks(payload).len() as int,
        c,
    );
}

proof fn lemma_v2_scan_prefix(
    payload: Seq<u8>,
    a: Seq<DataBlockSpan>,
    b: Seq<DataBlockSpan>,
    n: int,
    s: V2ScanState,
)
    requires
        0 <= n <= a.len(),
        n <= b.len(),
        forall|j: int| 0 <= j < n ==> a[j] == b[j],
    ensures
        v2_scan_upto(payload, a, n, s) == v2_scan_upto(payload, b, n, s),
    decreases n,
{
    if n > 0 {
        lemma_v2_scan_prefix(payload, a, b, n - 1, s);
        lemma_seen_before_prefix(a, b, n - 1, a[n - 1].tag);
    }
}

proof fn lemma_v2_scan_remove_repeat(
    payload: Seq<u8>,
    blocks: Seq<DataBlockSpan>,
    k: int,
    n: int,
    s: V2ScanState,
)
    requires
        0 <= k < n <= blocks.len(),
        v2_single_instance(blocks[k].tag),
        seen_before(blocks, k, blocks[k].tag),
    ensures
        v2_scan_upto(payload, blocks, n, s) == v2_scan_upto(payload, blocks.remove(k), n - 1, s),
    decreases n,
{
    let r = blocks.remove(k);
    if n == k + 1 {
        lemma_v2_scan_prefix(payload, blocks, r, k, s);
    } else {
        lemma_v2_scan_remove_repeat(payload, blocks, k, n - 1, s);
        assert(r[n - 2] == blocks[n - 1]);
        lemma_seen_before_remove(blocks, k, n - 1, blocks[n - 1].tag);
    }
}

/// First wins, DisplayID 2.x: a block whose single-instance type (any 2.x type but the
/// vendor-specific and CTA blocks) already occurred earlier in the section has no effect;
/// the scan gives the same state as the scan of the section's blocks with that block taken
/// out.
pub proof fn lemma_v2_repeated_block_ignored(payload: Seq<u8>, k: int, s: V2ScanState)
    requires
        0 <= k < data_blocks(payload).len(),
        v2_single_instance(data_blocks(payload)[k].tag),
        seen_before(data_blocks(payload), k, data_blocks(payload)[k].tag),
    ensures
        v2_metadata_scanned(payload, s) == v2_scan_upto(
            payload,
            data_blocks(payload).remove(k),
            data_blocks(payload).len() - 1,
            s,
        ),
{
    lemma_v2_scan_remove_repeat(
        payload,
        data_blocks(payload),
        k,
        data_blocks(payload).len() as int,
        s,
    );
}

/// Decoding a 1.x metadata block leaves the mode list as it is.
pub proof fn lemma_block_decoded_keeps_modes(tag: u8, p: Seq<u8>, c: CapabilitiesView)
    ensures
        block_decoded(tag, p, c).supported_modes == c.supported_modes,
{
}

/// Scanning 1.x metadata blocks leaves the mode list as it is.
pub proof fn lemma_metadata_scan_keeps_modes(
    payload: Seq<u8>,
    blocks: Seq<DataBlockSpan>,
    n: int,
    c: CapabilitiesView,
)
    ensures
        metadata_scan_upto(payload, blocks, n, c).supported_modes == c.supported_modes,
    decreases n,
{
    if n > 0 {
        lemma_metadata_scan_keeps_modes(payload, blocks, n - 1, c);
        let prev = metadata_scan_upto(payload, blocks, n - 1, c);
        let b = blocks[n - 1];
        lemma_block_decoded_keeps_modes(b.tag, span_bytes(payload, b), prev);
    }
}

/// Decoding a 2.x data block leaves the mode list as it is.
pub proof fn lemma_v2_block_decoded_keeps_modes(tag: u8, revision: u8, p: Seq<u8>, s: V2ScanState)
    ensures
        v2_block_decoded(tag, revision, p, s).caps.supported_modes == s.caps.supported_modes,
{
}

/// Scanning 2.x data blocks leaves the mode list as it is.
pub proof fn lemma_v2_scan_keeps_modes(
    payload: Seq<u8>,
    blocks: Seq<DataBlockSpan>,
    n: int,
    s: V2ScanState,
)
    ensures
        v2_scan_upto(payload, blocks, n, s).caps.supported_modes == s.caps.supported_modes,
    decreases n,
{
    if n > 0 {
        lemma_v2_scan_keeps_modes(payload, blocks, n - 1, s);
        let prev = v2_scan_upto(payload, blocks, n - 1, s);
        let b = blocks[n - 1];
        lemma_v2_block_decoded_keeps_modes(b.tag, b.revision, span_bytes(payload, b), prev);
    }
}

/// Scanning the metadata blocks of a section, of either version, leaves the mode list as it
/// is: modes come from timing blocks only.
pub proof fn lemma_metadata_keeps_modes(payload: Seq<u8>, version: u8, s: V2ScanState)
    ensures
        all_metadata_scanned(payload, version, s).caps.supported_modes == s.caps.supported_modes,
{
    let blocks = data_blocks(payload);
    lemma_metadata_scan_keeps_modes(payload, blocks, blocks.len() as int, s.caps);
    lemma_v2_scan_keeps_modes(payload, blocks, blocks.len() as int, s);
}

proof fn lemma_v1_scan_payload(
    t: Seq<u8>,
    q: Seq<u8>,
    blocks: Seq<DataBlockSpan>,
    n: int,
    c: CapabilitiesView,
)
    requires
        n <= blocks.len(),
        q.len() <= t.len(),
        t.subrange(0, q.len() as int) == q,
        forall|j: int| 0 <= j < n ==> #[trigger] blocks[j].start <= blocks[j].end <= q.len(),
    ensures
        metadata_scan_upto(t, blocks, n, c) == metadata_scan_upto(q, blocks, n, c),
    decreases n,
{
    if n > 0 {
        lemma_v1_scan_payload(t, q, blocks, n - 1, c);
        let b = blocks[n - 1];
        assert(b.start <= b.end <= q.len());
        assert(span_bytes(t, b) =~= span_bytes(q, b));
    }
}

proof fn lemma_v1_scan_foreign_tail(
    t: Seq<u8>,
    blocks: Seq<DataBlockSpan>,
    m: int,
    n: int,
    c: CapabilitiesView,
)
    requires
        0 <= m <= n <= blocks.len(),
        forall|j: int| m <= j < n ==> (#[trigger] blocks[j]).tag >= 0x20,
    ensures
        metadata_scan_upto(t, blocks, n, c) == metadata_scan_upto(t, blocks, m, c),
    decreases n,
{
    if n > m {
        lemma_v1_scan_foreign_tail(t, blocks, m, n - 1, c);
        assert(blocks[n - 1].tag >= 0x20);
    }
}

proof fn lemma_v2_scan_payload(
    t: Seq<u8>,
    q: Seq<u8>,
    blocks: Seq<DataBlockSpan>,
    n: int,
    st: V2ScanState,
)
    requires
        n <= blocks.len(),
        q.len() <= t.len(),
        t.subrange(0, q.len() as int) == q,
        forall|j: int| 0 <= j < n ==> #[trigger] blocks[j].start <= blocks[j].end <= q.len(),
    ensures
        v2_scan_upto(t, blocks, n, st) == v2_scan_upto(q, blocks, n, st),
    decreases n,
{
    if n > 0 {
        lemma_v2_scan_payload(t, q, blocks, n - 1, st);
        let b = blocks[n - 1];
        assert(b.start <= b.end <= q.len());
        assert(span_bytes(t, b) =~= span_bytes(q, b));
    }
}

proof fn lemma_v2_scan_foreign_tail(
    t: Seq<u8>,
    blocks: Seq<DataBlockSpan>,
    m: int,
    n: int,
    st: V2ScanState,
)
    requires
        0 <= m <= n <= blocks.len(),
        forall|j: int| m <= j < n ==> (#[trigger] blocks[j]).tag < 0x20,
    ensures
        v2_scan_upto(t, blocks, n, st) == v2_scan_upto(t, blocks, m, st),
    decreases n,
{
    if n > m {
        lemma_v2_scan_foreign_tail(t, blocks, m, n - 1, st);
        assert(blocks[n - 1].tag < 0x20);
    }
}

/// Appending data blocks whose tags the section's version does not decode (`0x20` and up
/// for 1.x sections, below `0x20` for 2.x sections) after whole data blocks leaves the
/// metadata scan's model, section record and warnings as they are.
pub proof fn lemma_foreign_blocks_ignored(q: Seq<u8>, r: Seq<u8>, version: u8, st: V2ScanState)
    requires
        whole_blocks_from(q, 0),
        q.len() + r.len() <= usize::MAX,
        forall|k: int|
            0 <= k < data_blocks(r).len() ==> if version == DISPLAYID_V2 {
                (#[trigger] data_blocks(r)[k]).tag < 0x20
            } else {
                data_blocks(r)[k].tag >= 0x20
            },
    ensures
        all_metadata_scanned(q + r, version, st) == all_metadata_scanned(q, version, st),
{
    let t = q + r;
    lemma_data_blocks_append(q, r, 0);
    let bq = data_blocks(q);
    let bt = data_blocks(t);
    let sr = shift_spans(data_blocks(r), q.len() as int);
    assert(bt == bq + sr);
    lemma_data_blocks_in_bounds(q, 0);
    assert(t.subrange(0, q.len() as int) =~= q);
    let nq = bq.len() as int;
    assert forall|j: int| 0 <= j < nq implies bt[j] == bq[j] by {}
    assert forall|j: int| 0 <= j < nq implies #[trigger] bq[j].start <= bq[j].end <= q.len() by {
        let b = bq[j];
        assert(b.start <= b.end <= q.len());
    }
    if version == DISPLAYID_V2 {
        assert forall|j: int| nq <= j < bt.len() implies (#[trigger] bt[j]).tag < 0x20 by {
            assert(bt[j] == sr[j - nq]);
            assert(data_blocks(r)[j - nq].tag < 0x20);
        }
        lemma_v2_scan_foreign_tail(t, bt, nq, bt.len() as int, st);
        lemma_v2_scan_prefix(t, bt, bq, nq, st);
        lemma_v2_scan_payload(t, q, bq, nq, st);
    } else {
        assert forall|j: int| nq <= j < bt.len() implies (#[trigger] bt[j]).tag >= 0x20 by {
            assert(bt[j] == sr[j - nq]);
            assert(data_blocks(r)[j - nq].tag >= 0x20);
        }
        lemma_v1_scan_foreign_tail(t, bt, nq, bt.len() as int, st.caps);
        lemma_v1_scan_prefix(t, bt, bq, nq, st.caps);
        lemma_v1_scan_payload(t, q, bq, nq, st.caps);
    }
}

} // verus!
