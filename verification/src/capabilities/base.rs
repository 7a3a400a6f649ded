//! Decoding of the 128-byte EDID base block header fields.

use vstd::prelude::*;

use crate::capabilities::displayid::metadata::{
    le16, le32, lemma_le16_parts, lemma_le24_le32_parts, lemma_pnp_letters, pnp_id,
};
use crate::model::capabilities::{CapabilitiesView, DisplayCapabilities};
use crate::model::color::{lemma_depth_code_bits, ColorBitDepth};
use crate::model::diagnostics::EdidWarning;
use crate::model::edid::EdidVersion;
use crate::model::input::VideoInterface;
use crate::model::manufacture::{ManufactureDate, ManufacturerId};
use crate::model::screen::ScreenSize;

verus! {

/// The model and warnings after the base block `b`.
///
/// Manufacturer (bytes 8–9, PNP; an invalid ID gives `InvalidManufacturerId` and leaves the
/// field as it was), product code (bytes 10–11, little-endian), serial number (bytes 12–15,
/// when non-zero), manufacture date (bytes 16–17, year from 1990), EDID version
/// (bytes 18–19), digital input (byte 20 bit 7), and for digital inputs the color depth
/// (byte 20 bits 6–4) and interface type (byte 20 bits 3–0), and the screen size
/// (bytes 21–22).
pub open spec fn base_decoded(
    b: Seq<u8>,
    c: CapabilitiesView,
    w: Seq<EdidWarning>,
) -> (CapabilitiesView, Seq<EdidWarning>) {
    let (c1, w1) = match pnp_id(b[8], b[9]) {
        Some(id) => (CapabilitiesView { manufacturer: Some(id), ..c }, w),
        None => (c, w.push(EdidWarning::InvalidManufacturerId)),
    };
    let c2 = CapabilitiesView { product_code: Some(le16(b[10], b[11])), ..c1 };
    let c3 = if le32(b[12], b[13], b[14], b[15]) != 0 {
        CapabilitiesView { serial_number: Some(le32(b[12], b[13], b[14], b[15])), ..c2 }
    } else {
        c2
    };
    let digital = (b[20] & 0x80) != 0;
    let c4 = CapabilitiesView {
        manufacture_date: Some(ManufactureDate::spec_from_bytes(b[16], b[17], 1990)),
        edid_version: Some(EdidVersion { version: b[18], revision: b[19] }),
        digital,
        color_bit_depth: if digital {
            ColorBitDepth::spec_from_edid_bits((b[20] >> 4) & 0x07)
        } else {
            None
        },
        video_interface: if digital {
            VideoInterface::spec_from_edid_bits(b[20] & 0x0F)
        } else {
            None
        },
        screen_size: ScreenSize::spec_from_edid_bytes(b[21], b[22]),
        ..c3
    };
    (c4, w1)
}

/// The base block's identity fields: the manufacturer is the three PNP letters packed
/// five bits each into the big-endian word at bytes 8–9 (1 for `A`), and when one of them
/// lies outside 1–26 the manufacturer is left as it was and `InvalidManufacturerId` is
/// warned, the only warning; the product code is the little-endian word at bytes 10–11; the
/// serial number is the little-endian 32-bit value at bytes 12–15 when it is non-zero; the
/// manufacture date has year 1990 + byte 17 and is a model year exactly when byte 16 is
/// `0xFF`, and otherwise byte 16 is the week, zero for none; the EDID version and revision
/// are bytes 18 and 19. No field but these and the input and screen size fields changes.
pub proof fn lemma_base_identity_fields(b: Seq<u8>, c: CapabilitiesView, w: Seq<EdidWarning>)
    requires
        b.len() == 128,
    ensures
        ({
            let (r, warnings) = base_decoded(b, c, w);
            let serial = b[12] + 256 * b[13] + 65536 * b[14] + 16777216 * b[15];
            let l1 = (b[8] / 4) % 32;
            let l2 = (b[8] % 4) * 8 + b[9] / 32;
            let l3 = b[9] % 32;
            let letters_valid = 1 <= l1 <= 26 && 1 <= l2 <= 26 && 1 <= l3 <= 26;
            &&& letters_valid ==> r.manufacturer == Some(
                seq![(l1 + 64) as u8, (l2 + 64) as u8, (l3 + 64) as u8],
            ) && warnings == w
            &&& !letters_valid ==> r.manufacturer == c.manufacturer && warnings == w.push(
                EdidWarning::InvalidManufacturerId,
            )
            &&& r.product_code == Some((b[10] + 256 * b[11]) as u16)
            &&& serial != 0 ==> r.serial_number == Some(serial as u32)
            &&& serial == 0 ==> r.serial_number == c.serial_number
            &&& b[16] == 0xFF ==> r.manufacture_date == Some(
                ManufactureDate::ModelYear((1990 + b[17]) as u16),
            )
            &&& b[16] == 0 ==> r.manufacture_date == Some(
                ManufactureDate::Manufactured { week: None, year: (1990 + b[17]) as u16 },
            )
            &&& b[16] != 0 && b[16] != 0xFF ==> r.manufacture_date == Some(
                ManufactureDate::Manufactured { week: Some(b[16]), year: (1990 + b[17]) as u16 },
            )
            &&& r.edid_version == Some(EdidVersion { version: b[18], revision: b[19] })
            &&& r == (CapabilitiesView {
                manufacturer: r.manufacturer,
                product_code: r.product_code,
                serial_number: r.serial_number,
                manufacture_date: r.manufacture_date,
                edid_version: r.edid_version,
                digital: r.digital,
                color_bit_depth: r.color_bit_depth,
                video_interface: r.video_interface,
                screen_size: r.screen_size,
                ..c
            })
        }),
{
    lemma_pnp_letters(b[8], b[9]);
    lemma_le16_parts(b[10], b[11]);
    lemma_le24_le32_parts(b[12], b[13], b[14], b[15]);
    ManufactureDate::lemma_date_fields(b[16], b[17], 1990);
}

/// The base block's input fields: the display is digital exactly when byte 20 bit 7 is set;
/// a digital display's video interface is DVI, HDMI-a, HDMI-b, MDDI or DisplayPort exactly
/// when the low nibble of byte 20 is 1, 2, 3, 4 or 5, and none otherwise; a digital
/// display's color depth is 2 × code + 4 bits per primary for a code of 1–6 in byte 20 bits
/// 6–4, and none for 0 or 7; an analog display has neither. The screen size is `width_cm × height_cm` from bytes 21 and 22 when both are
/// non-zero.
pub proof fn lemma_base_input_fields(b: Seq<u8>, c: CapabilitiesView, w: Seq<EdidWarning>)
    requires
        b.len() == 128,
    ensures
        ({
            let r = base_decoded(b, c, w).0;
            &&& r.digital == (b[20] >= 128)
            &&& (b[20] >= 128 ==> {
                &&& (r.video_interface == Some(VideoInterface::Dvi)) == (b[20] % 16 == 1)
                &&& (r.video_interface == Some(VideoInterface::HdmiA)) == (b[20] % 16 == 2)
                &&& (r.video_interface == Some(VideoInterface::HdmiB)) == (b[20] % 16 == 3)
                &&& (r.video_interface == Some(VideoInterface::Mddi)) == (b[20] % 16 == 4)
                &&& (r.video_interface == Some(VideoInterface::DisplayPort)) == (b[20] % 16 == 5)
                &&& (r.video_interface is None) == (b[20] % 16 == 0 || b[20] % 16 >= 6)
            })
            &&& (b[20] < 128 ==> r.video_interface is None)
            &&& (b[20] >= 128 && 1 <= (b[20] / 16) % 8 <= 6 ==> (r.color_bit_depth matches Some(d)
                && d.spec_bits_per_primary() == 2 * ((b[20] / 16) % 8) + 4))
            &&& (b[20] >= 128 && ((b[20] / 16) % 8 == 0 || (b[20] / 16) % 8 == 7)
                ==> r.color_bit_depth is None)
            &&& (b[20] < 128 ==> r.color_bit_depth is None)
            &&& (b[21] != 0 && b[22] != 0 ==> r.screen_size == Some(
                ScreenSize::Physical { width_cm: b[21], height_cm: b[22] },
            ))
            &&& (b[21] == 0 && b[22] == 0 ==> r.screen_size is None)
            &&& (b[21] != 0 && b[22] == 0 ==> r.screen_size == Some(ScreenSize::Landscape(b[21])))
            &&& (b[21] == 0 && b[22] != 0 ==> r.screen_size == Some(ScreenSize::Portrait(b[22])))
        }),
{
    let b20 = b[20];
    assert(((b20 & 0x80) != 0) == (b20 >= 128) && (b20 & 0x0F) % 16 == b20 % 16 && ((b20 >> 4)
        & 0x07) & 7 == (b20 / 16) % 8) by (bit_vector);
    lemma_depth_code_bits((b20 >> 4) & 0x07);
    VideoInterface::lemma_codes(b20 & 0x0F, b20);
}

/// Decodes the header fields of the EDID base block into `caps`.
pub fn decode_base_block(block: &[u8; 128], caps: &mut DisplayCapabilities, warnings: &mut Vec<EdidWarning>)
    ensures
        (final(caps)@, final(warnings)@) == base_decoded(block@, old(caps)@, old(warnings)@),
{
    let id_raw = ((block[8] as u16) << 8) | (block[9] as u16);
    let char1 = ((id_raw >> 10) & 0x1F) as u8;
    let char2 = ((id_raw >> 5) & 0x1F) as u8;
    let char3 = (id_raw & 0x1F) as u8;
    if 1 <= char1 && char1 <= 26 && 1 <= char2 && char2 <= 26 && 1 <= char3 && char3 <= 26 {
        let id = ManufacturerId([char1 + 64, char2 + 64, char3 + 64]);
        assert(id.0@ =~= pnp_id(block@[8], block@[9]).unwrap());
        caps.manufacturer = Some(id);
    } else {
        warnings.push(EdidWarning::InvalidManufacturerId);
    }
    caps.product_code = Some((block[10] as u16) | ((block[11] as u16) << 8));
    let sn = (block[12] as u32) | ((block[13] as u32) << 8) | ((block[14] as u32) << 16) | ((
    block[15] as u32) << 24);
    if sn != 0 {
        caps.serial_number = Some(sn);
    }
    caps.manufacture_date = Some(ManufactureDate::from_edid_bytes(block[16], block[17]));
    caps.edid_version = Some(EdidVersion { version: block[18], revision: block[19] });
    let input = block[20];
    let digital = (input & 0x80) != 0;
    caps.digital = digital;
    if digital {
        caps.color_bit_depth = ColorBitDepth::from_edid_bits((input >> 4) & 0x07);
        caps.video_interface = VideoInterface::from_edid_bits(input & 0x0F);
    } else {
        caps.color_bit_depth = None;
        caps.video_interface = None;
    }
    caps.screen_size = ScreenSize::from_edid_bytes(block[21], block[22]);
}

} // verus!
