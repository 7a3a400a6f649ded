use vstd::prelude::*;

verus! {

/// Physical screen dimensions or aspect ratio, decoded from EDID base block bytes `0x15`–`0x16`.
#[derive(Debug, Clone, Copy, PartialEq, Eq, Structural)]
pub enum ScreenSize {
    /// Physical screen dimensions in centimetres.
    Physical {
        /// Horizontal size in cm.
        width_cm: u8,
        /// Vertical size in cm.
        height_cm: u8,
    },
    /// Landscape aspect ratio, raw byte (`(raw + 99) / 100` = width ÷ height).
    Landscape(u8),
    /// Portrait aspect ratio, raw byte (`100 / (raw + 99)` = width ÷ height).
    Portrait(u8),
}

impl ScreenSize {
    /// Both bytes non-zero give a physical size, one of them zero a ratio, both zero nothing.
    pub open spec fn spec_from_edid_bytes(byte15: u8, byte16: u8) -> Option<ScreenSize> {
        if byte15 == 0 && byte16 == 0 {
            None
        } else if byte15 != 0 && byte16 != 0 {
            Some(ScreenSize::Physical { width_cm: byte15, height_cm: byte16 })
        } else if byte16 == 0 {
            Some(ScreenSize::Landscape(byte15))
        } else {
            Some(ScreenSize::Portrait(byte16))
        }
    }

    /// Decodes bytes `0x15` and `0x16` of the EDID base block.
    pub fn from_edid_bytes(byte15: u8, byte16: u8) -> (r: Option<Self>)
        ensures
            r == Self::spec_from_edid_bytes(byte15, byte16),
    {
        if byte15 == 0 && byte16 == 0 {
            None
        } else if byte15 != 0 && byte16 != 0 {
            Some(Self::Physical { width_cm: byte15, height_cm: byte16 })
        } else if byte16 == 0 {
            Some(Self::Landscape(byte15))
        } else {
            Some(Self::Portrait(byte16))
        }
    }
}

} // verus!
