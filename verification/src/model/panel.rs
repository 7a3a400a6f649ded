use vstd::prelude::*;

verus! {

/// Display technology type, decoded from Display Device Data Block (0x0C) byte 0 bits 7:4.
#[derive(Debug, Clone, Copy, PartialEq, Eq, Structural)]
pub enum DisplayTechnology {
    /// Thin-film transistor LCD, unspecified sub-type (`0`).
    Tft,
    /// DSTN or STN (dual-scan or super-twisted nematic LCD) (`1`).
    DstnStn,
    /// TFT-IPS or super-TFT (in-plane switching) (`2`).
    TftIps,
    /// TFT-MVA or TFT-PVA (`3`).
    TftMva,
    /// CRT (cathode ray tube) (`4`).
    Crt,
    /// PDP (plasma display panel) (`5`).
    Pdp,
    /// OLED or ELED (organic light emitting) (`6`).
    Oled,
    /// EL (electroluminescent) (`7`).
    El,
    /// FED or SED (`8`).
    FedSed,
    /// LCoS (liquid crystal on silicon) (`9`).
    Lcos,
    /// Reserved or undefined value (`10`–`15`).
    Unknown(u8),
}

impl DisplayTechnology {
    /// The technology that the low four bits of `nibble` denote.
    pub open spec fn spec_from_nibble(nibble: u8) -> DisplayTechnology {
        let v = nibble & 0x0F;
        if v == 0 {
            DisplayTechnology::Tft
        } else if v == 1 {
            DisplayTechnology::DstnStn
        } else if v == 2 {
            DisplayTechnology::TftIps
        } else if v == 3 {
            DisplayTechnology::TftMva
        } else if v == 4 {
            DisplayTechnology::Crt
        } else if v == 5 {
            DisplayTechnology::Pdp
        } else if v == 6 {
            DisplayTechnology::Oled
        } else if v == 7 {
            DisplayTechnology::El
        } else if v == 8 {
            DisplayTechnology::FedSed
        } else if v == 9 {
            DisplayTechnology::Lcos
        } else {
            DisplayTechnology::Unknown(v)
        }
    }

    /// The codes in the low 4 bits of `nibble` name the values one to one: 0 Tft, 1 DstnStn, 2 TftIps, 3 TftMva, 4 Crt, 5 Pdp, 6 Oled, 7 El, 8 FedSed, 9 Lcos; every other code is kept as the Unknown value.
    pub proof fn lemma_codes(nibble: u8)
        ensures
            (Self::spec_from_nibble(nibble) == DisplayTechnology::Tft) == (nibble % 16 == 0),
            (Self::spec_from_nibble(nibble) == DisplayTechnology::DstnStn) == (nibble % 16 == 1),
            (Self::spec_from_nibble(nibble) == DisplayTechnology::TftIps) == (nibble % 16 == 2),
            (Self::spec_from_nibble(nibble) == DisplayTechnology::TftMva) == (nibble % 16 == 3),
            (Self::spec_from_nibble(nibble) == DisplayTechnology::Crt) == (nibble % 16 == 4),
            (Self::spec_from_nibble(nibble) == DisplayTechnology::Pdp) == (nibble % 16 == 5),
            (Self::spec_from_nibble(nibble) == DisplayTechnology::Oled) == (nibble % 16 == 6),
            (Self::spec_from_nibble(nibble) == DisplayTechnology::El) == (nibble % 16 == 7),
            (Self::spec_from_nibble(nibble) == DisplayTechnology::FedSed) == (nibble % 16 == 8),
            (Self::spec_from_nibble(nibble) == DisplayTechnology::Lcos) == (nibble % 16 == 9),
            nibble % 16 >= 10 ==> Self::spec_from_nibble(nibble) == DisplayTechnology::Unknown((nibble % 16) as u8),
    {
        assert(nibble & 15 == nibble % 16) by (bit_vector);
    }

    /// Decodes the display technology from a 4-bit nibble (upper bits are ignored).
    pub fn from_nibble(nibble: u8) -> (r: Self)
        ensures
            r == Self::spec_from_nibble(nibble),
    {
        match nibble & 0x0F {
            0 => Self::Tft,
            1 => Self::DstnStn,
            2 => Self::TftIps,
            3 => Self::TftMva,
            4 => Self::Crt,
            5 => Self::Pdp,
            6 => Self::Oled,
            7 => Self::El,
            8 => Self::FedSed,
            9 => Self::Lcos,
            v => Self::Unknown(v),
        }
    }
}

/// Panel operating mode, decoded from Display Device Data Block (0x0C) byte 1 bits 3:0.
#[derive(Debug, Clone, Copy, PartialEq, Eq, Structural)]
pub enum OperatingMode {
    /// Continuous (free-running) refresh (`0`).
    Continuous,
    /// Non-continuous (event-driven) refresh (`1`).
    NonContinuous,
    /// Reserved or undefined value (`2`–`15`).
    Unknown(u8),
}

impl OperatingMode {
    /// The operating mode that the low four bits of `nibble` denote.
    pub open spec fn spec_from_nibble(nibble: u8) -> OperatingMode {
        let v = nibble & 0x0F;
        if v == 0 {
            OperatingMode::Continuous
        } else if v == 1 {
            OperatingMode::NonContinuous
        } else {
            OperatingMode::Unknown(v)
        }
    }

    /// The codes in the low 4 bits of `nibble` name the values one to one: 0 Continuous, 1 NonContinuous; every other code is kept as the Unknown value.
    pub proof fn lemma_codes(nibble: u8)
        ensures
            (Self::spec_from_nibble(nibble) == OperatingMode::Continuous) == (nibble % 16 == 0),
            (Self::spec_from_nibble(nibble) == OperatingMode::NonContinuous) == (nibble % 16 == 1),
            nibble % 16 >= 2 ==> Self::spec_from_nibble(nibble) == OperatingMode::Unknown((nibble % 16) as u8),
    {
        assert(nibble & 15 == nibble % 16) by (bit_vector);
    }

    /// Decodes the operating mode from the lower 4 bits of `nibble`.
    pub fn from_nibble(nibble: u8) -> (r: Self)
        ensures
            r == Self::spec_from_nibble(nibble),
    {
        match nibble & 0x0F {
            0 => Self::Continuous,
            1 => Self::NonContinuous,
            v => Self::Unknown(v),
        }
    }
}

/// Backlight type, decoded from Display Device Data Block (0x0C) byte 1 bits 5:4.
#[derive(Debug, Clone, Copy, PartialEq, Eq, Structural)]
pub enum BacklightType {
    /// No backlight, or not applicable (`0`).
    NoBacklight,
    /// AC fluorescent (CCFL) backlight (`1`).
    AcFluorescent,
    /// DC-powered backlight (`2`).
    Dc,
    /// Reserved value (`3`).
    Unknown(u8),
}

impl BacklightType {
    /// The backlight type that the low two bits of `bits` denote.
    pub open spec fn spec_from_bits(bits: u8) -> BacklightType {
        let v = bits & 0x03;
        if v == 0 {
            BacklightType::NoBacklight
        } else if v == 1 {
            BacklightType::AcFluorescent
        } else if v == 2 {
            BacklightType::Dc
        } else {
            BacklightType::Unknown(v)
        }
    }

    /// The codes in the low 2 bits of `bits` name the values one to one: 0 NoBacklight, 1 AcFluorescent, 2 Dc; every other code is kept as the Unknown value.
    pub proof fn lemma_codes(bits: u8)
        ensures
            (Self::spec_from_bits(bits) == BacklightType::NoBacklight) == (bits % 4 == 0),
            (Self::spec_from_bits(bits) == BacklightType::AcFluorescent) == (bits % 4 == 1),
            (Self::spec_from_bits(bits) == BacklightType::Dc) == (bits % 4 == 2),
            bits % 4 >= 3 ==> Self::spec_from_bits(bits) == BacklightType::Unknown((bits % 4) as u8),
    {
        assert(bits & 3 == bits % 4) by (bit_vector);
    }

    /// Decodes the backlight type from a 2-bit value (upper bits are ignored).
    pub fn from_bits(bits: u8) -> (r: Self)
        ensures
            r == Self::spec_from_bits(bits),
    {
        match bits & 0x03 {
            0 => Self::NoBacklight,
            1 => Self::AcFluorescent,
            2 => Self::Dc,
            v => Self::Unknown(v),
        }
    }
}

/// Physical mounting orientation of the panel (Display Device Data Block byte 7 bits 1:0).
#[derive(Debug, Clone, Copy, PartialEq, Eq, Structural)]
pub enum PhysicalOrientation {
    /// Landscape (`0`).
    Landscape,
    /// Portrait (`1`).
    Portrait,
    /// Orientation not defined; may be freely rotated (`2`).
    NotDefined,
    /// Undefined / reserved encoding (`3`).
    Undefined,
}

impl PhysicalOrientation {
    /// The orientation that the low two bits of `bits` denote.
    pub open spec fn spec_from_bits(bits: u8) -> PhysicalOrientation {
        let v = bits & 0x03;
        if v == 0 {
            PhysicalOrientation::Landscape
        } else if v == 1 {
            PhysicalOrientation::Portrait
        } else if v == 2 {
            PhysicalOrientation::NotDefined
        } else {
            PhysicalOrientation::Undefined
        }
    }

    /// The codes in the low 2 bits of `bits` name the values one to one: 0 Landscape, 1 Portrait, 2 NotDefined; the remaining codes name Undefined.
    pub proof fn lemma_codes(bits: u8)
        ensures
            (Self::spec_from_bits(bits) == PhysicalOrientation::Landscape) == (bits % 4 == 0),
            (Self::spec_from_bits(bits) == PhysicalOrientation::Portrait) == (bits % 4 == 1),
            (Self::spec_from_bits(bits) == PhysicalOrientation::NotDefined) == (bits % 4 == 2),
            (Self::spec_from_bits(bits) == PhysicalOrientation::Undefined) == (bits % 4 >= 3),
    {
        assert(bits & 3 == bits % 4) by (bit_vector);
    }

    /// Decodes the physical orientation from a 2-bit value (upper bits are ignored).
    pub fn from_bits(bits: u8) -> (r: Self)
        ensures
            r == Self::spec_from_bits(bits),
    {
        match bits & 0x03 {
            0 => Self::Landscape,
            1 => Self::Portrait,
            2 => Self::NotDefined,
            _ => Self::Undefined,
        }
    }
}

/// Rotation capability (Display Device Data Block byte 7 bits 3:2).
#[derive(Debug, Clone, Copy, PartialEq, Eq, Structural)]
pub enum RotationCapability {
    /// No display rotation supported (`0`).
    NoRotation,
    /// 90° clockwise rotation supported (`1`).
    Cw90,
    /// 180° rotation supported (`2`).
    Deg180,
    /// 270° clockwise rotation supported (`3`).
    Cw270,
}

impl RotationCapability {
    /// The rotation capability that the low two bits of `bits` denote.
    pub open spec fn spec_from_bits(bits: u8) -> RotationCapability {
        let v = bits & 0x03;
        if v == 0 {
            RotationCapability::NoRotation
        } else if v == 1 {
            RotationCapability::Cw90
        } else if v == 2 {
            RotationCapability::Deg180
        } else {
            RotationCapability::Cw270
        }
    }

    /// The codes in the low 2 bits of `bits` name the values one to one: 0 NoRotation, 1 Cw90, 2 Deg180; the remaining codes name Cw270.
    pub proof fn lemma_codes(bits: u8)
        ensures
            (Self::spec_from_bits(bits) == RotationCapability::NoRotation) == (bits % 4 == 0),
            (Self::spec_from_bits(bits) == RotationCapability::Cw90) == (bits % 4 == 1),
            (Self::spec_from_bits(bits) == RotationCapability::Deg180) == (bits % 4 == 2),
            (Self::spec_from_bits(bits) == RotationCapability::Cw270) == (bits % 4 >= 3),
    {
        assert(bits & 3 == bits % 4) by (bit_vector);
    }

    /// Decodes the rotation capability from a 2-bit value (upper bits are ignored).
    pub fn from_bits(bits: u8) -> (r: Self)
        ensures
            r == Self::spec_from_bits(bits),
    {
        match bits & 0x03 {
            0 => Self::NoRotation,
            1 => Self::Cw90,
            2 => Self::Deg180,
            _ => Self::Cw270,
        }
    }
}

/// Location of the zero pixel (Display Device Data Block byte 7 bits 5:4).
#[derive(Debug, Clone, Copy, PartialEq, Eq, Structural)]
pub enum ZeroPixelLocation {
    /// Upper-left corner (`0`).
    UpperLeft,
    /// Upper-right corner (`1`).
    UpperRight,
    /// Lower-left corner (`2`).
    LowerLeft,
    /// Lower-right corner (`3`).
    LowerRight,
}

impl ZeroPixelLocation {
    /// The zero-pixel location that the low two bits of `bits` denote.
    pub open spec fn spec_from_bits(bits: u8) -> ZeroPixelLocation {
        let v = bits & 0x03;
        if v == 0 {
            ZeroPixelLocation::UpperLeft
        } else if v == 1 {
            ZeroPixelLocation::UpperRight
        } else if v == 2 {
            ZeroPixelLocation::LowerLeft
        } else {
            ZeroPixelLocation::LowerRight
        }
    }

    /// The codes in the low 2 bits of `bits` name the values one to one: 0 UpperLeft, 1 UpperRight, 2 LowerLeft; the remaining codes name LowerRight.
    pub proof fn lemma_codes(bits: u8)
        ensures
            (Self::spec_from_bits(bits) == ZeroPixelLocation::UpperLeft) == (bits % 4 == 0),
            (Self::spec_from_bits(bits) == ZeroPixelLocation::UpperRight) == (bits % 4 == 1),
            (Self::spec_from_bits(bits) == ZeroPixelLocation::LowerLeft) == (bits % 4 == 2),
            (Self::spec_from_bits(bits) == ZeroPixelLocation::LowerRight) == (bits % 4 >= 3),
    {
        assert(bits & 3 == bits % 4) by (bit_vector);
    }

    /// Decodes the zero pixel location from a 2-bit value (upper bits are ignored).
    pub fn from_bits(bits: u8) -> (r: Self)
        ensures
            r == Self::spec_from_bits(bits),
    {
        match bits & 0x03 {
            0 => Self::UpperLeft,
            1 => Self::UpperRight,
            2 => Self::LowerLeft,
            _ => Self::LowerRight,
        }
    }
}

/// Scan direction of the fast scan relative to H-sync (Display Device Data Block byte 7 bits 7:6).
#[derive(Debug, Clone, Copy, PartialEq, Eq, Structural)]
pub enum ScanDirection {
    /// Not defined (`0`).
    NotDefined,
    /// Fast scan follows H-sync, slow scan follows V-sync (`1`).
    Normal,
    /// Opposite directions (`2`).
    Reversed,
    /// Reserved value (`3`).
    Reserved,
}

impl ScanDirection {
    /// The scan direction that the low two bits of `bits` denote.
    pub open spec fn spec_from_bits(bits: u8) -> ScanDirection {
        let v = bits & 0x03;
        if v == 0 {
            ScanDirection::NotDefined
        } else if v == 1 {
            ScanDirection::Normal
        } else if v == 2 {
            ScanDirection::Reversed
        } else {
            ScanDirection::Reserved
        }
    }

    /// The codes in the low 2 bits of `bits` name the values one to one: 0 NotDefined, 1 Normal, 2 Reversed; the remaining codes name Reserved.
    pub proof fn lemma_codes(bits: u8)
        ensures
            (Self::spec_from_bits(bits) == ScanDirection::NotDefined) == (bits % 4 == 0),
            (Self::spec_from_bits(bits) == ScanDirection::Normal) == (bits % 4 == 1),
            (Self::spec_from_bits(bits) == ScanDirection::Reversed) == (bits % 4 == 2),
            (Self::spec_from_bits(bits) == ScanDirection::Reserved) == (bits % 4 >= 3),
    {
        assert(bits & 3 == bits % 4) by (bit_vector);
    }

    /// Decodes the scan direction from a 2-bit value (upper bits are ignored).
    pub fn from_bits(bits: u8) -> (r: Self)
        ensures
            r == Self::spec_from_bits(bits),
    {
        match bits & 0x03 {
            0 => Self::NotDefined,
            1 => Self::Normal,
            2 => Self::Reversed,
            _ => Self::Reserved,
        }
    }
}

/// Sub-pixel layout (Display Device Data Block byte 8).
#[derive(Debug, Clone, Copy, PartialEq, Eq, Structural)]
pub enum SubpixelLayout {
    /// Not defined (`0x00`).
    NotDefined,
    /// RGB vertical stripes (`0x01`).
    RgbVertical,
    /// BGR vertical stripes (`0x02`).
    BgrVertical,
    /// RGB horizontal stripes (`0x03`).
    RgbHorizontal,
    /// BGR horizontal stripes (`0x04`).
    BgrHorizontal,
    /// Quad RGBG (`0x05`).
    QuadRgbg,
    /// Quad BGRG (`0x06`).
    QuadBgrg,
    /// Delta RGB (`0x07`).
    DeltaRgb,
    /// Delta BGR (`0x08`).
    DeltaBgr,
    /// Reserved or proprietary layout (`0x09`–`0xFF`).
    Unknown(u8),
}

impl SubpixelLayout {
    /// The sub-pixel layout that `byte` denotes.
    pub open spec fn spec_from_byte(byte: u8) -> SubpixelLayout {
        if byte == 0 {
            SubpixelLayout::NotDefined
        } else if byte == 1 {
            SubpixelLayout::RgbVertical
        } else if byte == 2 {
            SubpixelLayout::BgrVertical
        } else if byte == 3 {
            SubpixelLayout::RgbHorizontal
        } else if byte == 4 {
            SubpixelLayout::BgrHorizontal
        } else if byte == 5 {
            SubpixelLayout::QuadRgbg
        } else if byte == 6 {
            SubpixelLayout::QuadBgrg
        } else if byte == 7 {
            SubpixelLayout::DeltaRgb
        } else if byte == 8 {
            SubpixelLayout::DeltaBgr
        } else {
            SubpixelLayout::Unknown(byte)
        }
    }

    /// The codes in `byte` name the values one to one: 0 NotDefined, 1 RgbVertical, 2 BgrVertical, 3 RgbHorizontal, 4 BgrHorizontal, 5 QuadRgbg, 6 QuadBgrg, 7 DeltaRgb, 8 DeltaBgr; every other code is kept as the Unknown value.
    pub proof fn lemma_codes(byte: u8)
        ensures
            (Self::spec_from_byte(byte) == SubpixelLayout::NotDefined) == (byte == 0),
            (Self::spec_from_byte(byte) == SubpixelLayout::RgbVertical) == (byte == 1),
            (Self::spec_from_byte(byte) == SubpixelLayout::BgrVertical) == (byte == 2),
            (Self::spec_from_byte(byte) == SubpixelLayout::RgbHorizontal) == (byte == 3),
            (Self::spec_from_byte(byte) == SubpixelLayout::BgrHorizontal) == (byte == 4),
            (Self::spec_from_byte(byte) == SubpixelLayout::QuadRgbg) == (byte == 5),
            (Self::spec_from_byte(byte) == SubpixelLayout::QuadBgrg) == (byte == 6),
            (Self::spec_from_byte(byte) == SubpixelLayout::DeltaRgb) == (byte == 7),
            (Self::spec_from_byte(byte) == SubpixelLayout::DeltaBgr) == (byte == 8),
            byte >= 9 ==> Self::spec_from_byte(byte) == SubpixelLayout::Unknown((byte) as u8),
    {
    }

    /// Decodes the sub-pixel layout from the raw byte.
    pub fn from_byte(byte: u8) -> (r: Self)
        ensures
            r == Self::spec_from_byte(byte),
    {
        match byte {
            0x00 => Self::NotDefined,
            0x01 => Self::RgbVertical,
            0x02 => Self::BgrVertical,
            0x03 => Self::RgbHorizontal,
            0x04 => Self::BgrHorizontal,
            0x05 => Self::QuadRgbg,
            0x06 => Self::QuadBgrg,
            0x07 => Self::DeltaRgb,
            0x08 => Self::DeltaBgr,
            v => Self::Unknown(v),
        }
    }
}

/// Physical interface standard (Display Interface Data Block byte 0 bits 3:0).
#[derive(Debug, Clone, Copy, PartialEq, Eq, Structural)]
pub enum DisplayInterfaceType {
    /// Undefined (`0x0`).
    Undefined,
    /// Analog (VGA) (`0x1`).
    Analog,
    /// LVDS single link (`0x2`).
    LvdsSingle,
    /// LVDS dual link (`0x3`).
    LvdsDual,
    /// TMDS single link (`0x4`).
    TmdsSingle,
    /// TMDS dual link (`0x5`).
    TmdsDual,
    /// Embedded DisplayPort (`0x6`).
    EmbeddedDisplayPort,
    /// External DisplayPort (`0x7`).
    DisplayPort,
    /// Proprietary (`0x8`).
    Proprietary,
    /// Reserved value (`0x9`–`0xF`).
    Reserved(u8),
}

impl DisplayInterfaceType {
    /// The interface type that the low four bits of `nibble` denote.
    pub open spec fn spec_from_nibble(nibble: u8) -> DisplayInterfaceType {
        let v = nibble & 0x0F;
        if v == 0 {
            DisplayInterfaceType::Undefined
        } else if v == 1 {
            DisplayInterfaceType::Analog
        } else if v == 2 {
            DisplayInterfaceType::LvdsSingle
        } else if v == 3 {
            DisplayInterfaceType::LvdsDual
        } else if v == 4 {
            DisplayInterfaceType::TmdsSingle
        } else if v == 5 {
            DisplayInterfaceType::TmdsDual
        } else if v == 6 {
            DisplayInterfaceType::EmbeddedDisplayPort
        } else if v == 7 {
            DisplayInterfaceType::DisplayPort
        } else if v == 8 {
            DisplayInterfaceType::Proprietary
        } else {
            DisplayInterfaceType::Reserved(v)
        }
    }

    /// The codes in the low 4 bits of `nibble` name the values one to one: 0 Undefined, 1 Analog, 2 LvdsSingle, 3 LvdsDual, 4 TmdsSingle, 5 TmdsDual, 6 EmbeddedDisplayPort, 7 DisplayPort, 8 Proprietary; every other code is kept as the Reserved value.
    pub proof fn lemma_codes(nibble: u8)
        ensures
            (Self::spec_from_nibble(nibble) == DisplayInterfaceType::Undefined) == (nibble % 16 == 0),
            (Self::spec_from_nibble(nibble) == DisplayInterfaceType::Analog) == (nibble % 16 == 1),
            (Self::spec_from_nibble(nibble) == DisplayInterfaceType::LvdsSingle) == (nibble % 16 == 2),
            (Self::spec_from_nibble(nibble) == DisplayInterfaceType::LvdsDual) == (nibble % 16 == 3),
            (Self::spec_from_nibble(nibble) == DisplayInterfaceType::TmdsSingle) == (nibble % 16 == 4),
            (Self::spec_from_nibble(nibble) == DisplayInterfaceType::TmdsDual) == (nibble % 16 == 5),
            (Self::spec_from_nibble(nibble) == DisplayInterfaceType::EmbeddedDisplayPort) == (nibble % 16 == 6),
            (Self::spec_from_nibble(nibble) == DisplayInterfaceType::DisplayPort) == (nibble % 16 == 7),
            (Self::spec_from_nibble(nibble) == DisplayInterfaceType::Proprietary) == (nibble % 16 == 8),
            nibble % 16 >= 9 ==> Self::spec_from_nibble(nibble) == DisplayInterfaceType::Reserved((nibble % 16) as u8),
    {
        assert(nibble & 15 == nibble % 16) by (bit_vector);
    }

    /// Decodes the interface type from the lower 4 bits of `nibble`.
    pub fn from_nibble(nibble: u8) -> (r: Self)
        ensures
            r == Self::spec_from_nibble(nibble),
    {
        match nibble & 0x0F {
            0x0 => Self::Undefined,
            0x1 => Self::Analog,
            0x2 => Self::LvdsSingle,
            0x3 => Self::LvdsDual,
            0x4 => Self::TmdsSingle,
            0x5 => Self::TmdsDual,
            0x6 => Self::EmbeddedDisplayPort,
            0x7 => Self::DisplayPort,
            0x8 => Self::Proprietary,
            v => Self::Reserved(v),
        }
    }
}

/// Content protection on the display interface (Display Interface Data Block byte 6 bits 1:0).
#[derive(Debug, Clone, Copy, PartialEq, Eq, Structural)]
pub enum InterfaceContentProtection {
    /// No content protection (`0`).
    NoProtection,
    /// HDCP (`1`).
    Hdcp,
    /// DPCP (`2`).
    Dpcp,
    /// Reserved value (`3`).
    Reserved(u8),
}

impl InterfaceContentProtection {
    /// The content protection that the low two bits of `bits` denote.
    pub open spec fn spec_from_bits(bits: u8) -> InterfaceContentProtection {
        let v = bits & 0x03;
        if v == 0 {
            InterfaceContentProtection::NoProtection
        } else if v == 1 {
            InterfaceContentProtection::Hdcp
        } else if v == 2 {
            InterfaceContentProtection::Dpcp
        } else {
            InterfaceContentProtection::Reserved(v)
        }
    }

    /// The codes in the low 2 bits of `bits` name the values one to one: 0 NoProtection, 1 Hdcp, 2 Dpcp; every other code is kept as the Reserved value.
    pub proof fn lemma_codes(bits: u8)
        ensures
            (Self::spec_from_bits(bits) == InterfaceContentProtection::NoProtection) == (bits % 4 == 0),
            (Self::spec_from_bits(bits) == InterfaceContentProtection::Hdcp) == (bits % 4 == 1),
            (Self::spec_from_bits(bits) == InterfaceContentProtection::Dpcp) == (bits % 4 == 2),
            bits % 4 >= 3 ==> Self::spec_from_bits(bits) == InterfaceContentProtection::Reserved((bits % 4) as u8),
    {
        assert(bits & 3 == bits % 4) by (bit_vector);
    }

    /// Decodes the content protection type from a 2-bit value (upper bits are ignored).
    pub fn from_bits(bits: u8) -> (r: Self)
        ensures
            r == Self::spec_from_bits(bits),
    {
        match bits & 0x03 {
            0 => Self::NoProtection,
            1 => Self::Hdcp,
            2 => Self::Dpcp,
            v => Self::Reserved(v),
        }
    }
}

/// Display interface capabilities (DisplayID 1.x Display Interface Data Block, `0x0F`).
#[derive(Debug, Clone, Copy, PartialEq, Eq, Structural)]
pub struct DisplayIdInterface {
    /// Physical interface standard.
    pub interface_type: DisplayInterfaceType,
    /// Whether spread-spectrum clocking is supported.
    pub spread_spectrum: bool,
    /// Number of data lanes or LVDS pairs (byte 1 bits 3:0).
    pub num_lanes: u8,
    /// Minimum pixel clock in units of 10 kHz.
    pub min_pixel_clock_10khz: u32,
    /// Maximum pixel clock in units of 10 kHz.
    pub max_pixel_clock_10khz: u32,
    /// Content protection mechanism.
    pub content_protection: InterfaceContentProtection,
}

/// Behavior when tiles are missing (Tiled Display Topology Data Block byte 0 bits 5:4).
#[derive(Debug, Clone, Copy, PartialEq, Eq, Structural)]
pub enum TileTopologyBehavior {
    /// Undefined (`0`).
    Undefined,
    /// No image until all tiles are present (`1`).
    RequireAllTiles,
    /// Scale to the tiles present (`2`).
    ScaleWhenMissing,
    /// Reserved value (`3`).
    Reserved(u8),
}

impl TileTopologyBehavior {
    /// The topology behavior that the low two bits of `bits` denote.
    pub open spec fn spec_from_bits(bits: u8) -> TileTopologyBehavior {
        let v = bits & 0x03;
        if v == 0 {
            TileTopologyBehavior::Undefined
        } else if v == 1 {
            TileTopologyBehavior::RequireAllTiles
        } else if v == 2 {
            TileTopologyBehavior::ScaleWhenMissing
        } else {
            TileTopologyBehavior::Reserved(v)
        }
    }

    /// The codes in the low 2 bits of `bits` name the values one to one: 0 Undefined, 1 RequireAllTiles, 2 ScaleWhenMissing; every other code is kept as the Reserved value.
    pub proof fn lemma_codes(bits: u8)
        ensures
            (Self::spec_from_bits(bits) == TileTopologyBehavior::Undefined) == (bits % 4 == 0),
            (Self::spec_from_bits(bits) == TileTopologyBehavior::RequireAllTiles) == (bits % 4 == 1),
            (Self::spec_from_bits(bits) == TileTopologyBehavior::ScaleWhenMissing) == (bits % 4 == 2),
            bits % 4 >= 3 ==> Self::spec_from_bits(bits) == TileTopologyBehavior::Reserved((bits % 4) as u8),
    {
        assert(bits & 3 == bits % 4) by (bit_vector);
    }

    /// Decodes the topology behavior from a 2-bit value (upper bits are ignored).
    pub fn from_bits(bits: u8) -> (r: Self)
        ensures
            r == Self::spec_from_bits(bits),
    {
        match bits & 0x03 {
            0 => Self::Undefined,
            1 => Self::RequireAllTiles,
            2 => Self::ScaleWhenMissing,
            v => Self::Reserved(v),
        }
    }
}

/// Bezel sizes around a tile, in pixels at the tile's native resolution.
#[derive(Debug, Clone, Copy, PartialEq, Eq, Structural)]
pub struct TileBezelInfo {
    /// Top bezel height in pixels.
    pub top_px: u8,
    /// Bottom bezel height in pixels.
    pub bottom_px: u8,
    /// Right bezel width in pixels.
    pub right_px: u8,
    /// Left bezel width in pixels.
    pub left_px: u8,
}

/// Tiled display topology (DisplayID Tiled Display Topology Data Block).
#[derive(Debug, Clone, Copy, PartialEq, Eq, Structural)]
pub struct DisplayIdTiledTopology {
    /// All tiles are housed in a single enclosure.
    pub single_enclosure: bool,
    /// Behavior when tiles are missing.
    pub topology_behavior: TileTopologyBehavior,
    /// Number of horizontal tiles (1–16).
    pub h_tile_count: u8,
    /// Number of vertical tiles (1–16).
    pub v_tile_count: u8,
    /// Zero-based column of this tile.
    pub h_tile_location: u8,
    /// Zero-based row of this tile.
    pub v_tile_location: u8,
    /// Native pixel width of this tile.
    pub tile_width_px: u16,
    /// Native pixel height of this tile.
    pub tile_height_px: u16,
    /// Per-edge bezel sizes, when the block carries them.
    pub bezel: Option<TileBezelInfo>,
}

/// Stereo content format (Stereo Display Interface Data Block byte 0 bits 3:0).
#[derive(Debug, Clone, Copy, PartialEq, Eq, Structural)]
pub enum StereoViewingMode {
    /// Field sequential (`0`).
    FieldSequential,
    /// Side-by-side (`1`).
    SideBySide,
    /// Top-and-bottom (`2`).
    TopAndBottom,
    /// Row interleaved (`3`).
    RowInterleaved,
    /// Column interleaved (`4`).
    ColumnInterleaved,
    /// Pixel interleaved / checkerboard (`5`).
    PixelInterleaved,
    /// Reserved value (`6`–`15`).
    Reserved(u8),
}

impl StereoViewingMode {
    /// The viewing mode that the low four bits of `nibble` denote.
    pub open spec fn spec_from_nibble(nibble: u8) -> StereoViewingMode {
        let v = nibble & 0x0F;
        if v == 0 {
            StereoViewingMode::FieldSequential
        } else if v == 1 {
            StereoViewingMode::SideBySide
        } else if v == 2 {
            StereoViewingMode::TopAndBottom
        } else if v == 3 {
            StereoViewingMode::RowInterleaved
        } else if v == 4 {
            StereoViewingMode::ColumnInterleaved
        } else if v == 5 {
            StereoViewingMode::PixelInterleaved
        } else {
            StereoViewingMode::Reserved(v)
        }
    }

    /// The codes in the low 4 bits of `nibble` name the values one to one: 0 FieldSequential, 1 SideBySide, 2 TopAndBottom, 3 RowInterleaved, 4 ColumnInterleaved, 5 PixelInterleaved; every other code is kept as the Reserved value.
    pub proof fn lemma_codes(nibble: u8)
        ensures
            (Self::spec_from_nibble(nibble) == StereoViewingMode::FieldSequential) == (nibble % 16 == 0),
            (Self::spec_from_nibble(nibble) == StereoViewingMode::SideBySide) == (nibble % 16 == 1),
            (Self::spec_from_nibble(nibble) == StereoViewingMode::TopAndBottom) == (nibble % 16 == 2),
            (Self::spec_from_nibble(nibble) == StereoViewingMode::RowInterleaved) == (nibble % 16 == 3),
            (Self::spec_from_nibble(nibble) == StereoViewingMode::ColumnInterleaved) == (nibble % 16 == 4),
            (Self::spec_from_nibble(nibble) == StereoViewingMode::PixelInterleaved) == (nibble % 16 == 5),
            nibble % 16 >= 6 ==> Self::spec_from_nibble(nibble) == StereoViewingMode::Reserved((nibble % 16) as u8),
    {
        assert(nibble & 15 == nibble % 16) by (bit_vector);
    }

    /// Decodes the stereo viewing mode from the lower 4 bits of `nibble`.
    pub fn from_nibble(nibble: u8) -> (r: Self)
        ensures
            r == Self::spec_from_nibble(nibble),
    {
        match nibble & 0x0F {
            0 => Self::FieldSequential,
            1 => Self::SideBySide,
            2 => Self::TopAndBottom,
            3 => Self::RowInterleaved,
            4 => Self::ColumnInterleaved,
            5 => Self::PixelInterleaved,
            v => Self::Reserved(v),
        }
    }
}

/// Interface delivering stereo sync to the glasses (Stereo Display Interface byte 1).
#[derive(Debug, Clone, Copy, PartialEq, Eq, Structural)]
pub enum StereoSyncInterface {
    /// Via the display's own video connector (`0`).
    DisplayConnector,
    /// VESA 3-pin DIN connector (`1`).
    VesaDin,
    /// Infrared (`2`).
    Infrared,
    /// Radio frequency (`3`).
    RadioFrequency,
    /// Reserved value (`4`–`255`).
    Reserved(u8),
}

impl StereoSyncInterface {
    /// The sync interface that `byte` denotes.
    pub open spec fn spec_from_byte(byte: u8) -> StereoSyncInterface {
        if byte == 0 {
            StereoSyncInterface::DisplayConnector
        } else if byte == 1 {
            StereoSyncInterface::VesaDin
        } else if byte == 2 {
            StereoSyncInterface::Infrared
        } else if byte == 3 {
            StereoSyncInterface::RadioFrequency
        } else {
            StereoSyncInterface::Reserved(byte)
        }
    }

    /// The codes in `byte` name the values one to one: 0 DisplayConnector, 1 VesaDin, 2 Infrared, 3 RadioFrequency; every other code is kept as the Reserved value.
    pub proof fn lemma_codes(byte: u8)
        ensures
            (Self::spec_from_byte(byte) == StereoSyncInterface::DisplayConnector) == (byte == 0),
            (Self::spec_from_byte(byte) == StereoSyncInterface::VesaDin) == (byte == 1),
            (Self::spec_from_byte(byte) == StereoSyncInterface::Infrared) == (byte == 2),
            (Self::spec_from_byte(byte) == StereoSyncInterface::RadioFrequency) == (byte == 3),
            byte >= 4 ==> Self::spec_from_byte(byte) == StereoSyncInterface::Reserved((byte) as u8),
    {
    }

    /// Decodes the stereo sync interface from the raw byte.
    pub fn from_byte(byte: u8) -> (r: Self)
        ensures
            r == Self::spec_from_byte(byte),
    {
        match byte {
            0 => Self::DisplayConnector,
            1 => Self::VesaDin,
            2 => Self::Infrared,
            3 => Self::RadioFrequency,
            v => Self::Reserved(v),
        }
    }
}

/// Stereo display interface parameters (DisplayID Stereo Display Interface Data Block).
#[derive(Debug, Clone, Copy, PartialEq, Eq, Structural)]
pub struct DisplayIdStereoInterface {
    /// How left-eye and right-eye images are encoded.
    pub viewing_mode: StereoViewingMode,
    /// Polarity of the 3D sync signal: `true` = positive.
    pub sync_polarity_positive: bool,
    /// Channel delivering the sync signal.
    pub sync_interface: StereoSyncInterface,
}

/// Panel power sequencing delays (DisplayID Interface Power Sequencing Block), in 2 ms units.
#[derive(Debug, Clone, Copy, PartialEq, Eq, Structural)]
pub struct PowerSequencing {
    /// T1: power supply enable to interface signal valid.
    pub t1_power_to_signal: u8,
    /// T2: interface signal enable to backlight enable.
    pub t2_signal_to_backlight: u8,
    /// T3: backlight disable to interface signal disable.
    pub t3_backlight_to_signal_off: u8,
    /// T4: interface signal disable to power supply disable.
    pub t4_signal_to_power_off: u8,
    /// T5: minimum power supply off time.
    pub t5_power_off_min: u8,
    /// T6: minimum backlight off time.
    pub t6_backlight_off_min: u8,
}

} // verus!
