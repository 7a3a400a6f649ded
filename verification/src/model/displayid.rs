use vstd::prelude::*;

verus! {

/// A chromaticity coordinate pair as 12-bit raw values (DisplayID 2.x); the CIE value is
/// `raw / 4096`.
#[derive(Debug, Clone, Copy, PartialEq, Eq, Structural)]
pub struct ChromaticityPoint12 {
    /// Raw x coordinate (0–4095).
    pub x_raw: u16,
    /// Raw y coordinate (0–4095).
    pub y_raw: u16,
}

/// The primaries and white point of a DisplayID 2.x Display Parameters block.
#[derive(Debug, Clone, Copy, PartialEq, Eq, Structural)]
pub struct Chromaticity12 {
    /// Primary 1 (nominally red).
    pub primary1: ChromaticityPoint12,
    /// Primary 2 (nominally green).
    pub primary2: ChromaticityPoint12,
    /// Primary 3 (nominally blue).
    pub primary3: ChromaticityPoint12,
    /// White point.
    pub white: ChromaticityPoint12,
}

/// Display technology of the DisplayID 2.x Display Parameters block (byte 27 bits 6:4).
#[derive(Debug, Clone, Copy, PartialEq, Eq, Structural)]
pub enum V2DisplayTechnology {
    /// Not specified (`0`).
    Unspecified,
    /// Active-matrix LCD (`1`).
    Amlcd,
    /// Active-matrix OLED (`2`).
    Amoled,
    /// Any other code.
    Other(u8),
}

impl V2DisplayTechnology {
    /// The technology that code `b` denotes.
    pub open spec fn spec_from_byte(b: u8) -> V2DisplayTechnology {
        if b == 0 {
            V2DisplayTechnology::Unspecified
        } else if b == 1 {
            V2DisplayTechnology::Amlcd
        } else if b == 2 {
            V2DisplayTechnology::Amoled
        } else {
            V2DisplayTechnology::Other(b)
        }
    }

    /// The codes in `b` name the values one to one: 0 Unspecified, 1 Amlcd, 2 Amoled; every other code is kept as the Other value.
    pub proof fn lemma_codes(b: u8)
        ensures
            (Self::spec_from_byte(b) == V2DisplayTechnology::Unspecified) == (b == 0),
            (Self::spec_from_byte(b) == V2DisplayTechnology::Amlcd) == (b == 1),
            (Self::spec_from_byte(b) == V2DisplayTechnology::Amoled) == (b == 2),
            b >= 3 ==> Self::spec_from_byte(b) == V2DisplayTechnology::Other((b) as u8),
    {
    }

    /// Decodes a display technology code.
    pub fn from_byte(b: u8) -> (r: Self)
        ensures
            r == Self::spec_from_byte(b),
    {
        match b {
            0 => V2DisplayTechnology::Unspecified,
            1 => V2DisplayTechnology::Amlcd,
            2 => V2DisplayTechnology::Amoled,
            other => V2DisplayTechnology::Other(other),
        }
    }
}

/// Scan orientation of a DisplayID 2.x display (Display Parameters byte 8 bits 2:0).
#[derive(Debug, Clone, Copy, PartialEq, Eq, Structural)]
pub enum ScanOrientation {
    /// Left to right, top to bottom (`0`).
    LeftRightTopBottom,
    /// Right to left, top to bottom (`1`).
    RightLeftTopBottom,
    /// Top to bottom, right to left (`2`).
    TopBottomRightLeft,
    /// Bottom to top, right to left (`3`).
    BottomTopRightLeft,
    /// Right to left, bottom to top (`4`).
    RightLeftBottomTop,
    /// Left to right, bottom to top (`5`).
    LeftRightBottomTop,
    /// Bottom to top, left to right (`6`).
    BottomTopLeftRight,
    /// Top to bottom, left to right (`7`).
    TopBottomLeftRight,
}

impl ScanOrientation {
    /// The orientation that the low three bits of `b` denote.
    pub open spec fn spec_from_bits(b: u8) -> ScanOrientation {
        let v = b & 7;
        if v == 0 {
            ScanOrientation::LeftRightTopBottom
        } else if v == 1 {
            ScanOrientation::RightLeftTopBottom
        } else if v == 2 {
            ScanOrientation::TopBottomRightLeft
        } else if v == 3 {
            ScanOrientation::BottomTopRightLeft
        } else if v == 4 {
            ScanOrientation::RightLeftBottomTop
        } else if v == 5 {
            ScanOrientation::LeftRightBottomTop
        } else if v == 6 {
            ScanOrientation::BottomTopLeftRight
        } else {
            ScanOrientation::TopBottomLeftRight
        }
    }

    /// The codes in the low 3 bits of `b` name the values one to one: 0 LeftRightTopBottom, 1 RightLeftTopBottom, 2 TopBottomRightLeft, 3 BottomTopRightLeft, 4 RightLeftBottomTop, 5 LeftRightBottomTop, 6 BottomTopLeftRight; the remaining codes name TopBottomLeftRight.
    pub proof fn lemma_codes(b: u8)
        ensures
            (Self::spec_from_bits(b) == ScanOrientation::LeftRightTopBottom) == (b % 8 == 0),
            (Self::spec_from_bits(b) == ScanOrientation::RightLeftTopBottom) == (b % 8 == 1),
            (Self::spec_from_bits(b) == ScanOrientation::TopBottomRightLeft) == (b % 8 == 2),
            (Self::spec_from_bits(b) == ScanOrientation::BottomTopRightLeft) == (b % 8 == 3),
            (Self::spec_from_bits(b) == ScanOrientation::RightLeftBottomTop) == (b % 8 == 4),
            (Self::spec_from_bits(b) == ScanOrientation::LeftRightBottomTop) == (b % 8 == 5),
            (Self::spec_from_bits(b) == ScanOrientation::BottomTopLeftRight) == (b % 8 == 6),
            (Self::spec_from_bits(b) == ScanOrientation::TopBottomLeftRight) == (b % 8 >= 7),
    {
        assert(b & 7 == b % 8) by (bit_vector);
    }

    /// Decodes the scan orientation from the low three bits of `b`.
    pub fn from_bits(b: u8) -> (r: Self)
        ensures
            r == Self::spec_from_bits(b),
    {
        match b & 7 {
            0 => ScanOrientation::LeftRightTopBottom,
            1 => ScanOrientation::RightLeftTopBottom,
            2 => ScanOrientation::TopBottomRightLeft,
            3 => ScanOrientation::BottomTopRightLeft,
            4 => ScanOrientation::RightLeftBottomTop,
            5 => ScanOrientation::LeftRightBottomTop,
            6 => ScanOrientation::BottomTopLeftRight,
            _ => ScanOrientation::TopBottomLeftRight,
        }
    }
}

/// A decoded DisplayID 2.x Display Parameters block (tag `0x21`).
///
/// Luminances are kept as their IEEE 754 binary16 bit patterns and gamma as its raw
/// `(γ − 1) × 100` code; converting them to real numbers is left to the caller.
#[derive(Debug, Clone, Copy, PartialEq, Eq, Structural)]
pub struct DisplayParamsV2 {
    /// Primaries and white point.
    pub chromaticity: Chromaticity12,
    /// `true` if the coordinates are CIE 1976 (u′, v′) rather than CIE 1931 (x, y).
    pub color_space_cie1976: bool,
    /// Maximum luminance at full coverage (binary16 bits), when usable.
    pub max_luminance_full: Option<u16>,
    /// Maximum luminance at 10 % coverage (binary16 bits), when usable.
    pub max_luminance_10pct: Option<u16>,
    /// Minimum luminance (binary16 bits), when usable.
    pub min_luminance: Option<u16>,
    /// `true` if the luminances are source guidance rather than guaranteed minima.
    pub luminance_guidance: bool,
    /// Native color depth in bits per component, when defined.
    pub color_bit_depth: Option<u8>,
    /// Display technology.
    pub display_technology: V2DisplayTechnology,
    /// Gamma code `(γ − 1) × 100`, when specified.
    pub gamma: Option<u8>,
    /// Scan orientation.
    pub scan_orientation: ScanOrientation,
    /// `true` if audio goes to an external jack rather than integrated speakers.
    pub audio_external: bool,
}

/// A decoded DisplayID 2.x Dynamic Video Timing Range Limits block (tag `0x25`).
#[derive(Debug, Clone, Copy, PartialEq, Eq, Structural)]
pub struct DynamicTimingRange {
    /// Minimum pixel clock in kHz.
    pub min_pixel_clock_khz: u32,
    /// Maximum pixel clock in kHz.
    pub max_pixel_clock_khz: u32,
    /// Minimum vertical refresh rate in Hz.
    pub min_v_rate_hz: u8,
    /// Maximum vertical refresh rate in Hz (9 bits from block revision 1 on).
    pub max_v_rate_hz: u16,
    /// Seamless variable refresh rate support.
    pub vrr_supported: bool,
}

/// Supported color depths at full chroma resolution (bit 0 = 6 bpc … bit 5 = 16 bpc).
#[derive(Debug, Clone, Copy, PartialEq, Eq, Structural)]
pub struct ColorDepthsFull {
    /// The flag bits.
    pub flags: u8,
}

impl ColorDepthsFull {
    /// The defined flag bits.
    pub const ALL: u8 = 0x3F;

    /// Keeps the defined flags of `bits` and drops the rest.
    pub fn from_bits_truncate(bits: u8) -> (r: Self)
        ensures
            r.flags == bits & Self::ALL,
    {
        ColorDepthsFull { flags: bits & Self::ALL }
    }

    /// The flag bits.
    pub fn bits(&self) -> (r: u8)
        ensures
            r == self.flags,
    {
        self.flags
    }
}

/// Supported color depths with subsampled chroma (bit 0 = 8 bpc … bit 4 = 16 bpc).
#[derive(Debug, Clone, Copy, PartialEq, Eq, Structural)]
pub struct ColorDepthsSubsampled {
    /// The flag bits.
    pub flags: u8,
}

impl ColorDepthsSubsampled {
    /// The defined flag bits.
    pub const ALL: u8 = 0x1F;

    /// Keeps the defined flags of `bits` and drops the rest.
    pub fn from_bits_truncate(bits: u8) -> (r: Self)
        ensures
            r.flags == bits & Self::ALL,
    {
        ColorDepthsSubsampled { flags: bits & Self::ALL }
    }

    /// The flag bits.
    pub fn bits(&self) -> (r: u8)
        ensures
            r == self.flags,
    {
        self.flags
    }
}

/// A decoded DisplayID 2.x Display Interface Features block (tag `0x26`).
#[derive(Debug, Clone, Copy, PartialEq, Eq, Structural)]
pub struct DisplayInterfaceFeatures {
    /// RGB color depths.
    pub color_depth_rgb: ColorDepthsFull,
    /// YCbCr 4:4:4 color depths.
    pub color_depth_ycbcr444: ColorDepthsFull,
    /// YCbCr 4:2:2 color depths.
    pub color_depth_ycbcr422: ColorDepthsSubsampled,
    /// YCbCr 4:2:0 color depths.
    pub color_depth_ycbcr420: ColorDepthsSubsampled,
    /// Minimum pixel rate for YCbCr 4:2:0, in 74.25 MP/s units (`0` = all rates).
    pub min_ycbcr420_pixel_rate: u8,
    /// Audio capability flags.
    pub audio_flags: u8,
    /// Color space and EOTF combinations bitmask.
    pub color_space_eotf_combos: u8,
}

/// Which eye a stereo sub-image belongs to.
#[derive(Debug, Clone, Copy, PartialEq, Eq, Structural)]
pub enum StereoEye {
    /// Left eye.
    Left,
    /// Right eye.
    Right,
}

/// Mirroring of a dual-interface stereo display.
#[derive(Debug, Clone, Copy, PartialEq, Eq, Structural)]
pub enum DualInterfaceMirroring {
    /// No mirroring (`0b00`).
    NoMirroring,
    /// Left/right mirroring (`0b01`).
    LeftRight,
    /// Top/bottom mirroring (`0b10`).
    TopBottom,
    /// Reserved (`0b11`).
    Reserved,
}

/// Which timings a DisplayID 2.x stereo block applies to (block revision bits 7:6).
#[derive(Debug, Clone, Copy, PartialEq, Eq, Structural)]
pub enum StereoTimingScopeV2 {
    /// Explicit timings only (`0b00`).
    ExplicitTimingsOnly,
    /// Explicit timings and the listed timing codes (`0b01`).
    ExplicitAndListedTimings,
    /// All listed timings (`0b10`).
    AllListedTimings,
    /// The listed timing codes only (`0b11`).
    ListedTimingCodesOnly,
}

impl StereoTimingScopeV2 {
    /// The scope that bits 7:6 of `revision` denote.
    pub open spec fn spec_from_revision(revision: u8) -> StereoTimingScopeV2 {
        let v = revision >> 6;
        if v == 0 {
            StereoTimingScopeV2::ExplicitTimingsOnly
        } else if v == 1 {
            StereoTimingScopeV2::ExplicitAndListedTimings
        } else if v == 2 {
            StereoTimingScopeV2::AllListedTimings
        } else {
            StereoTimingScopeV2::ListedTimingCodesOnly
        }
    }

    /// Decodes the scope from bits 7:6 of the block revision byte.
    pub fn from_revision(revision: u8) -> (r: Self)
        ensures
            r == Self::spec_from_revision(revision),
    {
        match revision >> 6 {
            0 => StereoTimingScopeV2::ExplicitTimingsOnly,
            1 => StereoTimingScopeV2::ExplicitAndListedTimings,
            2 => StereoTimingScopeV2::AllListedTimings,
            _ => StereoTimingScopeV2::ListedTimingCodesOnly,
        }
    }

    /// Whether the block carries a list of timing codes under this scope.
    pub fn has_timing_codes(&self) -> (r: bool)
        ensures
            r == (*self == StereoTimingScopeV2::ExplicitAndListedTimings || *self
                == StereoTimingScopeV2::ListedTimingCodesOnly),
    {
        match self {
            StereoTimingScopeV2::ExplicitAndListedTimings => true,
            StereoTimingScopeV2::ListedTimingCodesOnly => true,
            _ => false,
        }
    }
}

/// Stereo viewing method of a DisplayID 2.x Stereo Display Interface block.
#[derive(Debug, Clone, Copy, PartialEq, Eq)]
pub enum StereoViewingMethodV2 {
    /// Field sequential (`0x00`).
    FieldSequential {
        /// Eye shown when the stereo sync signal is high.
        eye_on_high_half: StereoEye,
    },
    /// Side by side (`0x01`).
    SideBySide {
        /// Eye in the left half.
        left_half: StereoEye,
    },
    /// Pixel interleaved (`0x02`).
    PixelInterleaved {
        /// The 8×8 interleaving pattern.
        pattern: [u8; 8],
    },
    /// Dual interface (`0x03`).
    DualInterface {
        /// Eye of this interface.
        eye: StereoEye,
        /// Mirroring.
        mirroring: DualInterfaceMirroring,
    },
    /// Multi-view (`0x04`).
    MultiView {
        /// Number of views.
        view_count: u8,
        /// Interleaving method code.
        interleaving_method_code: u8,
    },
    /// Stacked frame (`0x05`).
    StackedFrame {
        /// Eye in the top half.
        top_half: StereoEye,
    },
    /// Proprietary (`0xFF`).
    Proprietary,
    /// Any other method code.
    Reserved(u8),
}

/// [`StereoViewingMethodV2`] with its pattern as a sequence.
pub enum StereoMethodView {
    FieldSequential { eye_on_high_half: StereoEye },
    SideBySide { left_half: StereoEye },
    PixelInterleaved { pattern: Seq<u8> },
    DualInterface { eye: StereoEye, mirroring: DualInterfaceMirroring },
    MultiView { view_count: u8, interleaving_method_code: u8 },
    StackedFrame { top_half: StereoEye },
    Proprietary,
    Reserved(u8),
}

impl View for StereoViewingMethodV2 {
    type V = StereoMethodView;

    open spec fn view(&self) -> StereoMethodView {
        match *self {
            StereoViewingMethodV2::FieldSequential { eye_on_high_half } => StereoMethodView::FieldSequential {
                eye_on_high_half,
            },
            StereoViewingMethodV2::SideBySide { left_half } => StereoMethodView::SideBySide {
                left_half,
            },
            StereoViewingMethodV2::PixelInterleaved { pattern } => StereoMethodView::PixelInterleaved {
                pattern: pattern@,
            },
            StereoViewingMethodV2::DualInterface { eye, mirroring } => StereoMethodView::DualInterface {
                eye,
                mirroring,
            },
            StereoViewingMethodV2::MultiView { view_count, interleaving_method_code } => StereoMethodView::MultiView {
                view_count,
                interleaving_method_code,
            },
            StereoViewingMethodV2::StackedFrame { top_half } => StereoMethodView::StackedFrame {
                top_half,
            },
            StereoViewingMethodV2::Proprietary => StereoMethodView::Proprietary,
            StereoViewingMethodV2::Reserved(b) => StereoMethodView::Reserved(b),
        }
    }
}

/// A decoded DisplayID 2.x Stereo Display Interface block (tag `0x27`).
#[derive(Debug, Clone, Copy, PartialEq, Eq)]
pub struct DisplayIdStereoInterfaceV2 {
    /// Which timings the stereo format applies to.
    pub timing_scope: StereoTimingScopeV2,
    /// Stereo viewing method.
    pub method: StereoViewingMethodV2,
}

/// [`DisplayIdStereoInterfaceV2`] as a value.
pub struct StereoInterfaceV2View {
    pub timing_scope: StereoTimingScopeV2,
    pub method: StereoMethodView,
}

impl View for DisplayIdStereoInterfaceV2 {
    type V = StereoInterfaceV2View;

    open spec fn view(&self) -> StereoInterfaceV2View {
        StereoInterfaceV2View { timing_scope: self.timing_scope, method: self.method@ }
    }
}

impl DisplayIdStereoInterfaceV2 {
    /// Whether the block carries a list of timing codes.
    pub fn has_timing_codes(&self) -> (r: bool)
        ensures
            r == (self.timing_scope == StereoTimingScopeV2::ExplicitAndListedTimings
                || self.timing_scope == StereoTimingScopeV2::ListedTimingCodesOnly),
    {
        self.timing_scope.has_timing_codes()
    }
}

/// A DisplayID 2.x Vendor-Specific block (tag `0x7E`).
#[derive(Debug, Clone, PartialEq, Eq)]
pub struct DisplayIdVendorSpecific {
    /// The vendor's IEEE OUI, high-order byte first.
    pub oui: [u8; 3],
    /// The vendor-defined bytes after the OUI.
    pub data: Vec<u8>,
}

/// [`DisplayIdVendorSpecific`] as a value.
pub struct VendorSpecificView {
    pub oui: Seq<u8>,
    pub data: Seq<u8>,
}

impl View for DisplayIdVendorSpecific {
    type V = VendorSpecificView;

    open spec fn view(&self) -> VendorSpecificView {
        VendorSpecificView { oui: self.oui@, data: self.data@ }
    }
}

/// What a DisplayID section records beyond the shared capability model.
#[derive(Debug, Clone, PartialEq, Eq)]
pub struct DisplayIdCapabilities {
    /// DisplayID version byte (`0x10`–`0x1F` for 1.x, `0x20` for 2.x).
    pub version: u8,
    /// Display product primary use case (header byte 3 bits 2:0).
    pub product_type: u8,
    /// IEEE OUI from the 2.x Product Identification block.
    pub manufacturer_oui: Option<[u8; 3]>,
    /// 2.x Display Parameters block.
    pub display_params_v2: Option<DisplayParamsV2>,
    /// 2.x Dynamic Video Timing Range Limits block.
    pub dynamic_timing_range: Option<DynamicTimingRange>,
    /// 2.x Display Interface Features block.
    pub interface_features: Option<DisplayInterfaceFeatures>,
    /// 2.x Stereo Display Interface block.
    pub stereo_interface_v2: Option<DisplayIdStereoInterfaceV2>,
    /// 2.x ContainerID block (16 raw bytes).
    pub container_id: Option<[u8; 16]>,
    /// 2.x Vendor-Specific blocks, in payload order.
    pub vendor_specific: Vec<DisplayIdVendorSpecific>,
}

/// [`DisplayIdCapabilities`] as a value.
pub struct DisplayIdView {
    pub version: u8,
    pub product_type: u8,
    pub manufacturer_oui: Option<Seq<u8>>,
    pub display_params_v2: Option<DisplayParamsV2>,
    pub dynamic_timing_range: Option<DynamicTimingRange>,
    pub interface_features: Option<DisplayInterfaceFeatures>,
    pub stereo_interface_v2: Option<StereoInterfaceV2View>,
    pub container_id: Option<Seq<u8>>,
    pub vendor_specific: Seq<VendorSpecificView>,
}

impl View for DisplayIdCapabilities {
    type V = DisplayIdView;

    open spec fn view(&self) -> DisplayIdView {
        DisplayIdView {
            version: self.version,
            product_type: self.product_type,
            manufacturer_oui: match self.manufacturer_oui {
                Some(o) => Some(o@),
                None => None,
            },
            display_params_v2: self.display_params_v2,
            dynamic_timing_range: self.dynamic_timing_range,
            interface_features: self.interface_features,
            stereo_interface_v2: match self.stereo_interface_v2 {
                Some(s) => Some(s@),
                None => None,
            },
            container_id: match self.container_id {
                Some(u) => Some(u@),
                None => None,
            },
            vendor_specific: self.vendor_specific@.map_values(|v: DisplayIdVendorSpecific| v@),
        }
    }
}

impl DisplayIdView {
    /// A section record with nothing decoded yet.
    pub open spec fn new(version: u8, product_type: u8) -> DisplayIdView {
        DisplayIdView {
            version,
            product_type,
            manufacturer_oui: None,
            display_params_v2: None,
            dynamic_timing_range: None,
            interface_features: None,
            stereo_interface_v2: None,
            container_id: None,
            vendor_specific: Seq::empty(),
        }
    }
}

impl DisplayIdCapabilities {
    /// Constructs the record of a section with the given header fields and nothing decoded.
    pub fn new(version: u8, product_type: u8) -> (r: Self)
        ensures
            r@ == DisplayIdView::new(version, product_type),
    {
        let r = DisplayIdCapabilities {
            version,
            product_type,
            manufacturer_oui: None,
            display_params_v2: None,
            dynamic_timing_range: None,
            interface_features: None,
            stereo_interface_v2: None,
            container_id: None,
            vendor_specific: Vec::new(),
        };
        assert(r@.vendor_specific =~= Seq::<VendorSpecificView>::empty());
        r
    }
}

} // verus!
