use vstd::prelude::*;

use crate::model::color::{Chromaticity, ChromaticityPoint, ColorBitDepth};
use crate::model::diagnostics::EdidWarning;
use crate::model::displayid::{DisplayIdCapabilities, DisplayIdView};
use crate::model::edid::EdidVersion;
use crate::model::input::VideoInterface;
use crate::model::manufacture::{ManufactureDate, ManufacturerId, MonitorString};
use crate::model::mode::VideoMode;
use crate::model::panel::{
    BacklightType, DisplayIdInterface, DisplayIdStereoInterface, DisplayIdTiledTopology,
    DisplayTechnology, OperatingMode, PhysicalOrientation, PowerSequencing, RotationCapability,
    ScanDirection, SubpixelLayout, ZeroPixelLocation,
};
use crate::model::screen::ScreenSize;
use crate::model::transfer::{DisplayIdTransferCharacteristic, TransferCharacteristicView};

verus! {

/// The bytes of an optional manufacturer ID.
pub open spec fn id_view(m: Option<ManufacturerId>) -> Option<Seq<u8>> {
    match m {
        Some(id) => Some(id.0@),
        None => None,
    }
}

/// The bytes of an optional descriptor string.
pub open spec fn text_view(m: Option<MonitorString>) -> Option<Seq<u8>> {
    match m {
        Some(s) => Some(s.0@),
        None => None,
    }
}

/// The view of an optional transfer characteristic.
pub open spec fn transfer_view(t: &Option<DisplayIdTransferCharacteristic>) -> Option<TransferCharacteristicView> {
    match t {
        Some(c) => Some(c@),
        None => None,
    }
}

/// The display capability model derived from a parsed EDID.
#[derive(Debug, Clone, PartialEq)]
pub struct DisplayCapabilities {
    /// Three-character PNP manufacturer ID.
    pub manufacturer: Option<ManufacturerId>,
    /// Manufacture date or model year.
    pub manufacture_date: Option<ManufactureDate>,
    /// EDID version and revision.
    pub edid_version: Option<EdidVersion>,
    /// Manufacturer-assigned product code.
    pub product_code: Option<u16>,
    /// Numeric serial number.
    pub serial_number: Option<u32>,
    /// Serial number string.
    pub serial_number_string: Option<MonitorString>,
    /// Human-readable display name.
    pub display_name: Option<MonitorString>,
    /// Unspecified ASCII text strings, one slot per string (four slots).
    pub unspecified_text: [Option<MonitorString>; 4],
    /// `true` if the display uses a digital input interface.
    pub digital: bool,
    /// Color bit depth per primary.
    pub color_bit_depth: Option<ColorBitDepth>,
    /// Physical display technology.
    pub display_technology: Option<DisplayTechnology>,
    /// Technology-specific sub-type code (0–15).
    pub display_subtype: Option<u8>,
    /// Panel operating mode.
    pub operating_mode: Option<OperatingMode>,
    /// Backlight type.
    pub backlight_type: Option<BacklightType>,
    /// Whether the panel uses a Data Enable signal.
    pub data_enable_used: Option<bool>,
    /// Data Enable polarity: `true` = positive.
    pub data_enable_positive: Option<bool>,
    /// Native pixel format `(width, height)`.
    pub native_pixels: Option<(u16, u16)>,
    /// Panel aspect ratio encoded as `(AR − 1) × 100`.
    pub panel_aspect_ratio_100: Option<u8>,
    /// Physical mounting orientation.
    pub physical_orientation: Option<PhysicalOrientation>,
    /// Rotation capability.
    pub rotation_capability: Option<RotationCapability>,
    /// Location of the zero pixel.
    pub zero_pixel_location: Option<ZeroPixelLocation>,
    /// Fast-scan direction.
    pub scan_direction: Option<ScanDirection>,
    /// Sub-pixel layout.
    pub subpixel_layout: Option<SubpixelLayout>,
    /// Pixel pitch `(h, v)` in 0.01 mm.
    pub pixel_pitch_hundredths_mm: Option<(u8, u8)>,
    /// Pixel response time in ms.
    pub pixel_response_time_ms: Option<u8>,
    /// Interface power sequencing delays.
    pub power_sequencing: Option<PowerSequencing>,
    /// Luminance transfer characteristic.
    pub transfer_characteristic: Option<DisplayIdTransferCharacteristic>,
    /// Display interface capabilities.
    pub display_id_interface: Option<DisplayIdInterface>,
    /// Stereo display interface.
    pub stereo_interface: Option<DisplayIdStereoInterface>,
    /// Tiled display topology.
    pub tiled_topology: Option<DisplayIdTiledTopology>,
    /// Chromaticity of the primaries and white point (raw 10-bit values).
    pub chromaticity: Chromaticity,
    /// Digital video interface type.
    pub video_interface: Option<VideoInterface>,
    /// Physical screen size or aspect ratio.
    pub screen_size: Option<ScreenSize>,
    /// Minimum vertical refresh rate in Hz.
    pub min_v_rate: Option<u16>,
    /// Maximum vertical refresh rate in Hz.
    pub max_v_rate: Option<u16>,
    /// Minimum horizontal scan rate in kHz.
    pub min_h_rate_khz: Option<u16>,
    /// Maximum horizontal scan rate in kHz.
    pub max_h_rate_khz: Option<u16>,
    /// Maximum pixel clock in MHz.
    pub max_pixel_clock_mhz: Option<u16>,
    /// Image size `(width, height)`.
    pub preferred_image_size_mm: Option<(u16, u16)>,
    /// DisplayID section identity, when a DisplayID block was processed.
    pub display_id: Option<DisplayIdCapabilities>,
    /// Supported video modes, without repeats, in the order they were found.
    pub supported_modes: Vec<VideoMode>,
    /// Non-fatal conditions collected from the parser and the handlers.
    pub warnings: Vec<EdidWarning>,
}

/// [`DisplayCapabilities`] with its byte arrays and vectors as sequences.
pub struct CapabilitiesView {
    pub manufacturer: Option<Seq<u8>>,
    pub manufacture_date: Option<ManufactureDate>,
    pub edid_version: Option<EdidVersion>,
    pub product_code: Option<u16>,
    pub serial_number: Option<u32>,
    pub serial_number_string: Option<Seq<u8>>,
    pub display_name: Option<Seq<u8>>,
    pub unspecified_text: Seq<Option<Seq<u8>>>,
    pub digital: bool,
    pub color_bit_depth: Option<ColorBitDepth>,
    pub display_technology: Option<DisplayTechnology>,
    pub display_subtype: Option<u8>,
    pub operating_mode: Option<OperatingMode>,
    pub backlight_type: Option<BacklightType>,
    pub data_enable_used: Option<bool>,
    pub data_enable_positive: Option<bool>,
    pub native_pixels: Option<(u16, u16)>,
    pub panel_aspect_ratio_100: Option<u8>,
    pub physical_orientation: Option<PhysicalOrientation>,
    pub rotation_capability: Option<RotationCapability>,
    pub zero_pixel_location: Option<ZeroPixelLocation>,
    pub scan_direction: Option<ScanDirection>,
    pub subpixel_layout: Option<SubpixelLayout>,
    pub pixel_pitch_hundredths_mm: Option<(u8, u8)>,
    pub pixel_response_time_ms: Option<u8>,
    pub power_sequencing: Option<PowerSequencing>,
    pub transfer_characteristic: Option<TransferCharacteristicView>,
    pub display_id_interface: Option<DisplayIdInterface>,
    pub stereo_interface: Option<DisplayIdStereoInterface>,
    pub tiled_topology: Option<DisplayIdTiledTopology>,
    pub chromaticity: Chromaticity,
    pub video_interface: Option<VideoInterface>,
    pub screen_size: Option<ScreenSize>,
    pub min_v_rate: Option<u16>,
    pub max_v_rate: Option<u16>,
    pub min_h_rate_khz: Option<u16>,
    pub max_h_rate_khz: Option<u16>,
    pub max_pixel_clock_mhz: Option<u16>,
    pub preferred_image_size_mm: Option<(u16, u16)>,
    pub display_id: Option<DisplayIdView>,
    pub supported_modes: Seq<VideoMode>,
    pub warnings: Seq<EdidWarning>,
}

impl View for DisplayCapabilities {
    type V = CapabilitiesView;

    open spec fn view(&self) -> CapabilitiesView {
        CapabilitiesView {
            manufacturer: id_view(self.manufacturer),
            manufacture_date: self.manufacture_date,
            edid_version: self.edid_version,
            product_code: self.product_code,
            serial_number: self.serial_number,
            serial_number_string: text_view(self.serial_number_string),
            display_name: text_view(self.display_name),
            unspecified_text: Seq::new(4, |i: int| text_view(self.unspecified_text@[i])),
            digital: self.digital,
            color_bit_depth: self.color_bit_depth,
            display_technology: self.display_technology,
            display_subtype: self.display_subtype,
            operating_mode: self.operating_mode,
            backlight_type: self.backlight_type,
            data_enable_used: self.data_enable_used,
            data_enable_positive: self.data_enable_positive,
            native_pixels: self.native_pixels,
            panel_aspect_ratio_100: self.panel_aspect_ratio_100,
            physical_orientation: self.physical_orientation,
            rotation_capability: self.rotation_capability,
            zero_pixel_location: self.zero_pixel_location,
            scan_direction: self.scan_direction,
            subpixel_layout: self.subpixel_layout,
            pixel_pitch_hundredths_mm: self.pixel_pitch_hundredths_mm,
            pixel_response_time_ms: self.pixel_response_time_ms,
            power_sequencing: self.power_sequencing,
            transfer_characteristic: transfer_view(&self.transfer_characteristic),
            display_id_interface: self.display_id_interface,
            stereo_interface: self.stereo_interface,
            tiled_topology: self.tiled_topology,
            chromaticity: self.chromaticity,
            video_interface: self.video_interface,
            screen_size: self.screen_size,
            min_v_rate: self.min_v_rate,
            max_v_rate: self.max_v_rate,
            min_h_rate_khz: self.min_h_rate_khz,
            max_h_rate_khz: self.max_h_rate_khz,
            max_pixel_clock_mhz: self.max_pixel_clock_mhz,
            preferred_image_size_mm: self.preferred_image_size_mm,
            display_id: match &self.display_id {
                Some(d) => Some(d@),
                None => None,
            },
            supported_modes: self.supported_modes@,
            warnings: self.warnings@,
        }
    }
}

impl CapabilitiesView {
    /// The model before any block has been decoded: every field absent.
    pub open spec fn empty() -> CapabilitiesView {
        CapabilitiesView {
            manufacturer: None,
            manufacture_date: None,
            edid_version: None,
            product_code: None,
            serial_number: None,
            serial_number_string: None,
            display_name: None,
            unspecified_text: Seq::new(4, |i: int| None),
            digital: false,
            color_bit_depth: None,
            display_technology: None,
            display_subtype: None,
            operating_mode: None,
            backlight_type: None,
            data_enable_used: None,
            data_enable_positive: None,
            native_pixels: None,
            panel_aspect_ratio_100: None,
            physical_orientation: None,
            rotation_capability: None,
            zero_pixel_location: None,
            scan_direction: None,
            subpixel_layout: None,
            pixel_pitch_hundredths_mm: None,
            pixel_response_time_ms: None,
            power_sequencing: None,
            transfer_characteristic: None,
            display_id_interface: None,
            stereo_interface: None,
            tiled_topology: None,
            chromaticity: Chromaticity::spec_zero(),
            video_interface: None,
            screen_size: None,
            min_v_rate: None,
            max_v_rate: None,
            min_h_rate_khz: None,
            max_h_rate_khz: None,
            max_pixel_clock_mhz: None,
            preferred_image_size_mm: None,
            display_id: None,
            supported_modes: Seq::empty(),
            warnings: Seq::empty(),
        }
    }
}

impl Default for DisplayCapabilities {
    fn default() -> (r: Self)
        ensures
            r@ == CapabilitiesView::empty(),
    {
        let r = DisplayCapabilities {
            manufacturer: None,
            manufacture_date: None,
            edid_version: None,
            product_code: None,
            serial_number: None,
            serial_number_string: None,
            display_name: None,
            unspecified_text: [None; 4],
            digital: false,
            color_bit_depth: None,
            display_technology: None,
            display_subtype: None,
            operating_mode: None,
            backlight_type: None,
            data_enable_used: None,
            data_enable_positive: None,
            native_pixels: None,
            panel_aspect_ratio_100: None,
            physical_orientation: None,
            rotation_capability: None,
            zero_pixel_location: None,
            scan_direction: None,
            subpixel_layout: None,
            pixel_pitch_hundredths_mm: None,
            pixel_response_time_ms: None,
            power_sequencing: None,
            transfer_characteristic: None,
            display_id_interface: None,
            stereo_interface: None,
            tiled_topology: None,
            chromaticity: Chromaticity { red: ChromaticityPoint { x_raw: 0, y_raw: 0 }, green: ChromaticityPoint { x_raw: 0, y_raw: 0 }, blue: ChromaticityPoint { x_raw: 0, y_raw: 0 }, white: ChromaticityPoint { x_raw: 0, y_raw: 0 } },
            video_interface: None,
            screen_size: None,
            min_v_rate: None,
            max_v_rate: None,
            min_h_rate_khz: None,
            max_h_rate_khz: None,
            max_pixel_clock_mhz: None,
            preferred_image_size_mm: None,
            display_id: None,
            supported_modes: Vec::new(),
            warnings: Vec::new(),
        };
        assert(r@.unspecified_text =~= CapabilitiesView::empty().unspecified_text);
        assert(r@.supported_modes =~= CapabilitiesView::empty().supported_modes);
        r
    }
}

/// Whether `modes` lists a mode with the same resolution, refresh rate and scan type as `m`.
pub open spec fn has_mode_key(modes: Seq<VideoMode>, m: VideoMode) -> bool {
    exists|i: int| 0 <= i < modes.len() && same_mode_key(#[trigger] modes[i], m)
}

/// The mode list after pushing `mode`: unchanged when a mode with the same resolution,
/// refresh rate and scan type is already listed (the first one wins), otherwise extended
/// by `mode`.
pub open spec fn modes_pushed(modes: Seq<VideoMode>, mode: VideoMode) -> Seq<VideoMode> {
    if has_mode_key(modes, mode) {
        modes
    } else {
        modes.push(mode)
    }
}

impl DisplayCapabilities {
    /// Adds a decoded video mode; a mode with the same width, height, refresh rate and
    /// interlace flag as one already listed is ignored.
    pub fn push_mode(&mut self, mode: VideoMode)
        ensures
            final(self)@ == (CapabilitiesView {
                supported_modes: modes_pushed(old(self)@.supported_modes, mode),
                ..old(self)@
            }),
    {
        let mut i: usize = 0;
        while i < self.supported_modes.len()
            invariant
                i <= self.supported_modes@.len(),
                forall|j: int| 0 <= j < i ==> !same_mode_key(#[trigger] self.supported_modes@[j], mode),
            decreases self.supported_modes@.len() - i,
        {
            let existing = self.supported_modes[i];
            if existing.width == mode.width && existing.height == mode.height
                && existing.refresh_rate == mode.refresh_rate && existing.interlaced
                == mode.interlaced {
                assert(same_mode_key(self.supported_modes@[i as int], mode));
                return;
            }
            i = i + 1;
        }
        self.supported_modes.push(mode);
    }

    /// Appends a non-fatal warning.
    pub fn push_warning(&mut self, w: EdidWarning)
        ensures
            final(self)@ == (CapabilitiesView { warnings: old(self)@.warnings.push(w), ..old(self)@ }),
    {
        self.warnings.push(w);
    }
}


/// Receives the video modes and warnings that block handlers decode.
///
/// Implemented by [`DisplayCapabilities`], [`StaticDisplayCapabilities`] and
/// [`StaticContext`], so decoding logic can write to any of them.
pub trait ModeSink {
    /// Pushes a decoded video mode; the sink decides whether a repeated mode is kept.
    fn push_mode(&mut self, mode: VideoMode);

    /// Pushes a non-fatal warning encountered while processing a block.
    fn push_warning(&mut self, w: EdidWarning);
}

impl ModeSink for DisplayCapabilities {
    fn push_mode(&mut self, mode: VideoMode)
        ensures
            final(self)@ == (CapabilitiesView {
                supported_modes: modes_pushed(old(self)@.supported_modes, mode),
                ..old(self)@
            }),
    {
        DisplayCapabilities::push_mode(self, mode);
    }

    fn push_warning(&mut self, w: EdidWarning)
        ensures
            final(self)@ == (CapabilitiesView { warnings: old(self)@.warnings.push(w), ..old(self)@ }),
    {
        DisplayCapabilities::push_warning(self, w);
    }
}

/// Whether two modes have the same resolution, refresh rate and scan type: the criterion by
/// which a fixed-capacity sink recognises a repeated mode.
pub open spec fn same_mode_key(a: VideoMode, b: VideoMode) -> bool {
    &&& a.width == b.width
    &&& a.height == b.height
    &&& a.refresh_rate == b.refresh_rate
    &&& a.interlaced == b.interlaced
}

/// Whether one of the first `n` slots holds a mode with the same key as `m`.
pub open spec fn slots_have_key(slots: Seq<Option<VideoMode>>, n: int, m: VideoMode) -> bool {
    exists|i: int| 0 <= i < n && #[trigger] slots[i] is Some && same_mode_key(slots[i]->0, m)
}

/// The mode slots and count after pushing `m`: when a free slot is left and no filled slot
/// has the same key, `m` goes into the next slot; otherwise nothing changes.
pub open spec fn mode_slots_pushed(
    slots: Seq<Option<VideoMode>>,
    num: nat,
    m: VideoMode,
) -> (Seq<Option<VideoMode>>, nat) {
    if num < slots.len() && !slots_have_key(slots, num as int, m) {
        (slots.update(num as int, Some(m)), num + 1)
    } else {
        (slots, num)
    }
}

/// The warning slots and count after pushing `w`: into the next slot while one is free,
/// otherwise dropped.
pub open spec fn warning_slots_pushed(
    slots: Seq<Option<EdidWarning>>,
    num: nat,
    w: EdidWarning,
) -> (Seq<Option<EdidWarning>>, nat) {
    if num < slots.len() {
        (slots.update(num as int, Some(w)), num + 1)
    } else {
        (slots, num)
    }
}

/// The fixed-capacity mode and warning slots that the allocation-free pipeline fills.
pub struct SlotState {
    /// The mode slots; their number is the capacity.
    pub modes: Seq<Option<VideoMode>>,
    /// How many mode slots are in use.
    pub num_modes: nat,
    /// The warning slots.
    pub warnings: Seq<Option<EdidWarning>>,
    /// How many warning slots are in use.
    pub num_warnings: nat,
}

/// The slots after pushing mode `m`.
pub open spec fn slots_with_mode(s: SlotState, m: VideoMode) -> SlotState {
    let (modes, num_modes) = mode_slots_pushed(s.modes, s.num_modes, m);
    SlotState { modes, num_modes, ..s }
}

/// The slots after pushing warning `w`.
pub open spec fn slots_with_warning(s: SlotState, w: EdidWarning) -> SlotState {
    let (warnings, num_warnings) = warning_slots_pushed(s.warnings, s.num_warnings, w);
    SlotState { warnings, num_warnings, ..s }
}

/// The slots after pushing each mode of `ms`, in order.
pub open spec fn slots_with_modes(s: SlotState, ms: Seq<VideoMode>) -> SlotState
    decreases ms.len(),
{
    if ms.len() == 0 {
        s
    } else {
        slots_with_mode(slots_with_modes(s, ms.drop_last()), ms.last())
    }
}

/// Pushes `mode` into the slots `modes`, of which the first `*num` are in use.
fn push_mode_slot(modes: &mut [Option<VideoMode>], num: &mut usize, mode: VideoMode)
    ensures
        (final(modes)@, *final(num) as nat) == mode_slots_pushed(old(modes)@, *old(num) as nat, mode),
{
    let n = *num;
    if n >= modes.len() {
        return;
    }
    let mut i: usize = 0;
    while i < n
        invariant
            n < modes@.len(),
            n == *num,
            i <= n,
            modes@ == old(modes)@,
            forall|j: int|
                0 <= j < i ==> !(#[trigger] modes@[j] is Some && same_mode_key(modes@[j]->0, mode)),
        decreases n - i,
    {
        match modes[i] {
            Some(existing) => {
                if existing.width == mode.width && existing.height == mode.height
                    && existing.refresh_rate == mode.refresh_rate && existing.interlaced
                    == mode.interlaced {
                    assert(modes@[i as int] is Some && same_mode_key(modes@[i as int]->0, mode));
                    return;
                }
            },
            None => {},
        }
        i = i + 1;
    }
    modes[n] = Some(mode);
    *num = n + 1;
}

/// Pushes `w` into the slots `warnings`, of which the first `*num` are in use.
fn push_warning_slot(warnings: &mut [Option<EdidWarning>], num: &mut usize, w: EdidWarning)
    ensures
        (final(warnings)@, *final(num) as nat) == warning_slots_pushed(old(warnings)@, *old(num) as nat, w),
{
    let n = *num;
    if n < warnings.len() {
        warnings[n] = Some(w);
        *num = n + 1;
    }
}


/// Display capabilities held without heap allocation: the scalar fields of
/// [`DisplayCapabilities`] plus at most `MAX_MODES` video modes and at most eight warnings.
/// Modes and warnings beyond the capacity are dropped.
#[derive(Debug, Clone)]
pub struct StaticDisplayCapabilities<const MAX_MODES: usize> {
    /// Three-character PNP manufacturer ID (e.g. `GSM` for LG, `SAM` for Samsung).
    pub manufacturer: Option<ManufacturerId>,
    /// Manufacture date or model year, decoded from bytes 16–17.
    pub manufacture_date: Option<ManufactureDate>,
    /// EDID specification version and revision, decoded from bytes 18–19.
    pub edid_version: Option<EdidVersion>,
    /// Manufacturer-assigned product code.
    pub product_code: Option<u16>,
    /// Manufacturer-assigned serial number, if encoded numerically in the base block.
    pub serial_number: Option<u32>,
    /// Serial number string, if present.
    pub serial_number_string: Option<MonitorString>,
    /// Human-readable display name, if present.
    pub display_name: Option<MonitorString>,
    /// Unspecified ASCII text strings, in slot order.
    pub unspecified_text: [Option<MonitorString>; 4],
    /// `true` if the display uses a digital input interface.
    pub digital: bool,
    /// Color bit depth per primary channel.
    pub color_bit_depth: Option<ColorBitDepth>,
    /// Physical display technology.
    pub display_technology: Option<DisplayTechnology>,
    /// Technology-specific sub-type code (raw, 0–15).
    pub display_subtype: Option<u8>,
    /// Panel operating mode.
    pub operating_mode: Option<OperatingMode>,
    /// Backlight type.
    pub backlight_type: Option<BacklightType>,
    /// Whether the panel uses a Data Enable (DE) signal.
    pub data_enable_used: Option<bool>,
    /// Data Enable signal polarity: `true` = positive.
    pub data_enable_positive: Option<bool>,
    /// Native pixel format `(width_px, height_px)`.
    pub native_pixels: Option<(u16, u16)>,
    /// Panel aspect ratio encoded as `(AR − 1) × 100`.
    pub panel_aspect_ratio_100: Option<u8>,
    /// Physical mounting orientation of the panel.
    pub physical_orientation: Option<PhysicalOrientation>,
    /// Panel rotation capability.
    pub rotation_capability: Option<RotationCapability>,
    /// Location of the zero (origin) pixel.
    pub zero_pixel_location: Option<ZeroPixelLocation>,
    /// Fast-scan direction relative to H-sync.
    pub scan_direction: Option<ScanDirection>,
    /// Sub-pixel color filter arrangement.
    pub subpixel_layout: Option<SubpixelLayout>,
    /// Pixel pitch in 0.01 mm units.
    pub pixel_pitch_hundredths_mm: Option<(u8, u8)>,
    /// Pixel response time in milliseconds.
    pub pixel_response_time_ms: Option<u8>,
    /// Interface power sequencing timing parameters.
    pub power_sequencing: Option<PowerSequencing>,
    /// Physical display interface capabilities.
    pub display_id_interface: Option<DisplayIdInterface>,
    /// Stereo display interface parameters.
    pub stereo_interface: Option<DisplayIdStereoInterface>,
    /// Tiled display topology.
    pub tiled_topology: Option<DisplayIdTiledTopology>,
    /// CIE xy chromaticity coordinates of the primaries and white point.
    pub chromaticity: Chromaticity,
    /// Video interface type.
    pub video_interface: Option<VideoInterface>,
    /// Physical screen dimensions or aspect ratio.
    pub screen_size: Option<ScreenSize>,
    /// Minimum supported vertical refresh rate in Hz.
    pub min_v_rate: Option<u16>,
    /// Maximum supported vertical refresh rate in Hz.
    pub max_v_rate: Option<u16>,
    /// Minimum supported horizontal scan rate in kHz.
    pub min_h_rate_khz: Option<u16>,
    /// Maximum supported horizontal scan rate in kHz.
    pub max_h_rate_khz: Option<u16>,
    /// Maximum pixel clock in MHz.
    pub max_pixel_clock_mhz: Option<u16>,
    /// Physical image area dimensions in millimetres.
    pub preferred_image_size_mm: Option<(u16, u16)>,
    /// Video mode slots; the first [`num_modes`][Self::num_modes] are in use.
    pub supported_modes: [Option<VideoMode>; MAX_MODES],
    /// Number of slots of [`supported_modes`][Self::supported_modes] in use.
    pub num_modes: usize,
    /// Warning slots; the first [`num_warnings`][Self::num_warnings] are in use.
    pub warnings: [Option<EdidWarning>; 8],
    /// Number of slots of [`warnings`][Self::warnings] in use.
    pub num_warnings: usize,
}

impl<const MAX_MODES: usize> StaticDisplayCapabilities<MAX_MODES> {
    /// The scalar fields, in the model of [`DisplayCapabilities`]: no modes, warnings,
    /// DisplayID section or transfer characteristic.
    pub open spec fn scalars(&self) -> CapabilitiesView {
        CapabilitiesView {
            manufacturer: id_view(self.manufacturer),
            manufacture_date: self.manufacture_date,
            edid_version: self.edid_version,
            product_code: self.product_code,
            serial_number: self.serial_number,
            serial_number_string: text_view(self.serial_number_string),
            display_name: text_view(self.display_name),
            unspecified_text: Seq::new(4, |i: int| text_view(self.unspecified_text@[i])),
            digital: self.digital,
            color_bit_depth: self.color_bit_depth,
            display_technology: self.display_technology,
            display_subtype: self.display_subtype,
            operating_mode: self.operating_mode,
            backlight_type: self.backlight_type,
            data_enable_used: self.data_enable_used,
            data_enable_positive: self.data_enable_positive,
            native_pixels: self.native_pixels,
            panel_aspect_ratio_100: self.panel_aspect_ratio_100,
            physical_orientation: self.physical_orientation,
            rotation_capability: self.rotation_capability,
            zero_pixel_location: self.zero_pixel_location,
            scan_direction: self.scan_direction,
            subpixel_layout: self.subpixel_layout,
            pixel_pitch_hundredths_mm: self.pixel_pitch_hundredths_mm,
            pixel_response_time_ms: self.pixel_response_time_ms,
            power_sequencing: self.power_sequencing,
            display_id_interface: self.display_id_interface,
            stereo_interface: self.stereo_interface,
            tiled_topology: self.tiled_topology,
            chromaticity: self.chromaticity,
            video_interface: self.video_interface,
            screen_size: self.screen_size,
            min_v_rate: self.min_v_rate,
            max_v_rate: self.max_v_rate,
            min_h_rate_khz: self.min_h_rate_khz,
            max_h_rate_khz: self.max_h_rate_khz,
            max_pixel_clock_mhz: self.max_pixel_clock_mhz,
            preferred_image_size_mm: self.preferred_image_size_mm,
            transfer_characteristic: None,
            display_id: None,
            supported_modes: Seq::empty(),
            warnings: Seq::empty(),
        }
    }

    /// The mode and warning slots.
    pub open spec fn slots(&self) -> SlotState {
        SlotState {
            modes: self.supported_modes@,
            num_modes: self.num_modes as nat,
            warnings: self.warnings@,
            num_warnings: self.num_warnings as nat,
        }
    }
}

/// The slots of an empty sink of capacity `n`.
pub open spec fn empty_slots(n: nat) -> SlotState {
    SlotState {
        modes: Seq::new(n, |i: int| None),
        num_modes: 0,
        warnings: Seq::new(8, |i: int| None),
        num_warnings: 0,
    }
}

impl<const MAX_MODES: usize> Default for StaticDisplayCapabilities<MAX_MODES> {
    fn default() -> (r: Self)
        ensures
            r.scalars() == CapabilitiesView::empty(),
            r.slots() == empty_slots(MAX_MODES as nat),
    {
        let r = StaticDisplayCapabilities {
            manufacturer: None,
            manufacture_date: None,
            edid_version: None,
            product_code: None,
            serial_number: None,
            serial_number_string: None,
            display_name: None,
            unspecified_text: [None; 4],
            digital: false,
            color_bit_depth: None,
            display_technology: None,
            display_subtype: None,
            operating_mode: None,
            backlight_type: None,
            data_enable_used: None,
            data_enable_positive: None,
            native_pixels: None,
            panel_aspect_ratio_100: None,
            physical_orientation: None,
            rotation_capability: None,
            zero_pixel_location: None,
            scan_direction: None,
            subpixel_layout: None,
            pixel_pitch_hundredths_mm: None,
            pixel_response_time_ms: None,
            power_sequencing: None,
            display_id_interface: None,
            stereo_interface: None,
            tiled_topology: None,
            chromaticity: Chromaticity {
                red: ChromaticityPoint { x_raw: 0, y_raw: 0 },
                green: ChromaticityPoint { x_raw: 0, y_raw: 0 },
                blue: ChromaticityPoint { x_raw: 0, y_raw: 0 },
                white: ChromaticityPoint { x_raw: 0, y_raw: 0 },
            },
            video_interface: None,
            screen_size: None,
            min_v_rate: None,
            max_v_rate: None,
            min_h_rate_khz: None,
            max_h_rate_khz: None,
            max_pixel_clock_mhz: None,
            preferred_image_size_mm: None,
            supported_modes: vstd::array::array_fill_for_copy_types::<Option<VideoMode>, MAX_MODES>(
                None,
            ),
            num_modes: 0,
            warnings: [None; 8],
            num_warnings: 0,
        };
        assert(r.scalars().unspecified_text =~= CapabilitiesView::empty().unspecified_text);
        assert(r.slots().modes =~= empty_slots(MAX_MODES as nat).modes);
        assert(r.slots().warnings =~= empty_slots(MAX_MODES as nat).warnings);
        r
    }
}

/// The values held by `slots`, in slot order, skipping empty slots.
pub open spec fn slot_values<T>(slots: Seq<Option<T>>) -> Seq<T>
    decreases slots.len(),
{
    if slots.len() == 0 {
        Seq::empty()
    } else {
        let prev = slot_values(slots.drop_last());
        match slots.last() {
            Some(v) => prev.push(v),
            None => prev,
        }
    }
}

/// The values of the first `n` slots, skipping empty ones.
fn values_of_slots<T: Copy>(slots: &[Option<T>], n: usize) -> (r: Vec<T>)
    requires
        n <= slots@.len(),
    ensures
        r@ == slot_values(slots@.take(n as int)),
{
    let mut out: Vec<T> = Vec::new();
    let mut i: usize = 0;
    while i < n
        invariant
            n <= slots@.len(),
            i <= n,
            out@ == slot_values(slots@.take(i as int)),
        decreases n - i,
    {
        assert(slots@.take(i + 1).drop_last() =~= slots@.take(i as int));
        match slots[i] {
            Some(v) => out.push(v),
            None => {},
        }
        i = i + 1;
    }
    out
}

impl<const MAX_MODES: usize> StaticDisplayCapabilities<MAX_MODES> {
    /// The decoded video modes, in slot order.
    pub fn iter_modes(&self) -> (r: Vec<VideoMode>)
        requires
            self.num_modes <= MAX_MODES,
        ensures
            r@ == slot_values(self.supported_modes@.take(self.num_modes as int)),
    {
        values_of_slots(self.supported_modes.as_slice(), self.num_modes)
    }

    /// The collected warnings, in slot order.
    pub fn iter_warnings(&self) -> (r: Vec<EdidWarning>)
        requires
            self.num_warnings <= 8,
        ensures
            r@ == slot_values(self.warnings@.take(self.num_warnings as int)),
    {
        values_of_slots(self.warnings.as_slice(), self.num_warnings)
    }
}

impl<const MAX_MODES: usize> ModeSink for StaticDisplayCapabilities<MAX_MODES> {
    /// Pushes `mode` into the next free slot, unless a slot in use holds a mode with the same
    /// resolution, refresh rate and scan type, or no slot is free.
    fn push_mode(&mut self, mode: VideoMode)
        ensures
            final(self).slots() == slots_with_mode(old(self).slots(), mode),
            *final(self) == (StaticDisplayCapabilities {
                supported_modes: final(self).supported_modes,
                num_modes: final(self).num_modes,
                ..*old(self)
            }),
    {
        push_mode_slot(&mut self.supported_modes, &mut self.num_modes, mode);
    }

    /// Pushes `w` into the next free warning slot; dropped when all eight are in use.
    fn push_warning(&mut self, w: EdidWarning)
        ensures
            final(self).slots() == slots_with_warning(old(self).slots(), w),
            *final(self) == (StaticDisplayCapabilities {
                warnings: final(self).warnings,
                num_warnings: final(self).num_warnings,
                ..*old(self)
            }),
    {
        push_warning_slot(&mut self.warnings, &mut self.num_warnings, w);
    }
}

/// The output context that allocation-free extension handlers write through: the mode and
/// warning slots of the [`StaticDisplayCapabilities`] it was made from.
pub struct StaticContext<'a> {
    modes: &'a mut [Option<VideoMode>],
    num_modes: &'a mut usize,
    warnings: &'a mut [Option<EdidWarning>],
    num_warnings: &'a mut usize,
}

impl<'a> StaticContext<'a> {
    /// The slots as they stand now.
    pub closed spec fn slots(&self) -> SlotState {
        SlotState {
            modes: self.modes@,
            num_modes: *self.num_modes as nat,
            warnings: self.warnings@,
            num_warnings: *self.num_warnings as nat,
        }
    }

    /// The reference to the mode slots.
    pub closed spec fn modes_ref(&self) -> &'a mut [Option<VideoMode>] {
        self.modes
    }

    /// The reference to the count of mode slots in use.
    pub closed spec fn num_modes_ref(&self) -> &'a mut usize {
        self.num_modes
    }

    /// The reference to the warning slots.
    pub closed spec fn warnings_ref(&self) -> &'a mut [Option<EdidWarning>] {
        self.warnings
    }

    /// The reference to the count of warning slots in use.
    pub closed spec fn num_warnings_ref(&self) -> &'a mut usize {
        self.num_warnings
    }

    /// Creates a context that writes to the mode and warning slots of `caps`.
    pub fn new<const N: usize>(caps: &'a mut StaticDisplayCapabilities<N>) -> (r: Self)
        ensures
            r.slots() == old(caps).slots(),
            final(caps).supported_modes@ == final(r.modes_ref())@,
            final(caps).num_modes == *final(r.num_modes_ref()),
            final(caps).warnings@ == final(r.warnings_ref())@,
            final(caps).num_warnings == *final(r.num_warnings_ref()),
            *final(caps) == (StaticDisplayCapabilities {
                supported_modes: final(caps).supported_modes,
                num_modes: final(caps).num_modes,
                warnings: final(caps).warnings,
                num_warnings: final(caps).num_warnings,
                ..*old(caps)
            }),
    {
        StaticContext {
            modes: &mut caps.supported_modes,
            num_modes: &mut caps.num_modes,
            warnings: &mut caps.warnings,
            num_warnings: &mut caps.num_warnings,
        }
    }

    /// Pushes a decoded video mode; a mode with the same key as one in use, or one beyond
    /// the capacity, is dropped.
    pub fn push_mode(&mut self, mode: VideoMode)
        ensures
            final(self).slots() == slots_with_mode(old(self).slots(), mode),
            final(final(self).modes_ref())@ == final(old(self).modes_ref())@,
            *final(final(self).num_modes_ref()) == *final(old(self).num_modes_ref()),
            final(final(self).warnings_ref())@ == final(old(self).warnings_ref())@,
            *final(final(self).num_warnings_ref()) == *final(old(self).num_warnings_ref()),
    {
        push_mode_slot(self.modes, self.num_modes, mode);
    }

    /// Pushes a non-fatal warning; dropped when all warning slots are in use.
    pub fn push_warning(&mut self, w: EdidWarning)
        ensures
            final(self).slots() == slots_with_warning(old(self).slots(), w),
            final(final(self).modes_ref())@ == final(old(self).modes_ref())@,
            *final(final(self).num_modes_ref()) == *final(old(self).num_modes_ref()),
            final(final(self).warnings_ref())@ == final(old(self).warnings_ref())@,
            *final(final(self).num_warnings_ref()) == *final(old(self).num_warnings_ref()),
    {
        push_warning_slot(self.warnings, self.num_warnings, w);
    }
}

/// Once a context is given up, its slots are those the capabilities it was made from hold.
pub proof fn lemma_context_given_up(ctx: StaticContext)
    requires
        has_resolved(ctx),
    ensures
        ctx.slots().modes == final(ctx.modes_ref())@,
        ctx.slots().num_modes == *final(ctx.num_modes_ref()) as nat,
        ctx.slots().warnings == final(ctx.warnings_ref())@,
        ctx.slots().num_warnings == *final(ctx.num_warnings_ref()) as nat,
{
}

impl<'a> ModeSink for StaticContext<'a> {
    fn push_mode(&mut self, mode: VideoMode)
        ensures
            final(self).slots() == slots_with_mode(old(self).slots(), mode),
            final(final(self).modes_ref())@ == final(old(self).modes_ref())@,
            *final(final(self).num_modes_ref()) == *final(old(self).num_modes_ref()),
            final(final(self).warnings_ref())@ == final(old(self).warnings_ref())@,
            *final(final(self).num_warnings_ref()) == *final(old(self).num_warnings_ref()),
    {
        StaticContext::push_mode(self, mode);
    }

    fn push_warning(&mut self, w: EdidWarning)
        ensures
            final(self).slots() == slots_with_warning(old(self).slots(), w),
            final(final(self).modes_ref())@ == final(old(self).modes_ref())@,
            *final(final(self).num_modes_ref()) == *final(old(self).num_modes_ref()),
            final(final(self).warnings_ref())@ == final(old(self).warnings_ref())@,
            *final(final(self).num_warnings_ref()) == *final(old(self).num_warnings_ref()),
    {
        StaticContext::push_warning(self, w);
    }
}

/// Whether pushing `m` leaves `s` as it is: no slot is free, or a slot in use holds a mode
/// with the same key.
pub open spec fn slots_absorb(s: SlotState, m: VideoMode) -> bool {
    !(s.num_modes < s.modes.len() && !slots_have_key(s.modes, s.num_modes as int, m))
}

/// Once pushing `m` leaves the slots as they are, pushing another mode keeps it so.
proof fn lemma_slots_absorb_step(t: SlotState, m: VideoMode, x: VideoMode)
    requires
        slots_absorb(t, m),
    ensures
        slots_absorb(slots_with_mode(t, x), m),
{
    let u = slots_with_mode(t, x);
    if t.num_modes < t.modes.len() && !slots_have_key(t.modes, t.num_modes as int, x) {
        assert(u.modes == t.modes.update(t.num_modes as int, Some(x)));
        assert(u.num_modes == t.num_modes + 1);
        assert(slots_have_key(t.modes, t.num_modes as int, m));
        let i = choose|i: int|
            0 <= i < t.num_modes && #[trigger] t.modes[i] is Some && same_mode_key(
                t.modes[i]->0,
                m,
            );
        assert(u.modes[i] == t.modes[i]);
        assert(0 <= i < u.num_modes && u.modes[i] is Some && same_mode_key(u.modes[i]->0, m));
        assert(slots_have_key(u.modes, u.num_modes as int, m));
    } else {
        assert(u == t);
    }
}

/// After a list of modes has been pushed, pushing any of them again changes nothing.
pub proof fn lemma_slots_absorb_pushed(s: SlotState, xs: Seq<VideoMode>, m: VideoMode)
    requires
        xs.contains(m),
    ensures
        slots_absorb(slots_with_modes(s, xs), m),
    decreases xs.len(),
{
    let prev = xs.drop_last();
    let t = slots_with_modes(s, prev);
    let x = xs.last();
    assert(slots_with_modes(s, xs) == slots_with_mode(t, x));
    if x == m {
        let u = slots_with_mode(t, m);
        if t.num_modes < t.modes.len() && !slots_have_key(t.modes, t.num_modes as int, m) {
            let n = t.num_modes as int;
            assert(u.modes == t.modes.update(n, Some(m)));
            assert(u.modes[n] is Some && same_mode_key(u.modes[n]->0, m));
            assert(slots_have_key(u.modes, u.num_modes as int, m));
        } else {
            assert(u == t);
        }
    } else {
        let k = choose|k: int| 0 <= k < xs.len() && xs[k] == m;
        assert(prev[k] == m);
        lemma_slots_absorb_pushed(s, prev, m);
        lemma_slots_absorb_step(t, m, x);
    }
}

/// Pushing `a` then `b` into slots is pushing `a + b`.
pub proof fn lemma_slots_with_modes_append(s: SlotState, a: Seq<VideoMode>, b: Seq<VideoMode>)
    ensures
        slots_with_modes(slots_with_modes(s, a), b) == slots_with_modes(s, a + b),
    decreases b.len(),
{
    if b.len() == 0 {
        assert(a + b =~= a);
    } else {
        lemma_slots_with_modes_append(s, a, b.drop_last());
        assert((a + b).drop_last() =~= a + b.drop_last());
        assert((a + b).last() == b.last());
    }
}

/// What pushing modes leaves in the mode slots depends only on the mode slots before.
pub proof fn lemma_slots_with_modes_mode_part(t: SlotState, u: SlotState, ms: Seq<VideoMode>)
    requires
        t.modes == u.modes,
        t.num_modes == u.num_modes,
    ensures
        slots_with_modes(t, ms).modes == slots_with_modes(u, ms).modes,
        slots_with_modes(t, ms).num_modes == slots_with_modes(u, ms).num_modes,
        slots_with_modes(t, ms).warnings == t.warnings,
        slots_with_modes(t, ms).num_warnings == t.num_warnings,
    decreases ms.len(),
{
    if ms.len() > 0 {
        lemma_slots_with_modes_mode_part(t, u, ms.drop_last());
    }
}

/// Slots that absorb a mode absorb every mode with the same key.
pub proof fn lemma_slots_absorb_same_key(t: SlotState, x: VideoMode, m: VideoMode)
    requires
        slots_absorb(t, x),
        same_mode_key(x, m),
    ensures
        slots_absorb(t, m),
{
    if t.num_modes < t.modes.len() {
        let i = choose|i: int|
            0 <= i < t.num_modes && #[trigger] t.modes[i] is Some && same_mode_key(
                t.modes[i]->0,
                x,
            );
        assert(0 <= i < t.num_modes && t.modes[i] is Some && same_mode_key(t.modes[i]->0, m));
    }
}

/// The counts of slots in use do not exceed the slots.
pub open spec fn slots_bounded(s: SlotState) -> bool {
    s.num_modes <= s.modes.len() && s.num_warnings <= s.warnings.len()
}

/// The slots have the same numbers of mode and warning slots.
pub open spec fn same_capacity(s: SlotState, t: SlotState) -> bool {
    s.modes.len() == t.modes.len() && s.warnings.len() == t.warnings.len()
}

/// Pushing modes keeps the counts within the slots and the capacity as it is.
pub proof fn lemma_slots_with_modes_bounded(s: SlotState, ms: Seq<VideoMode>)
    requires
        slots_bounded(s),
    ensures
        slots_bounded(slots_with_modes(s, ms)),
        same_capacity(slots_with_modes(s, ms), s),
    decreases ms.len(),
{
    if ms.len() > 0 {
        lemma_slots_with_modes_bounded(s, ms.drop_last());
    }
}

} // verus!
