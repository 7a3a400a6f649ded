//! Decoding of EDID and DisplayID display capability data into a typed model.
//!
//! The pipeline has two steps: [`parse_edid`] validates the raw bytes (length, header,
//! block checksums) and splits them into blocks; [`capabilities_from_edid`] runs the
//! registered handlers over those blocks and produces a [`DisplayCapabilities`].
//! [`capabilities_from_edid_static`] does the same into a fixed-capacity
//! [`StaticDisplayCapabilities`].

/// Types for the EDID data model.
pub mod model;

pub use model::capabilities::{
    CapabilitiesView, DisplayCapabilities, ModeSink, StaticContext, StaticDisplayCapabilities,
};
pub use model::color::{Chromaticity, ChromaticityPoint, ColorBitDepth};
pub use model::diagnostics::{EdidError, EdidWarning};
pub use model::displayid::DisplayIdCapabilities;
pub use model::edid::{EdidSource, EdidVersion, ParsedEdid, ParsedEdidRef};
pub use model::extension::{
    BlockHandler, ExtensionHandler, ExtensionLibrary, ExtensionMetadata, ExtensionTagRegistry,
    KnownExtensions, StaticExtensionHandler,
};
pub use model::input::VideoInterface;
pub use model::manufacture::{ManufactureDate, ManufacturerId, MonitorString};
pub use model::mode::{CvtAlgorithm, ModeSource, RefreshRate, StereoMode, SyncDefinition, VideoMode};
pub use model::registry::{Extension, ExtensionRegistry};
pub use model::panel::{
    BacklightType, DisplayIdInterface, DisplayIdStereoInterface, DisplayIdTiledTopology,
    DisplayInterfaceType, DisplayTechnology, InterfaceContentProtection, OperatingMode,
    PhysicalOrientation, PowerSequencing, RotationCapability, ScanDirection, StereoSyncInterface,
    StereoViewingMode, SubpixelLayout, TileBezelInfo, TileTopologyBehavior, ZeroPixelLocation,
};
pub use model::screen::ScreenSize;
pub use model::timing::{
    CvtAspectRatio, CvtAspectRatios, CvtScaling, CvtSupportParams, GtfSecondaryParams, TimingFormula,
};
pub use model::transfer::{DisplayIdTransferCharacteristic, TransferCurve, TransferPointEncoding};

/// EDID byte-level parser.
pub mod parser;
pub use parser::{parse_edid, EDID_HEADER, MAX_EXTENSION_BLOCKS};

/// Capability extraction from a [`ParsedEdid`].
pub mod capabilities;
pub use capabilities::{capabilities_from_edid, capabilities_from_edid_static};
pub use capabilities::cea861::Cea861Handler;
pub use capabilities::displayid::DisplayIdHandler;
