//! Data model types for parsed EDID data and display capabilities.

/// Error and warning types.
pub mod diagnostics;
/// Extension tag registries and handler libraries.
pub mod extension;
/// Panel hardware characteristic types (DisplayID Display Device Data and related blocks).
pub mod panel;
/// Parsed EDID intermediate representation.
pub mod edid;
/// Color-related model types.
pub mod color;
/// Input interface model types.
pub mod input;
/// Manufacturer identity and descriptor strings.
pub mod manufacture;
/// Screen size and aspect ratio.
pub mod screen;
/// Luminance transfer characteristic types.
pub mod transfer;
/// DisplayID section records.
pub mod displayid;
/// The consumer-facing capability model.
pub mod capabilities;
/// Timing formula support of the display range limits descriptor.
pub mod timing;
/// Video modes and refresh rates.
pub mod mode;
/// A registry of known extension types with their names.
pub mod registry;
