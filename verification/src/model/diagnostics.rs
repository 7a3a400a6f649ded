use vstd::prelude::*;

verus! {

/// A non-fatal condition encountered while parsing or processing an EDID block.
///
/// Warnings are collected into [`ParsedEdid::warnings`][crate::ParsedEdid] by the parser
/// and into [`DisplayCapabilities::warnings`][crate::DisplayCapabilities] by the handlers.
#[derive(Debug, Clone, Copy, PartialEq, Eq, Structural)]
pub enum EdidWarning {
    /// An extension block with an unrecognised tag was encountered (the tag byte).
    UnknownExtension(u8),
    /// An 18-byte descriptor could not be decoded.
    DescriptorParseFailed,
    /// The manufacturer ID bytes do not encode a valid PNP ID.
    InvalidManufacturerId,
    /// A data block declared a length that extends past the end of its collection.
    MalformedDataBlock,
    /// A Detailed Timing Descriptor slot was shorter than 18 bytes.
    DtdSlotTooShort,
    /// A Detailed Timing Descriptor pixel clock would overflow the refresh rate computation.
    DtdPixelClockOverflow,
    /// More extension blocks were declared than the parser processes.
    ExtensionBlockLimitReached {
        /// The extension count declared in the base block.
        declared: usize,
        /// The number of extension blocks that were processed.
        limit: usize,
    },
    /// A DisplayID extension block carries an unrecognised version byte.
    DisplayIdVersionUnknown(u8),
    /// The DisplayID header's extension count does not match the continuation blocks present.
    DisplayIdExtensionCountMismatch {
        /// Extension count declared in the DisplayID section header.
        declared: u8,
        /// Continuation blocks actually found.
        found: u8,
    },
    /// The DisplayID section checksum does not bring the section to zero.
    DisplayIdChecksumMismatch,
    /// The DisplayID `section_byte_count` places the checksum outside the block.
    DisplayIdSectionBytesOutOfRange(u8),
    /// A Transfer Characteristics block carries the reserved encoding `0b11`.
    UnknownTransferEncoding(u8),
    /// A DisplayID 2.x data block carries a reserved revision.
    UnsupportedV2BlockRevision {
        /// Block tag byte.
        tag: u8,
        /// Revision byte as found.
        revision: u8,
    },
    /// The byte slice is longer than the size implied by the extension count.
    SizeMismatch {
        /// `(1 + extension_count) × 128`.
        expected: usize,
        /// The actual length of the input.
        actual: usize,
    },
}

/// A fatal error that prevents useful parsing of an EDID byte stream.
#[derive(Debug, Clone, Copy, PartialEq, Eq, Structural)]
pub enum EdidError {
    /// The input is shorter than the blocks it must hold (128 bytes per block).
    InvalidLength,
    /// The fixed 8-byte EDID header was not found at offset 0.
    InvalidHeader,
    /// A block's bytes do not sum to zero modulo 256.
    ChecksumMismatch,
}

} // verus!
