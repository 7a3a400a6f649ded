use vstd::prelude::*;

verus! {

/// Bit depth of the transfer characteristic sample points (Transfer Characteristics Block
/// byte 0 bits 7:6).
#[derive(Debug, Clone, Copy, PartialEq, Eq, Structural)]
pub enum TransferPointEncoding {
    /// 8 bits per point: one byte per sample, range 0–255.
    Bits8,
    /// 10 bits per point: 5 bytes packed MSB-first per 4 samples, range 0–1023.
    Bits10,
    /// 12 bits per point: 3 bytes packed MSB-first per 2 samples, range 0–4095.
    Bits12,
}

/// Transfer curve samples, as the raw unsigned values of the block at evenly spaced input
/// levels from black to white (divide by the encoding's maximum for the `[0, 1]` value).
#[derive(Debug, Clone, PartialEq, Eq)]
pub enum TransferCurve {
    /// A single luminance curve.
    Luminance(Vec<u16>),
    /// Separate curves for the three primaries.
    Rgb {
        /// Red primary curve.
        red: Vec<u16>,
        /// Green primary curve.
        green: Vec<u16>,
        /// Blue primary curve.
        blue: Vec<u16>,
    },
}

/// The samples of a [`TransferCurve`] as sequences.
pub enum TransferCurveView {
    /// A single luminance curve.
    Luminance(Seq<u16>),
    /// Separate curves for the three primaries.
    Rgb { red: Seq<u16>, green: Seq<u16>, blue: Seq<u16> },
}

impl View for TransferCurve {
    type V = TransferCurveView;

    open spec fn view(&self) -> TransferCurveView {
        match self {
            TransferCurve::Luminance(v) => TransferCurveView::Luminance(v@),
            TransferCurve::Rgb { red, green, blue } => TransferCurveView::Rgb {
                red: red@,
                green: green@,
                blue: blue@,
            },
        }
    }
}

/// A decoded Transfer Characteristics Block (DisplayID 1.x `0x0E`).
#[derive(Debug, Clone, PartialEq, Eq)]
pub struct DisplayIdTransferCharacteristic {
    /// Bit depth of each sample value.
    pub encoding: TransferPointEncoding,
    /// The sample data.
    pub curve: TransferCurve,
}

/// A [`DisplayIdTransferCharacteristic`] with its samples as sequences.
pub struct TransferCharacteristicView {
    /// Bit depth of each sample value.
    pub encoding: TransferPointEncoding,
    /// The sample data.
    pub curve: TransferCurveView,
}

impl View for DisplayIdTransferCharacteristic {
    type V = TransferCharacteristicView;

    open spec fn view(&self) -> TransferCharacteristicView {
        TransferCharacteristicView { encoding: self.encoding, curve: self.curve@ }
    }
}

} // verus!
