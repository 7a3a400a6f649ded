use vstd::prelude::*;

verus! {

/// Color bit depth per primary color channel.
#[derive(Debug, Clone, Copy, PartialEq, Eq, Structural)]
pub enum ColorBitDepth {
    /// 6 bits per primary.
    Depth6,
    /// 8 bits per primary.
    Depth8,
    /// 10 bits per primary.
    Depth10,
    /// 12 bits per primary.
    Depth12,
    /// 14 bits per primary.
    Depth14,
    /// 16 bits per primary.
    Depth16,
}

impl ColorBitDepth {
    /// The depth that the low three bits of `bits` denote: `None` for the undefined `0b000`
    /// and the reserved `0b111`.
    pub open spec fn spec_from_edid_bits(bits: u8) -> Option<ColorBitDepth> {
        let v = bits & 0x07;
        if v == 1 {
            Some(ColorBitDepth::Depth6)
        } else if v == 2 {
            Some(ColorBitDepth::Depth8)
        } else if v == 3 {
            Some(ColorBitDepth::Depth10)
        } else if v == 4 {
            Some(ColorBitDepth::Depth12)
        } else if v == 5 {
            Some(ColorBitDepth::Depth14)
        } else if v == 6 {
            Some(ColorBitDepth::Depth16)
        } else {
            None
        }
    }

    /// The number of bits per primary of this depth.
    pub open spec fn spec_bits_per_primary(self) -> u8 {
        match self {
            ColorBitDepth::Depth6 => 6,
            ColorBitDepth::Depth8 => 8,
            ColorBitDepth::Depth10 => 10,
            ColorBitDepth::Depth12 => 12,
            ColorBitDepth::Depth14 => 14,
            ColorBitDepth::Depth16 => 16,
        }
    }

    /// Decodes bits 6–4 of EDID byte `0x14` (passed shifted down to bits 2–0).
    pub fn from_edid_bits(bits: u8) -> (r: Option<Self>)
        ensures
            r == Self::spec_from_edid_bits(bits),
    {
        match bits & 0x07 {
            0b001 => Some(Self::Depth6),
            0b010 => Some(Self::Depth8),
            0b011 => Some(Self::Depth10),
            0b100 => Some(Self::Depth12),
            0b101 => Some(Self::Depth14),
            0b110 => Some(Self::Depth16),
            _ => None,
        }
    }

    /// Returns the number of bits per primary color channel.
    pub fn bits_per_primary(&self) -> (r: u8)
        ensures
            r == self.spec_bits_per_primary(),
    {
        match self {
            Self::Depth6 => 6,
            Self::Depth8 => 8,
            Self::Depth10 => 10,
            Self::Depth12 => 12,
            Self::Depth14 => 14,
            Self::Depth16 => 16,
        }
    }
}

/// A CIE xy chromaticity point as raw 10-bit values (value / 1024 gives the coordinate).
#[derive(Debug, Clone, Copy, PartialEq, Eq, Structural)]
pub struct ChromaticityPoint {
    /// Raw x coordinate.
    pub x_raw: u16,
    /// Raw y coordinate.
    pub y_raw: u16,
}

/// Chromaticity of the three primaries and the white point.
#[derive(Debug, Clone, Copy, PartialEq, Eq, Structural)]
pub struct Chromaticity {
    /// Red primary.
    pub red: ChromaticityPoint,
    /// Green primary.
    pub green: ChromaticityPoint,
    /// Blue primary.
    pub blue: ChromaticityPoint,
    /// White point.
    pub white: ChromaticityPoint,
}

impl Chromaticity {
    /// All coordinates zero, the value before any block sets them.
    pub open spec fn spec_zero() -> Chromaticity {
        let z = ChromaticityPoint { x_raw: 0, y_raw: 0 };
        Chromaticity { red: z, green: z, blue: z, white: z }
    }
}

impl Default for ChromaticityPoint {
    fn default() -> (r: Self)
        ensures
            r == (ChromaticityPoint { x_raw: 0, y_raw: 0 }),
    {
        ChromaticityPoint { x_raw: 0, y_raw: 0 }
    }
}

impl Default for Chromaticity {
    fn default() -> (r: Self)
        ensures
            r == Chromaticity::spec_zero(),
    {
        let z = ChromaticityPoint { x_raw: 0, y_raw: 0 };
        Chromaticity { red: z, green: z, blue: z, white: z }
    }
}

/// A depth code of 1–6 decodes to `2 × code + 4` bits per primary; codes 0 and 7 decode
/// to no depth.
pub proof fn lemma_depth_code_bits(bits: u8)
    ensures
        match ColorBitDepth::spec_from_edid_bits(bits) {
            Some(d) => 1 <= bits & 7 <= 6 && d.spec_bits_per_primary() == 2 * (bits & 7) + 4,
            None => bits & 7 == 0 || bits & 7 == 7,
        },
{
    assert(bits & 7 <= 7) by (bit_vector);
}

} // verus!
