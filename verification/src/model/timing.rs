use vstd::prelude::*;

verus! {

/// GTF secondary curve parameters of a display range limits descriptor (`0xFD`).
#[derive(Debug, Clone, Copy, PartialEq, Eq, Structural)]
pub struct GtfSecondaryParams {
    /// Start break frequency in kHz (byte 12 × 2).
    pub start_freq_khz: u16,
    /// GTF `C` parameter (byte 13 ÷ 2).
    pub c: u8,
    /// GTF `M` parameter (bytes 14–15, little-endian).
    pub m: u16,
    /// GTF `K` parameter (byte 16).
    pub k: u8,
    /// GTF `J` parameter (byte 17 ÷ 2).
    pub j: u8,
}

/// Aspect ratios supported for CVT-generated timings (byte 14 of a `0xFD` descriptor):
/// `0x80` 4∶3, `0x40` 16∶9, `0x20` 16∶10, `0x10` 5∶4, `0x08` 15∶9.
#[derive(Debug, Clone, Copy, PartialEq, Eq, Structural)]
pub struct CvtAspectRatios {
    /// The flag bits.
    pub flags: u8,
}

impl CvtAspectRatios {
    /// The defined flag bits.
    pub const ALL: u8 = 0xF8;

    /// Keeps the defined flags of `bits` and drops the rest.
    pub fn from_bits_truncate(bits: u8) -> (r: Self)
        ensures
            r.flags == bits & Self::ALL,
    {
        CvtAspectRatios { flags: bits & Self::ALL }
    }

    /// The flag bits.
    pub fn bits(&self) -> (r: u8)
        ensures
            r == self.flags,
    {
        self.flags
    }
}

/// Display scaling capabilities (byte 16 of a `0xFD` CVT descriptor): `0x80` horizontal
/// shrink, `0x40` horizontal stretch, `0x20` vertical shrink, `0x10` vertical stretch.
#[derive(Debug, Clone, Copy, PartialEq, Eq, Structural)]
pub struct CvtScaling {
    /// The flag bits.
    pub flags: u8,
}

impl CvtScaling {
    /// The defined flag bits.
    pub const ALL: u8 = 0xF0;

    /// Keeps the defined flags of `bits` and drops the rest.
    pub fn from_bits_truncate(bits: u8) -> (r: Self)
        ensures
            r.flags == bits & Self::ALL,
    {
        CvtScaling { flags: bits & Self::ALL }
    }

    /// The flag bits.
    pub fn bits(&self) -> (r: u8)
        ensures
            r == self.flags,
    {
        self.flags
    }
}

/// Preferred aspect ratio for CVT-generated timings (byte 15 bits 7–5).
#[derive(Debug, Clone, Copy, PartialEq, Eq, Structural)]
pub enum CvtAspectRatio {
    /// 4∶3 (`0b000`).
    R4_3,
    /// 16∶9 (`0b001`).
    R16_9,
    /// 16∶10 (`0b010`).
    R16_10,
    /// 5∶4 (`0b011`).
    R5_4,
    /// 15∶9 (`0b100`).
    R15_9,
}

impl CvtAspectRatio {
    /// The aspect ratio that bits 7–5 of `bits` denote (`None` for the reserved codes).
    pub open spec fn spec_from_bits(bits: u8) -> Option<CvtAspectRatio> {
        let v = (bits >> 5) & 7;
        if v == 0 {
            Some(CvtAspectRatio::R4_3)
        } else if v == 1 {
            Some(CvtAspectRatio::R16_9)
        } else if v == 2 {
            Some(CvtAspectRatio::R16_10)
        } else if v == 3 {
            Some(CvtAspectRatio::R5_4)
        } else if v == 4 {
            Some(CvtAspectRatio::R15_9)
        } else {
            None
        }
    }

    /// Codes 0 to 4 of bits 7–5 name 4∶3, 16∶9, 16∶10, 5∶4 and 15∶9, each its own; the
    /// reserved codes 5 to 7 name none.
    pub proof fn lemma_codes(bits: u8)
        ensures
            (Self::spec_from_bits(bits) == Some(CvtAspectRatio::R4_3)) == (bits / 32 == 0),
            (Self::spec_from_bits(bits) == Some(CvtAspectRatio::R16_9)) == (bits / 32 == 1),
            (Self::spec_from_bits(bits) == Some(CvtAspectRatio::R16_10)) == (bits / 32 == 2),
            (Self::spec_from_bits(bits) == Some(CvtAspectRatio::R5_4)) == (bits / 32 == 3),
            (Self::spec_from_bits(bits) == Some(CvtAspectRatio::R15_9)) == (bits / 32 == 4),
            (Self::spec_from_bits(bits) is None) == (bits / 32 >= 5),
    {
        vstd::bits::lemma_u8_shr_is_div(bits, 5);
        vstd::arithmetic::power2::lemma2_to64();
        let code = bits >> 5;
        vstd::bits::lemma_u8_low_bits_mask_is_mod(code, 3);
        vstd::bits::lemma_low_bits_mask_values();
        assert(code & 7 == code % 8);
        assert(code == bits / 32);
    }

    /// Decodes the preferred aspect ratio from bits 7–5 of `bits`.
    pub fn from_bits(bits: u8) -> (r: Option<Self>)
        ensures
            r == Self::spec_from_bits(bits),
    {
        match (bits >> 5) & 0x07 {
            0 => Some(CvtAspectRatio::R4_3),
            1 => Some(CvtAspectRatio::R16_9),
            2 => Some(CvtAspectRatio::R16_10),
            3 => Some(CvtAspectRatio::R5_4),
            4 => Some(CvtAspectRatio::R15_9),
            _ => None,
        }
    }
}

/// CVT support parameters of a display range limits descriptor (`0xFD`).
#[derive(Debug, Clone, Copy, PartialEq, Eq, Structural)]
pub struct CvtSupportParams {
    /// CVT standard version as two BCD nibbles (byte 11).
    pub version: u8,
    /// Additional pixel clock precision (byte 12 bits 7–2), in 0.25 MHz steps.
    pub pixel_clock_adjust: u8,
    /// Maximum horizontal active pixels, `8 × (byte 13 + 256 × (byte 12 bits 1–0))`, or
    /// `None` when that value is zero.
    pub max_h_active_pixels: Option<u16>,
    /// Supported aspect ratios.
    pub supported_aspect_ratios: CvtAspectRatios,
    /// Preferred aspect ratio, or `None` for a reserved value.
    pub preferred_aspect_ratio: Option<CvtAspectRatio>,
    /// Standard CVT blanking supported (byte 15 bit 3).
    pub standard_blanking: bool,
    /// Reduced CVT blanking supported (byte 15 bit 4).
    pub reduced_blanking: bool,
    /// Display scaling capabilities.
    pub scaling: CvtScaling,
    /// Preferred vertical refresh rate in Hz, or `None` for `0`.
    pub preferred_v_rate: Option<u8>,
}

/// Video timing support reported in byte 10 of a display range limits descriptor (`0xFD`).
#[derive(Debug, Clone, Copy, PartialEq, Eq, Structural)]
pub enum TimingFormula {
    /// Default GTF supported (`0x00`).
    DefaultGtf,
    /// Range limits only (`0x01`).
    RangeLimitsOnly,
    /// Secondary GTF curve supported (`0x02`), with parameters from bytes 12–17.
    SecondaryGtf(GtfSecondaryParams),
    /// CVT supported (`0x04`), with parameters from bytes 11–17.
    Cvt(CvtSupportParams),
}

impl TimingFormula {
    /// The timing formula that bytes 10–17 of a `0xFD` descriptor declare; `None` for an
    /// undefined byte 10.
    pub open spec fn spec_from_descriptor_bytes(b: Seq<u8>) -> Option<TimingFormula> {
        if b[10] == 0 {
            Some(TimingFormula::DefaultGtf)
        } else if b[10] == 1 {
            Some(TimingFormula::RangeLimitsOnly)
        } else if b[10] == 2 {
            Some(
                TimingFormula::SecondaryGtf(
                    GtfSecondaryParams {
                        start_freq_khz: (b[12] * 2) as u16,
                        c: b[13] / 2,
                        m: ((b[15] as u16) << 8) | (b[14] as u16),
                        k: b[16],
                        j: b[17] / 2,
                    },
                ),
            )
        } else if b[10] == 4 {
            let h_raw = b[13] + 256 * (b[12] & 3);
            Some(
                TimingFormula::Cvt(
                    CvtSupportParams {
                        version: b[11],
                        pixel_clock_adjust: (b[12] >> 2) & 0x3F,
                        max_h_active_pixels: if h_raw == 0 {
                            None
                        } else {
                            Some((h_raw * 8) as u16)
                        },
                        supported_aspect_ratios: CvtAspectRatios { flags: b[14] & 0xF8 },
                        preferred_aspect_ratio: CvtAspectRatio::spec_from_bits(b[15]),
                        standard_blanking: b[15] & 0x08 != 0,
                        reduced_blanking: b[15] & 0x10 != 0,
                        scaling: CvtScaling { flags: b[16] & 0xF0 },
                        preferred_v_rate: if b[17] != 0 {
                            Some(b[17])
                        } else {
                            None
                        },
                    },
                ),
            )
        } else {
            None
        }
    }

    /// Byte 10 of a `0xFD` descriptor selects the formula: 0 default GTF, 1 range limits
    /// only, 2 a secondary GTF curve, 4 CVT, anything else none. A secondary GTF curve
    /// starts at 2 × byte 12 kHz, with `C` = byte 13 ÷ 2, `M` the little-endian word at bytes
    /// 14–15, `K` = byte 16 and `J` = byte 17 ÷ 2. CVT support has the version in byte 11, the
    /// clock adjustment in byte 12 bits 7–2, at most 8 × (byte 13 + 256 × (byte 12 bits 1–0))
    /// active pixels per line (none given when that is zero), the aspect ratio flags of byte
    /// 14 bits 7–3, the preferred aspect ratio of byte 15 bits 7–5, reduced and standard
    /// blanking in byte 15 bits 4 and 3, the scaling flags of byte 16 bits 7–4 and the
    /// preferred refresh rate in byte 17 (none for zero).
    pub proof fn lemma_descriptor_fields(b: Seq<u8>)
        requires
            b.len() >= 18,
        ensures
            (Self::spec_from_descriptor_bytes(b) == Some(TimingFormula::DefaultGtf)) == (b[10]
                == 0),
            (Self::spec_from_descriptor_bytes(b) == Some(TimingFormula::RangeLimitsOnly)) == (
            b[10] == 1),
            (Self::spec_from_descriptor_bytes(b) matches Some(TimingFormula::SecondaryGtf(_))) == (
            b[10] == 2),
            (Self::spec_from_descriptor_bytes(b) matches Some(TimingFormula::Cvt(_))) == (b[10]
                == 4),
            (Self::spec_from_descriptor_bytes(b) is None) == (b[10] != 0 && b[10] != 1 && b[10]
                != 2 && b[10] != 4),
            Self::spec_from_descriptor_bytes(b) matches Some(TimingFormula::SecondaryGtf(g)) ==> {
                &&& g.start_freq_khz == 2 * b[12]
                &&& g.c == b[13] / 2
                &&& g.m == b[14] + 256 * b[15]
                &&& g.k == b[16]
                &&& g.j == b[17] / 2
            },
            Self::spec_from_descriptor_bytes(b) matches Some(TimingFormula::Cvt(c)) ==> {
                let h = b[13] + 256 * (b[12] % 4);
                &&& c.version == b[11]
                &&& c.pixel_clock_adjust == b[12] / 4
                &&& (h == 0 ==> c.max_h_active_pixels is None)
                &&& (h != 0 ==> c.max_h_active_pixels == Some((8 * h) as u16))
                &&& c.supported_aspect_ratios.flags == b[14] - b[14] % 8
                &&& c.preferred_aspect_ratio == CvtAspectRatio::spec_from_bits(b[15])
                &&& c.reduced_blanking == ((b[15] / 16) % 2 == 1)
                &&& c.standard_blanking == ((b[15] / 8) % 2 == 1)
                &&& c.scaling.flags == b[16] - b[16] % 16
                &&& (b[17] == 0 ==> c.preferred_v_rate is None)
                &&& (b[17] != 0 ==> c.preferred_v_rate == Some(b[17]))
            },
    {
        let (b12, b14, b15, b16) = (b[12], b[14], b[15], b[16]);
        assert({
            &&& (b12 >> 2) & 0x3F == b12 / 4
            &&& b12 & 3 == b12 % 4
            &&& (((b15 as u16) << 8) | (b14 as u16)) == (b14 as u16) + 256 * (b15 as u16)
            &&& b14 & 0xF8 == b14 - b14 % 8
            &&& (b15 & 0x10 != 0) == ((b15 / 16) % 2 == 1)
            &&& (b15 & 0x08 != 0) == ((b15 / 8) % 2 == 1)
            &&& b16 & 0xF0 == b16 - b16 % 16
        }) by (bit_vector);
    }

    /// Decodes the timing formula from bytes 10–17 of a `0xFD` descriptor.
    pub fn from_descriptor_bytes(bytes: &[u8]) -> (r: Option<Self>)
        requires
            bytes@.len() >= 18,
        ensures
            r == Self::spec_from_descriptor_bytes(bytes@),
    {
        match bytes[10] {
            0x00 => Some(TimingFormula::DefaultGtf),
            0x01 => Some(TimingFormula::RangeLimitsOnly),
            0x02 => Some(
                TimingFormula::SecondaryGtf(
                    GtfSecondaryParams {
                        start_freq_khz: (bytes[12] as u16) * 2,
                        c: bytes[13] / 2,
                        m: ((bytes[15] as u16) << 8) | (bytes[14] as u16),
                        k: bytes[16],
                        j: bytes[17] / 2,
                    },
                ),
            ),
            0x04 => {
                let pixel_clock_adjust = (bytes[12] >> 2) & 0x3F;
                let b12 = bytes[12];
                let hi = b12 & 0x03;
                assert(hi <= 3) by (bit_vector)
                    requires
                        hi == b12 & 0x03,
                ;
                assert((hi as u16) << 8 == 256 * hi) by (bit_vector)
                    requires
                        hi <= 3,
                ;
                let h_raw = (bytes[13] as u16) + ((hi as u16) << 8);
                let max_h_active_pixels = if h_raw == 0 {
                    None
                } else {
                    Some(h_raw * 8)
                };
                Some(
                    TimingFormula::Cvt(
                        CvtSupportParams {
                            version: bytes[11],
                            pixel_clock_adjust,
                            max_h_active_pixels,
                            supported_aspect_ratios: CvtAspectRatios::from_bits_truncate(bytes[14]),
                            preferred_aspect_ratio: CvtAspectRatio::from_bits(bytes[15]),
                            standard_blanking: bytes[15] & 0x08 != 0,
                            reduced_blanking: bytes[15] & 0x10 != 0,
                            scaling: CvtScaling::from_bits_truncate(bytes[16]),
                            preferred_v_rate: if bytes[17] != 0 {
                                Some(bytes[17])
                            } else {
                                None
                            },
                        },
                    ),
                )
            },
            _ => None,
        }
    }
}

} // verus!
