use vstd::prelude::*;

verus! {

/// The greatest common divisor of `a` and `b` (Euclid's algorithm; `gcd(a, 0) == a`).
pub open spec fn gcd(a: nat, b: nat) -> nat
    decreases b,
{
    if b == 0 {
        a
    } else {
        gcd(b, a % b)
    }
}

/// The greatest common divisor of two numbers that are not both zero is positive.
pub proof fn lemma_gcd_positive(a: nat, b: nat)
    requires
        a > 0 || b > 0,
    ensures
        gcd(a, b) > 0,
    decreases b,
{
    if b > 0 {
        lemma_gcd_positive(b, a % b);
    }
}

/// The product `g × k`.
pub open spec fn times(g: nat, k: nat) -> nat {
    g * k
}

/// `g` divides `a`.
pub open spec fn divides(g: nat, a: nat) -> bool {
    exists|k: nat| a == #[trigger] times(g, k)
}

/// The greatest common divisor divides both of its arguments.
pub proof fn lemma_gcd_divides(a: nat, b: nat)
    ensures
        divides(gcd(a, b), a),
        divides(gcd(a, b), b),
    decreases b,
{
    if b == 0 {
        assert(a == times(a, 1));
        assert(0 == times(a, 0));
    } else {
        lemma_gcd_divides(b, a % b);
        let g = gcd(a, b);
        assert(g == gcd(b, a % b));
        let k1 = choose|k: nat| b == #[trigger] times(g, k);
        let k2 = choose|k: nat| a % b == #[trigger] times(g, k);
        vstd::arithmetic::div_mod::lemma_fundamental_div_mod(a as int, b as int);
        let q: nat = a / b;
        assert(a == times(g, k1 * q + k2)) by (nonlinear_arith)
            requires
                a == b * q + a % b,
                b == g * k1,
                a % b == g * k2,
        ;
    }
}

/// A rate made from the ratio `numer / denom` has a positive denominator and is equal to
/// that ratio: `rate.numer × denom == numer × rate.denom`.
pub proof fn lemma_reduced_rate_is_the_ratio(numer: nat, denom: nat)
    ensures
        reduced_rate(numer, denom) matches Some(r) ==> r.denom > 0 && r.numer * denom == numer
            * r.denom,
{
    if denom > 0 {
        let g = gcd(numer, denom);
        lemma_gcd_positive(numer, denom);
        lemma_gcd_divides(numer, denom);
        let kn = choose|k: nat| numer == #[trigger] times(g, k);
        let kd = choose|k: nat| denom == #[trigger] times(g, k);
        assert(numer / g == kn && denom / g == kd) by (nonlinear_arith)
            requires
                g > 0,
                numer == g * kn,
                denom == g * kd,
        ;
        assert(kd > 0) by (nonlinear_arith)
            requires
                denom > 0,
                denom == g * kd,
        ;
        assert(kn * denom == numer * kd) by (nonlinear_arith)
            requires
                numer == g * kn,
                denom == g * kd,
        ;
    }
}

fn gcd_u64(a0: u64, b0: u64) -> (g: u64)
    ensures
        g == gcd(a0 as nat, b0 as nat),
{
    let mut a = a0;
    let mut b = b0;
    while b != 0
        invariant
            gcd(a as nat, b as nat) == gcd(a0 as nat, b0 as nat),
        decreases b,
    {
        let t = b;
        b = a % b;
        a = t;
    }
    a
}

/// A refresh rate as a fraction in lowest terms, in Hz.
#[derive(Debug, Clone, Copy, PartialEq, Eq, Hash, Structural)]
pub struct RefreshRate {
    /// Numerator.
    pub numer: u32,
    /// Denominator (never zero).
    pub denom: u32,
}

/// The rate `numer / denom` in lowest terms, when `denom` is non-zero and both reduced
/// parts fit 32 bits.
pub open spec fn reduced_rate(numer: nat, denom: nat) -> Option<RefreshRate> {
    if denom == 0 {
        None
    } else {
        let g = gcd(numer, denom);
        if numer / g <= u32::MAX && denom / g <= u32::MAX {
            Some(RefreshRate { numer: (numer / g) as u32, denom: (denom / g) as u32 })
        } else {
            None
        }
    }
}

impl RefreshRate {
    /// A whole number of Hz.
    pub fn integral(hz: u32) -> (r: Self)
        ensures
            r == (RefreshRate { numer: hz, denom: 1 }),
    {
        RefreshRate { numer: hz, denom: 1 }
    }

    /// The fraction `numer / denom` in lowest terms.
    pub fn fractional(numer: u32, denom: u32) -> (r: Self)
        requires
            denom != 0,
        ensures
            Some(r) == reduced_rate(numer as nat, denom as nat),
    {
        let g = gcd_u64(numer as u64, denom as u64);
        proof {
            lemma_gcd_positive(numer as nat, denom as nat);
        }
        let n = numer as u64 / g;
        let d = denom as u64 / g;
        assert(n <= numer) by (nonlinear_arith)
            requires
                g >= 1,
                n == numer as u64 / g,
        ;
        assert(d <= denom) by (nonlinear_arith)
            requires
                g >= 1,
                d == denom as u64 / g,
        ;
        RefreshRate { numer: n as u32, denom: d as u32 }
    }

    /// The fraction `numer / denom` in lowest terms; `None` when `denom` is zero or a
    /// reduced part does not fit 32 bits.
    pub fn from_ratio(numer: u64, denom: u64) -> (r: Option<Self>)
        ensures
            r == reduced_rate(numer as nat, denom as nat),
    {
        if denom == 0 {
            return None;
        }
        let g = gcd_u64(numer, denom);
        proof {
            lemma_gcd_positive(numer as nat, denom as nat);
        }
        let n = numer / g;
        let d = denom / g;
        if n > 0xFFFF_FFFF || d > 0xFFFF_FFFF {
            return None;
        }
        Some(RefreshRate { numer: n as u32, denom: d as u32 })
    }

    /// The numerator.
    pub fn numer(self) -> (r: u32)
        ensures
            r == self.numer,
    {
        self.numer
    }

    /// The denominator.
    pub fn denom(self) -> (r: u32)
        ensures
            r == self.denom,
    {
        self.denom
    }
}

/// Stereo viewing support of a video mode.
#[derive(Debug, Clone, Copy, PartialEq, Eq, Hash, Default, Structural)]
pub enum StereoMode {
    /// Normal display; no stereo.
    #[default]
    NoStereo,
    /// Field-sequential stereo, right image when stereo sync = 1.
    FieldSequentialRightFirst,
    /// Field-sequential stereo, left image when stereo sync = 1.
    FieldSequentialLeftFirst,
    /// 2-way interleaved stereo, right image on even lines.
    TwoWayInterleavedRightEven,
    /// 2-way interleaved stereo, left image on even lines.
    TwoWayInterleavedLeftEven,
    /// 4-way interleaved stereo.
    FourWayInterleaved,
    /// Side-by-side interleaved stereo.
    SideBySideInterleaved,
}

/// Sync signal definition of a video mode.
#[derive(Debug, Clone, Copy, PartialEq, Eq, Hash, Structural)]
pub enum SyncDefinition {
    /// Analog composite sync.
    AnalogComposite {
        /// H-sync pulse present during V-sync.
        serrations: bool,
        /// Sync on all three RGB signals (`true`) or green only (`false`).
        sync_on_all_rgb: bool,
    },
    /// Bipolar analog composite sync.
    BipolarAnalogComposite {
        /// H-sync pulse present during V-sync.
        serrations: bool,
        /// Sync on all three RGB signals (`true`) or green only (`false`).
        sync_on_all_rgb: bool,
    },
    /// Digital composite sync on the H-sync pin.
    DigitalComposite {
        /// H-sync pulse present during V-sync.
        serrations: bool,
        /// H-sync polarity outside V-sync: `true` = positive.
        h_sync_positive: bool,
    },
    /// Digital separate sync.
    DigitalSeparate {
        /// V-sync polarity: `true` = positive.
        v_sync_positive: bool,
        /// H-sync polarity: `true` = positive.
        h_sync_positive: bool,
    },
}

/// Where a video mode was decoded from.
#[derive(Debug, Clone, Copy, PartialEq, Eq, Hash, Structural)]
pub enum ModeSource {
    /// A CTA-861 Video Identification Code.
    Vic(u8),
    /// A VESA Display Monitor Timings identifier.
    DmtId(u16),
    /// A Detailed Timing Descriptor, by block and index.
    Dtd {
        /// The EDID block holding the descriptor.
        block: u8,
        /// Zero-based index among the timing descriptors of that block.
        index: u8,
    },
}

/// CVT formula selector of DisplayID formula-based timings (byte 0 bits 2:0).
#[derive(Debug, Clone, Copy, PartialEq, Eq, Hash, Structural)]
pub enum CvtAlgorithm {
    /// CVT-RB1 (`0`).
    CvtRb1,
    /// CVT-RB2 (`1`).
    CvtRb2,
    /// CVT-RB3 (`2`).
    CvtRb3,
    /// Reduced blanking with CVT-RB1 (`3`).
    ReducedBlankingCvtRb1,
    /// Reduced blanking with CVT-RB2 (`4`).
    ReducedBlankingCvtRb2,
    /// Reserved encoding (`5`–`7`).
    Reserved(u8),
}

impl CvtAlgorithm {
    /// The algorithm that the low three bits of `b` denote.
    pub open spec fn spec_from_bits(b: u8) -> CvtAlgorithm {
        let v = b & 7;
        if v == 0 {
            CvtAlgorithm::CvtRb1
        } else if v == 1 {
            CvtAlgorithm::CvtRb2
        } else if v == 2 {
            CvtAlgorithm::CvtRb3
        } else if v == 3 {
            CvtAlgorithm::ReducedBlankingCvtRb1
        } else if v == 4 {
            CvtAlgorithm::ReducedBlankingCvtRb2
        } else {
            CvtAlgorithm::Reserved(v)
        }
    }

    /// The codes in the low 3 bits of `b` name the values one to one: 0 CvtRb1, 1 CvtRb2, 2 CvtRb3, 3 ReducedBlankingCvtRb1, 4 ReducedBlankingCvtRb2; every other code is kept as the Reserved value.
    pub proof fn lemma_codes(b: u8)
        ensures
            (Self::spec_from_bits(b) == CvtAlgorithm::CvtRb1) == (b % 8 == 0),
            (Self::spec_from_bits(b) == CvtAlgorithm::CvtRb2) == (b % 8 == 1),
            (Self::spec_from_bits(b) == CvtAlgorithm::CvtRb3) == (b % 8 == 2),
            (Self::spec_from_bits(b) == CvtAlgorithm::ReducedBlankingCvtRb1) == (b % 8 == 3),
            (Self::spec_from_bits(b) == CvtAlgorithm::ReducedBlankingCvtRb2) == (b % 8 == 4),
            b % 8 >= 5 ==> Self::spec_from_bits(b) == CvtAlgorithm::Reserved((b % 8) as u8),
    {
        assert(b & 7 == b % 8) by (bit_vector);
    }

    /// Decodes the 3-bit CVT algorithm field; upper bits are ignored.
    pub fn from_bits(b: u8) -> (r: Self)
        ensures
            r == Self::spec_from_bits(b),
    {
        match b & 0x07 {
            0 => CvtAlgorithm::CvtRb1,
            1 => CvtAlgorithm::CvtRb2,
            2 => CvtAlgorithm::CvtRb3,
            3 => CvtAlgorithm::ReducedBlankingCvtRb1,
            4 => CvtAlgorithm::ReducedBlankingCvtRb2,
            other => CvtAlgorithm::Reserved(other),
        }
    }
}

/// A video mode: resolution, refresh rate and, where the source gives them, blanking and
/// signal details.
#[derive(Debug, Clone, Copy, PartialEq, Eq, Hash, Default, Structural)]
pub struct VideoMode {
    /// Horizontal resolution in pixels.
    pub width: u16,
    /// Vertical resolution in lines.
    pub height: u16,
    /// Refresh rate in Hz, when known.
    pub refresh_rate: Option<RefreshRate>,
    /// `true` for interlaced modes.
    pub interlaced: bool,
    /// Horizontal front porch in pixels.
    pub h_front_porch: u16,
    /// Horizontal sync pulse width in pixels.
    pub h_sync_width: u16,
    /// Horizontal blanking in pixels, when the source gives it.
    pub h_blank: Option<u16>,
    /// Vertical front porch in lines.
    pub v_front_porch: u16,
    /// Vertical sync pulse width in lines.
    pub v_sync_width: u16,
    /// Horizontal border in pixels.
    pub h_border: u8,
    /// Vertical border in lines.
    pub v_border: u8,
    /// Stereo viewing support.
    pub stereo: StereoMode,
    /// Sync signal definition, when known.
    pub sync: Option<SyncDefinition>,
    /// Pixel clock in kHz, when known.
    pub pixel_clock_khz: Option<u32>,
    /// Where the mode was decoded from, when known.
    pub source: Option<ModeSource>,
    /// CVT formula selector of formula-based timings.
    pub cvt_algorithm: Option<CvtAlgorithm>,
    /// `true` when the timing is YCbCr 4:2:0 only.
    pub y420: bool,
}

impl VideoMode {
    /// A mode with the given identity and every blanking and signal detail absent.
    pub open spec fn spec_new(width: u16, height: u16, refresh_rate: RefreshRate, interlaced: bool) -> VideoMode {
        VideoMode {
            width,
            height,
            refresh_rate: Some(refresh_rate),
            interlaced,
            h_front_porch: 0,
            h_sync_width: 0,
            h_blank: None,
            v_front_porch: 0,
            v_sync_width: 0,
            h_border: 0,
            v_border: 0,
            stereo: StereoMode::NoStereo,
            sync: None,
            pixel_clock_khz: None,
            source: None,
            cvt_algorithm: None,
            y420: false,
        }
    }

    /// Constructs a mode with the given identity; blanking and signal details are absent.
    pub fn new(width: u16, height: u16, refresh_rate: RefreshRate, interlaced: bool) -> (r: Self)
        ensures
            r == Self::spec_new(width, height, refresh_rate, interlaced),
    {
        VideoMode {
            width,
            height,
            refresh_rate: Some(refresh_rate),
            interlaced,
            h_front_porch: 0,
            h_sync_width: 0,
            h_blank: None,
            v_front_porch: 0,
            v_sync_width: 0,
            h_border: 0,
            v_border: 0,
            stereo: StereoMode::NoStereo,
            sync: None,
            pixel_clock_khz: None,
            source: None,
            cvt_algorithm: None,
            y420: false,
        }
    }

    /// This mode with the detailed timing fields set.
    pub open spec fn spec_with_detailed_timing(
        self,
        pixel_clock_khz: u32,
        h_front_porch: u16,
        h_sync_width: u16,
        v_front_porch: u16,
        v_sync_width: u16,
        h_border: u8,
        v_border: u8,
        stereo: StereoMode,
        sync: Option<SyncDefinition>,
    ) -> VideoMode {
        VideoMode {
            pixel_clock_khz: Some(pixel_clock_khz),
            h_front_porch,
            h_sync_width,
            v_front_porch,
            v_sync_width,
            h_border,
            v_border,
            stereo,
            sync,
            ..self
        }
    }

    /// Sets the detailed timing fields, returning the updated mode.
    pub fn with_detailed_timing(
        self,
        pixel_clock_khz: u32,
        h_front_porch: u16,
        h_sync_width: u16,
        v_front_porch: u16,
        v_sync_width: u16,
        h_border: u8,
        v_border: u8,
        stereo: StereoMode,
        sync: Option<SyncDefinition>,
    ) -> (r: Self)
        ensures
            r == self.spec_with_detailed_timing(
                pixel_clock_khz,
                h_front_porch,
                h_sync_width,
                v_front_porch,
                v_sync_width,
                h_border,
                v_border,
                stereo,
                sync,
            ),
    {
        VideoMode {
            pixel_clock_khz: Some(pixel_clock_khz),
            h_front_porch,
            h_sync_width,
            v_front_porch,
            v_sync_width,
            h_border,
            v_border,
            stereo,
            sync,
            ..self
        }
    }

    /// Sets the CVT formula selector, returning the updated mode.
    pub fn with_cvt_algorithm(self, alg: CvtAlgorithm) -> (r: Self)
        ensures
            r == (VideoMode { cvt_algorithm: Some(alg), ..self }),
    {
        VideoMode { cvt_algorithm: Some(alg), ..self }
    }

    /// Sets the YCbCr 4:2:0 flag, returning the updated mode.
    pub fn with_y420(self, y420: bool) -> (r: Self)
        ensures
            r == (VideoMode { y420, ..self }),
    {
        VideoMode { y420, ..self }
    }
}

} // verus!
