use vstd::prelude::*;

verus! {

/// Video interface type, decoded from EDID base block byte `0x14` bits 3–0.
#[derive(Debug, Clone, Copy, PartialEq, Eq, Structural)]
pub enum VideoInterface {
    /// DVI.
    Dvi,
    /// HDMI-a.
    HdmiA,
    /// HDMI-b.
    HdmiB,
    /// MDDI.
    Mddi,
    /// DisplayPort.
    DisplayPort,
}

impl VideoInterface {
    /// The interface that the low four bits of `bits` denote: `None` for the undefined `0x0`
    /// and the reserved `0x6`–`0xF`.
    pub open spec fn spec_from_edid_bits(bits: u8) -> Option<VideoInterface> {
        let v = bits & 0x0F;
        if v == 1 {
            Some(VideoInterface::Dvi)
        } else if v == 2 {
            Some(VideoInterface::HdmiA)
        } else if v == 3 {
            Some(VideoInterface::HdmiB)
        } else if v == 4 {
            Some(VideoInterface::Mddi)
        } else if v == 5 {
            Some(VideoInterface::DisplayPort)
        } else {
            None
        }
    }

    /// Codes 1 to 5 of the low nibble name DVI, HDMI-a, HDMI-b, MDDI and DisplayPort, each
    /// its own; the undefined code 0 and the reserved codes 6 to 15 name none; so two bytes
    /// that name the same interface have the same low nibble.
    pub proof fn lemma_codes(bits: u8, other: u8)
        ensures
            (Self::spec_from_edid_bits(bits) == Some(VideoInterface::Dvi)) == (bits % 16 == 1),
            (Self::spec_from_edid_bits(bits) == Some(VideoInterface::HdmiA)) == (bits % 16 == 2),
            (Self::spec_from_edid_bits(bits) == Some(VideoInterface::HdmiB)) == (bits % 16 == 3),
            (Self::spec_from_edid_bits(bits) == Some(VideoInterface::Mddi)) == (bits % 16 == 4),
            (Self::spec_from_edid_bits(bits) == Some(VideoInterface::DisplayPort)) == (bits % 16
                == 5),
            (Self::spec_from_edid_bits(bits) is None) == (bits % 16 == 0 || bits % 16 >= 6),
            Self::spec_from_edid_bits(bits) is Some && Self::spec_from_edid_bits(bits)
                == Self::spec_from_edid_bits(other) ==> bits % 16 == other % 16,
    {
        assert(bits & 0x0F == bits % 16) by (bit_vector);
        assert(other & 0x0F == other % 16) by (bit_vector);
    }

    /// Decodes bits 3–0 of EDID byte `0x14`.
    pub fn from_edid_bits(bits: u8) -> (r: Option<Self>)
        ensures
            r == Self::spec_from_edid_bits(bits),
    {
        match bits & 0x0F {
            0x1 => Some(Self::Dvi),
            0x2 => Some(Self::HdmiA),
            0x3 => Some(Self::HdmiB),
            0x4 => Some(Self::Mddi),
            0x5 => Some(Self::DisplayPort),
            _ => None,
        }
    }
}

} // verus!
