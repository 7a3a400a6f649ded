use vstd::prelude::*;
use vstd::string::StringSliceAdditionalSpecFns;
use vstd::utf8::*;

verus! {

/// Manufacture date or model year.
#[derive(Debug, Clone, Copy, PartialEq, Eq, Structural)]
pub enum ManufactureDate {
    /// Manufactured in `year`; `week` is `None` when unspecified.
    Manufactured {
        /// Week of manufacture, if specified.
        week: Option<u8>,
        /// Year of manufacture.
        year: u16,
    },
    /// The year is a model year rather than a manufacture date.
    ModelYear(u16),
}

impl ManufactureDate {
    /// Week byte `0xFF` marks a model year, `0x00` an unspecified week; the year byte counts
    /// from `base_year`.
    pub open spec fn spec_from_bytes(week_byte: u8, year_byte: u8, base_year: u16) -> ManufactureDate {
        let year = (year_byte + base_year) as u16;
        if week_byte == 0xFF {
            ManufactureDate::ModelYear(year)
        } else if week_byte == 0 {
            ManufactureDate::Manufactured { week: None, year }
        } else {
            ManufactureDate::Manufactured { week: Some(week_byte), year }
        }
    }

    /// The year byte counts from the base year; a week byte of `0xFF` marks a model year, `0`
    /// an unspecified week, and any other value the week of manufacture.
    pub proof fn lemma_date_fields(week_byte: u8, year_byte: u8, base_year: u16)
        requires
            year_byte + base_year <= u16::MAX,
        ensures
            ({
                let d = Self::spec_from_bytes(week_byte, year_byte, base_year);
                &&& (d is ModelYear) == (week_byte == 0xFF)
                &&& d matches ManufactureDate::ModelYear(y) ==> y == year_byte + base_year
                &&& d matches ManufactureDate::Manufactured { week, year } ==> {
                    &&& year == year_byte + base_year
                    &&& week == (if week_byte == 0 {
                        None
                    } else {
                        Some(week_byte)
                    })
                }
            }),
    {
    }

    /// Decodes bytes 16 and 17 of the EDID base block (year counted from 1990).
    pub fn from_edid_bytes(week_byte: u8, year_byte: u8) -> (r: Self)
        ensures
            r == Self::spec_from_bytes(week_byte, year_byte, 1990),
    {
        let year = year_byte as u16 + 1990;
        match week_byte {
            0xFF => Self::ModelYear(year),
            0x00 => Self::Manufactured { week: None, year },
            w => Self::Manufactured { week: Some(w), year },
        }
    }
}

/// Whether `b` is an ASCII uppercase letter.
pub open spec fn is_upper(b: u8) -> bool {
    0x41 <= b <= 0x5A
}

/// Every byte of `s` is below `0x80`.
pub open spec fn all_ascii(s: Seq<u8>) -> bool {
    forall|i: int| 0 <= i < s.len() ==> #[trigger] s[i] < 0x80
}

/// ASCII bytes are valid UTF-8.
pub proof fn lemma_ascii_valid_utf8(s: Seq<u8>)
    requires
        all_ascii(s),
    ensures
        valid_utf8(s),
    decreases s.len(),
{
    if s.len() != 0 {
        assert(is_leading_byte_width_1(s[0]));
        assert(valid_first_scalar(s));
        let rest = pop_first_scalar(s);
        assert(rest =~= s.subrange(1, s.len() as int));
        assert(all_ascii(rest)) by {
            assert forall|i: int| 0 <= i < rest.len() implies #[trigger] rest[i] < 0x80 by {
                assert(rest[i] == s[i + 1]);
            }
        }
        lemma_ascii_valid_utf8(rest);
    }
}

/// `core::str::from_utf8`: the bytes as a string slice when they are valid UTF-8,
/// `None` otherwise. The contract states exactly that, as the std documentation gives it.
#[verifier::external_body]
fn str_from_utf8(bytes: &[u8]) -> (r: Option<&str>)
    ensures
        r is Some <==> valid_utf8(bytes@),
        r matches Some(s) ==> s.spec_bytes() == bytes@,
{
    core::str::from_utf8(bytes).ok()
}

/// A three-character PNP manufacturer identifier (e.g. `GSM`, `SAM`, `DEL`).
#[derive(Debug, Clone, Copy, PartialEq, Eq)]
pub struct ManufacturerId(pub [u8; 3]);

impl ManufacturerId {
    /// All three bytes are ASCII uppercase letters.
    pub open spec fn wf(&self) -> bool {
        forall|i: int| 0 <= i < 3 ==> is_upper(#[trigger] self.0@[i])
    }

    /// Constructs a `ManufacturerId`, returning `None` unless every byte is an ASCII
    /// uppercase letter.
    pub fn from_ascii(bytes: [u8; 3]) -> (r: Option<Self>)
        ensures
            r == (if forall|i: int| 0 <= i < 3 ==> is_upper(#[trigger] bytes@[i]) {
                Some(ManufacturerId(bytes))
            } else {
                None
            }),
    {
        if bytes[0] >= 0x41 && bytes[0] <= 0x5A && bytes[1] >= 0x41 && bytes[1] <= 0x5A
            && bytes[2] >= 0x41 && bytes[2] <= 0x5A {
            assert forall|i: int| 0 <= i < 3 implies is_upper(#[trigger] bytes@[i]) by {
                if i == 0 {
                } else if i == 1 {
                } else {
                }
            }
            Some(ManufacturerId(bytes))
        } else {
            assert(!is_upper(bytes@[0]) || !is_upper(bytes@[1]) || !is_upper(bytes@[2]));
            None
        }
    }

    /// Returns the identifier as a string slice.
    pub fn as_str(&self) -> (r: &str)
        requires
            self.wf(),
        ensures
            r.spec_bytes() == self.0@,
    {
        let s = self.0.as_slice();
        proof {
            assert(all_ascii(s@)) by {
                assert forall|i: int| 0 <= i < s@.len() implies #[trigger] s@[i] < 0x80 by {
                    assert(is_upper(self.0@[i]));
                }
            }
            lemma_ascii_valid_utf8(s@);
        }
        match str_from_utf8(s) {
            Some(t) => t,
            None => "",
        }
    }
}

/// The 13 bytes that a text block of `payload` becomes: its first 13 bytes, padded with
/// spaces, and a `0x0A` terminator written after the copied bytes (at index 12 at most)
/// when none of the 13 bytes is one.
pub open spec fn text_field(payload: Seq<u8>) -> Seq<u8> {
    let n = if payload.len() < 13 {
        payload.len() as int
    } else {
        13
    };
    let padded = payload.take(n) + Seq::new((13 - n) as nat, |i: int| 0x20u8);
    if padded.contains(0x0Au8) {
        padded
    } else {
        padded.update(if n < 12 {
            n
        } else {
            12
        }, 0x0Au8)
    }
}

/// The index of the first `0x0A` in `s`, or its length when there is none.
pub open spec fn terminator_index(s: Seq<u8>) -> int
    decreases s.len(),
{
    if s.len() == 0 {
        0
    } else if s[0] == 0x0A {
        0
    } else {
        1 + terminator_index(s.drop_first())
    }
}

/// The length of `s` once its trailing spaces are removed.
pub open spec fn trimmed_len(s: Seq<u8>) -> int
    decreases s.len(),
{
    if s.len() == 0 {
        0
    } else if s.last() == 0x20 {
        trimmed_len(s.drop_last())
    } else {
        s.len() as int
    }
}

/// The text of a descriptor string: the bytes before the first `0x0A`, without trailing spaces.
pub open spec fn descriptor_text(s: Seq<u8>) -> Seq<u8> {
    let t = s.take(terminator_index(s));
    t.take(trimmed_len(t))
}

/// A monitor descriptor string: 13 bytes, terminated by `0x0A` and padded with spaces.
#[derive(Debug, Clone, Copy, PartialEq, Eq)]
pub struct MonitorString(pub [u8; 13]);

proof fn lemma_terminator_index_bounds(s: Seq<u8>)
    ensures
        0 <= terminator_index(s) <= s.len(),
        forall|j: int| 0 <= j < terminator_index(s) ==> s[j] != 0x0A,
        terminator_index(s) < s.len() ==> s[terminator_index(s)] == 0x0A,
    decreases s.len(),
{
    if s.len() != 0 && s[0] != 0x0A {
        lemma_terminator_index_bounds(s.drop_first());
        assert forall|j: int| 0 <= j < terminator_index(s) implies s[j] != 0x0A by {
            if j > 0 {
                assert(s[j] == s.drop_first()[j - 1]);
            }
        }
    }
}

impl MonitorString {
    /// Returns the string content with the `0x0A` terminator and trailing spaces stripped,
    /// or an empty string when that content is not valid UTF-8.
    pub fn as_str(&self) -> (r: &str)
        ensures
            r.spec_bytes() == (if valid_utf8(descriptor_text(self.0@)) {
                descriptor_text(self.0@)
            } else {
                Seq::<u8>::empty()
            }),
    {
        let bytes = self.0.as_slice();
        let mut end: usize = 0;
        while end < 13 && bytes[end] != 0x0A
            invariant
                bytes@ == self.0@,
                bytes@.len() == 13,
                end <= 13,
                forall|j: int| 0 <= j < end ==> bytes@[j] != 0x0A,
            decreases 13 - end,
        {
            end = end + 1;
        }
        proof {
            lemma_terminator_index_bounds(self.0@);
            if terminator_index(self.0@) < end {
                assert(self.0@[terminator_index(self.0@)] == 0x0A);
            }
            if end < terminator_index(self.0@) {
                assert(self.0@[end as int] == 0x0A);
            }
        }
        let ghost t = self.0@.take(end as int);
        assert(t.take(end as int) =~= t);
        let mut len: usize = end;
        while len > 0 && bytes[len - 1] == 0x20
            invariant
                bytes@ == self.0@,
                bytes@.len() == 13,
                len <= end <= 13,
                t == self.0@.take(end as int),
                trimmed_len(t.take(len as int)) == trimmed_len(t),
            decreases len,
        {
            assert(t.take(len as int).drop_last() =~= t.take(len - 1));
            len = len - 1;
        }
        proof {
            if len > 0 {
                assert(t.take(len as int).last() != 0x20);
            }
            assert(t.take(len as int).take(len as int) =~= t.take(len as int));
            assert(descriptor_text(self.0@) =~= bytes@.subrange(0, len as int));
        }
        let text = &bytes[0..len];
        match str_from_utf8(text) {
            Some(s) => s,
            None => {
                proof {
                    reveal_strlit("");
                }
                ""
            },
        }
    }
}

impl core::ops::Deref for MonitorString {
    type Target = str;

    fn deref(&self) -> (r: &str)
        ensures
            r.spec_bytes() == (if valid_utf8(descriptor_text(self.0@)) {
                descriptor_text(self.0@)
            } else {
                Seq::<u8>::empty()
            }),
    {
        self.as_str()
    }
}

} // verus!
