//! Phone numbers as keys: three groups of characters, parsed from free text.

use crate::error::{Failure, ParseError};
use vstd::prelude::*;
use vstd::string::*;

verus! {

/// The three groups of a phone number, as plain sequences.
pub struct PhoneView {
    pub area_code: Seq<char>,
    pub prefix: Seq<char>,
    pub suffix: Seq<char>,
}

impl PhoneView {
    /// The groups with a dash between them, as in `555-123-4567`.
    pub open spec fn dashed(self) -> Seq<char> {
        self.area_code + seq!['-'] + self.prefix + seq!['-'] + self.suffix
    }

    /// The groups one after the other, as in `5551234567`.
    pub open spec fn undashed(self) -> Seq<char> {
        self.area_code + self.prefix + self.suffix
    }

    /// Whether the groups have three, three and four characters.
    pub open spec fn well_sized(self) -> bool {
        self.area_code.len() == 3 && self.prefix.len() == 3 && self.suffix.len() == 4
    }
}

/// Whether the character may stand between two groups.
pub open spec fn is_separator(c: char) -> bool {
    c == '-' || c == '.'
}

/// Where the prefix starts: behind the area code, and behind the separator
/// that may follow it.
pub open spec fn prefix_start(raw: Seq<char>) -> int {
    if 3 < raw.len() && is_separator(raw[3]) {
        4
    } else {
        3
    }
}

/// Where the suffix starts: behind the prefix, and behind the separator that
/// may follow it.
pub open spec fn suffix_start(raw: Seq<char>) -> int {
    let end = prefix_start(raw) + 3;
    if end < raw.len() && is_separator(raw[end]) {
        end + 1
    } else {
        end
    }
}

/// Why `raw` is no phone number, or `None` where it is one.
pub open spec fn parse_error(raw: Seq<char>) -> Option<ParseError> {
    if raw.len() < 10 {
        Some(ParseError::TooShort { found: raw.len() as usize })
    } else if is_separator(raw[3]) && raw.len() < 11 {
        Some(ParseError::ShortAfterAreaCode)
    } else if is_separator(raw[prefix_start(raw) + 3]) && raw.len() < 12 {
        Some(ParseError::ShortAfterPrefix)
    } else {
        None
    }
}

/// The groups of `raw`: three characters, three behind the first separator
/// if there is one, and four behind the second if there is one. What follows
/// the suffix is ignored, and no character is required to be a digit.
pub open spec fn parsed(raw: Seq<char>) -> PhoneView {
    PhoneView {
        area_code: raw.subrange(0, 3),
        prefix: raw.subrange(prefix_start(raw), prefix_start(raw) + 3),
        suffix: raw.subrange(suffix_start(raw), suffix_start(raw) + 4),
    }
}

fn separates(c: char) -> (b: bool)
    ensures
        b == is_separator(c),
{
    c == '-' || c == '.'
}

/// A phone number: an area code, a prefix and a suffix.
#[derive(Debug, PartialEq, Eq, Hash)]
pub struct PhoneNumber {
    area_code: String,
    prefix: String,
    suffix: String,
}

impl View for PhoneNumber {
    type V = PhoneView;

    closed spec fn view(&self) -> PhoneView {
        PhoneView { area_code: self.area_code@, prefix: self.prefix@, suffix: self.suffix@ }
    }
}

impl Clone for PhoneNumber {
    fn clone(&self) -> (copy: PhoneNumber)
        ensures
            copy@ == self@,
    {
        proof {
            use_type_invariant(self);
        }
        PhoneNumber {
            area_code: self.area_code.clone(),
            prefix: self.prefix.clone(),
            suffix: self.suffix.clone(),
        }
    }
}

impl PhoneNumber {
    #[verifier::type_invariant]
    spec fn sized(&self) -> bool {
        self@.well_sized()
    }

    /// Reads a phone number from free text.
    ///
    /// The text needs ten characters, eleven where a `-` or a `.` follows the
    /// area code, and twelve where one follows the prefix.
    pub fn try_parse(ph: &str) -> (r: Result<PhoneNumber, Failure>)
        ensures
            match r {
                Ok(number) => parse_error(ph@).is_none() && number@ == parsed(ph@),
                Err(e) => e matches Failure::Parse(why) && parse_error(ph@) == Some(why),
            },
    {
        let len = ph.unicode_len();
        if len < 10 {
            return Err(Failure::from(ParseError::TooShort { found: len }));
        }
        let area_code = ph.substring_char(0, 3).to_owned();
        let mut prefix_start: usize = 3;
        if separates(ph.get_char(3)) {
            prefix_start = 4;
            if len < 11 {
                return Err(Failure::from(ParseError::ShortAfterAreaCode));
            }
        }
        let prefix = ph.substring_char(prefix_start, prefix_start + 3).to_owned();
        let mut suffix_start: usize = prefix_start + 3;
        if separates(ph.get_char(suffix_start)) {
            suffix_start = suffix_start + 1;
            if len < 12 {
                return Err(Failure::from(ParseError::ShortAfterPrefix));
            }
        }
        let suffix = ph.substring_char(suffix_start, suffix_start + 4).to_owned();
        Ok(PhoneNumber { area_code, prefix, suffix })
    }

    /// The number with dashes between its groups, as in `555-123-4567`.
    pub fn dashes_string(&self) -> (text: String)
        ensures
            text@ == self@.dashed(),
            self@.well_sized(),
    {
        proof {
            use_type_invariant(self);
        }
        let mut text = self.area_code.clone();
        text.push('-');
        text.append(self.prefix.as_str());
        text.push('-');
        text.append(self.suffix.as_str());
        text
    }

    /// The number with nothing between its groups, as in `5551234567`.
    pub fn to_string(&self) -> (text: String)
        ensures
            text@ == self@.undashed(),
            self@.well_sized(),
    {
        proof {
            use_type_invariant(self);
        }
        let mut text = self.area_code.clone();
        text.append(self.prefix.as_str());
        text.append(self.suffix.as_str());
        text
    }

    /// Whether the two numbers have the same groups.
    pub fn same_as(&self, other: &PhoneNumber) -> (same: bool)
        ensures
            same == (self@ == other@),
    {
        self.area_code == other.area_code && self.prefix == other.prefix && self.suffix
            == other.suffix
    }
}

} // verus!
