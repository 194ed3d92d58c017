//! Calendar instants and the strict date classification used by the filter.
//!
//! Station metadata carries date-only fields ("2017-01-01"); the pipeline
//! appends a midnight-UTC time component and classifies the result by a
//! strict structural check: exactly four digits, dash, two digits, dash,
//! two digits, literal `T`, then `hh:mm:ss` digits and a literal `Z`. The
//! check is purely structural — it does not validate calendar ranges — so
//! instants are ordered lexicographically by their components, which agrees
//! with chronological order on real dates.

use vstd::prelude::*;

verus! {

/// A calendar instant: date components plus a time of day, UTC.
///
/// Components are compared lexicographically, most significant first.
#[derive(Clone, Copy, PartialEq, Eq, Structural, Debug)]
pub struct Instant {
    pub year: i64,
    pub month: u32,
    pub day: u32,
    pub hour: u32,
    pub minute: u32,
    pub second: u32,
}

/// The minimum representable instant, standing in for "the station has
/// always existed" when a start date is missing or malformed.
pub open spec fn spec_min_instant() -> Instant {
    Instant { year: i64::MIN, month: 0, day: 0, hour: 0, minute: 0, second: 0 }
}

impl Instant {
    /// Lexicographic order on (year, month, day, hour, minute, second).
    pub open spec fn spec_lt(self, other: Instant) -> bool {
        if self.year != other.year {
            self.year < other.year
        } else if self.month != other.month {
            self.month < other.month
        } else if self.day != other.day {
            self.day < other.day
        } else if self.hour != other.hour {
            self.hour < other.hour
        } else if self.minute != other.minute {
            self.minute < other.minute
        } else {
            self.second < other.second
        }
    }

    /// Strict "earlier than" on instants.
    pub fn lt(&self, other: &Instant) -> (r: bool)
        ensures
            r == self.spec_lt(*other),
    {
        if self.year != other.year {
            self.year < other.year
        } else if self.month != other.month {
            self.month < other.month
        } else if self.day != other.day {
            self.day < other.day
        } else if self.hour != other.hour {
            self.hour < other.hour
        } else if self.minute != other.minute {
            self.minute < other.minute
        } else {
            self.second < other.second
        }
    }

    /// The minimum representable instant.
    pub fn min_instant() -> (r: Instant)
        ensures
            r == spec_min_instant(),
    {
        Instant { year: i64::MIN, month: 0, day: 0, hour: 0, minute: 0, second: 0 }
    }
}

/// The minimum instant precedes every other instant.
pub proof fn lemma_min_instant_least(i: Instant)
    ensures
        i == spec_min_instant() || spec_min_instant().spec_lt(i),
{
}

/// A decimal digit character.
pub open spec fn is_digit_char(c: char) -> bool {
    48 <= c as u32 <= 57
}

/// The numeric value of a decimal digit character.
pub open spec fn digit_of(c: char) -> u32 {
    (c as u32 - 48) as u32
}

/// The strict structural shape `dddd-dd-ddTdd:dd:ddZ`, where each `d` is a
/// decimal digit. This is the well-formedness check of the date filter;
/// it deliberately does not validate calendar ranges.
pub open spec fn is_strict_instant_str(s: Seq<char>) -> bool {
    &&& s.len() == 20
    &&& is_digit_char(s[0])
    &&& is_digit_char(s[1])
    &&& is_digit_char(s[2])
    &&& is_digit_char(s[3])
    &&& s[4] == '-'
    &&& is_digit_char(s[5])
    &&& is_digit_char(s[6])
    &&& s[7] == '-'
    &&& is_digit_char(s[8])
    &&& is_digit_char(s[9])
    &&& s[10] == 'T'
    &&& is_digit_char(s[11])
    &&& is_digit_char(s[12])
    &&& s[13] == ':'
    &&& is_digit_char(s[14])
    &&& is_digit_char(s[15])
    &&& s[16] == ':'
    &&& is_digit_char(s[17])
    &&& is_digit_char(s[18])
    &&& s[19] == 'Z'
}

/// The instant denoted by a string of the strict shape. Meaningful only
/// when `is_strict_instant_str` holds of `s`.
pub open spec fn parse_instant_str(s: Seq<char>) -> Instant {
    Instant {
        year: (1000 * digit_of(s[0]) + 100 * digit_of(s[1]) + 10 * digit_of(s[2]) + digit_of(
            s[3],
        )) as i64,
        month: (10 * digit_of(s[5]) + digit_of(s[6])) as u32,
        day: (10 * digit_of(s[8]) + digit_of(s[9])) as u32,
        hour: (10 * digit_of(s[11]) + digit_of(s[12])) as u32,
        minute: (10 * digit_of(s[14]) + digit_of(s[15])) as u32,
        second: (10 * digit_of(s[17]) + digit_of(s[18])) as u32,
    }
}

/// Reads the two decimal digits at positions `i` and `i + 1`.
fn two_digits(s: &str, i: usize) -> (r: Option<u32>)
    requires
        i + 1 < s@.len() <= usize::MAX,
    ensures
        r is Some <==> is_digit_char(s@[i as int]) && is_digit_char(s@[i + 1]),
        r matches Some(v) ==> v == 10 * digit_of(s@[i as int]) + digit_of(s@[i + 1]) && v <= 99,
{
    let hi = s.get_char(i) as u32;
    let lo = s.get_char(i + 1) as u32;
    if 48 <= hi && hi <= 57 && 48 <= lo && lo <= 57 {
        Some(10 * (hi - 48) + (lo - 48))
    } else {
        None
    }
}

/// Classifies a date-time string: `Some` exactly when the string has the
/// strict `dddd-dd-ddTdd:dd:ddZ` shape, and then the instant it denotes.
pub fn classify_date(s: &str) -> (r: Option<Instant>)
    ensures
        r is Some <==> is_strict_instant_str(s@),
        r matches Some(i) ==> i == parse_instant_str(s@),
{
    if s.unicode_len() != 20 {
        return None;
    }
    if !(s.get_char(4) == '-' && s.get_char(7) == '-' && s.get_char(10) == 'T' && s.get_char(13)
        == ':' && s.get_char(16) == ':' && s.get_char(19) == 'Z') {
        return None;
    }
    let year_hi = match two_digits(s, 0) {
        Some(v) => v,
        None => return None,
    };
    let year_lo = match two_digits(s, 2) {
        Some(v) => v,
        None => return None,
    };
    let month = match two_digits(s, 5) {
        Some(v) => v,
        None => return None,
    };
    let day = match two_digits(s, 8) {
        Some(v) => v,
        None => return None,
    };
    let hour = match two_digits(s, 11) {
        Some(v) => v,
        None => return None,
    };
    let minute = match two_digits(s, 14) {
        Some(v) => v,
        None => return None,
    };
    let second = match two_digits(s, 17) {
        Some(v) => v,
        None => return None,
    };
    Some(
        Instant {
            year: (100 * year_hi + year_lo) as i64,
            month,
            day,
            hour,
            minute,
            second,
        },
    )
}

} // verus!
