use vstd::prelude::*;
use crate::error::FormatError;

verus! {

#[verifier::external_type_specification]
#[verifier::external_body]
pub struct ExOffsetDateTime(time::OffsetDateTime);

#[verifier::external_type_specification]
#[verifier::external_body]
pub struct ExTimeFormatError(time::error::Format);

/// Relies on time::OffsetDateTime::now_utc for the current time in UTC;
/// nothing is known of its value.
pub assume_specification[ time::OffsetDateTime::now_utc ]() -> time::OffsetDateTime;

pub open spec fn is_digit(c: char) -> bool {
    '0' <= c && c <= '9'
}

pub open spec fn all_digits(s: Seq<char>) -> bool {
    forall|i: int| 0 <= i < s.len() ==> is_digit(#[trigger] s[i])
}

/// A UTC designator `Z`, or a numeric offset `+HH:MM` or `-HH:MM`.
pub open spec fn is_offset(s: Seq<char>) -> bool {
    ||| s == seq!['Z']
    ||| {
        &&& s.len() == 6
        &&& (s[0] == '+' || s[0] == '-')
        &&& all_digits(s.subrange(1, 3))
        &&& s[3] == ':'
        &&& all_digits(s.subrange(4, 6))
    }
}

/// An optional fraction of one or more digits, then an offset.
pub open spec fn is_fraction_and_offset(s: Seq<char>) -> bool {
    ||| is_offset(s)
    ||| {
        &&& s.len() >= 2
        &&& s[0] == '.'
        &&& exists|k: int|
            2 <= k <= s.len() && all_digits(s.subrange(1, k)) && #[trigger] is_offset(
                s.subrange(k, s.len() as int),
            )
    }
}

/// An RFC 3339 `date-time`: `YYYY-MM-DDTHH:MM:SS`, an optional fraction of a
/// second, then `Z` or a numeric offset.
pub open spec fn is_rfc3339(s: Seq<char>) -> bool {
    &&& s.len() >= 20
    &&& all_digits(s.subrange(0, 4))
    &&& s[4] == '-'
    &&& all_digits(s.subrange(5, 7))
    &&& s[7] == '-'
    &&& all_digits(s.subrange(8, 10))
    &&& s[10] == 'T'
    &&& all_digits(s.subrange(11, 13))
    &&& s[13] == ':'
    &&& all_digits(s.subrange(14, 16))
    &&& s[16] == ':'
    &&& all_digits(s.subrange(17, 19))
    &&& is_fraction_and_offset(s.subrange(19, s.len() as int))
}

/// Relies on time::OffsetDateTime::format with the well-known `Rfc3339`
/// description: where it succeeds the text is an RFC 3339 date-time, with
/// four-digit year, two-digit fields, a fraction only when there are
/// nanoseconds, and `Z` for UTC. It fails on years outside 0..=9999.
#[verifier::external_body]
fn format_rfc3339(t: time::OffsetDateTime) -> (r: Result<String, time::error::Format>)
    ensures
        r matches Ok(s) ==> is_rfc3339(s@),
{
    t.format(&time::format_description::well_known::Rfc3339)
}

/// The current time as an RFC 3339 timestamp.
pub fn timestamp_now() -> (r: Result<String, FormatError>)
    ensures
        r matches Ok(s) ==> is_rfc3339(s@),
        r is Err ==> r == Err::<String, FormatError>(FormatError::Time),
{
    let now = time::OffsetDateTime::now_utc();
    match format_rfc3339(now) {
        Ok(s) => Ok(s),
        Err(_) => Err(FormatError::Time),
    }
}

} // verus!
