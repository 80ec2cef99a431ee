use vstd::prelude::*;

verus! {

/// An ASCII decimal digit.
pub open spec fn is_digit(c: char) -> bool {
    '0' <= c && c <= '9'
}

/// A non-empty run of ASCII decimal digits.
pub open spec fn all_digits(s: Seq<char>) -> bool {
    s.len() > 0 && forall|i: int| 0 <= i < s.len() ==> is_digit(#[trigger] s[i])
}

/// The value of a run of decimal digits, most significant first.
pub open spec fn digits_value(s: Seq<char>) -> int
    decreases s.len(),
{
    if s.len() == 0 {
        0
    } else {
        digits_value(s.drop_last()) * 10 + (s.last() as int - '0' as int)
    }
}

/// The integer that `s` spells as an optional `+` or `-` followed by digits.
pub open spec fn signed_numeral(s: Seq<char>) -> Option<int> {
    if s.len() > 0 && s[0] == '-' && all_digits(s.drop_first()) {
        Some(-digits_value(s.drop_first()))
    } else if s.len() > 0 && s[0] == '+' && all_digits(s.drop_first()) {
        Some(digits_value(s.drop_first()))
    } else if all_digits(s) {
        Some(digits_value(s))
    } else {
        None
    }
}

/// The integer that `s` spells as an optional `+` followed by digits.
pub open spec fn unsigned_numeral(s: Seq<char>) -> Option<int> {
    if s.len() > 0 && s[0] == '+' && all_digits(s.drop_first()) {
        Some(digits_value(s.drop_first()))
    } else if all_digits(s) {
        Some(digits_value(s))
    } else {
        None
    }
}

/// What `str::parse::<i64>` gives back: the numeral's value where it fits an `i64`.
pub open spec fn parsed_i64(s: Seq<char>) -> Option<i64> {
    match signed_numeral(s) {
        Some(v) => if i64::MIN <= v <= i64::MAX { Some(v as i64) } else { None },
        None => None,
    }
}

/// What `str::parse::<u64>` gives back: the numeral's value where it fits a `u64`.
pub open spec fn parsed_u64(s: Seq<char>) -> Option<u64> {
    match unsigned_numeral(s) {
        Some(v) => if v <= u64::MAX { Some(v as u64) } else { None },
        None => None,
    }
}

/// Calls `str::parse::<i64>` (`<i64 as FromStr>::from_str`). Its documentation: the text is
/// an optional `+` or `-` sign followed by digits only; anything else, an empty text, a
/// lone sign, or a value out of range is an error. The contract states exactly that.
#[verifier::external_body]
pub(crate) fn parse_i64(s: &str) -> (r: Option<i64>)
    ensures
        r == parsed_i64(s@),
{
    match s.parse::<i64>() {
        Ok(v) => Some(v),
        Err(_) => None,
    }
}

/// Calls `str::parse::<u64>` (`<u64 as FromStr>::from_str`). Its documentation: the text is
/// an optional `+` sign followed by digits only; anything else, an empty text, a lone sign,
/// or a value out of range is an error. The contract states exactly that.
#[verifier::external_body]
pub(crate) fn parse_u64(s: &str) -> (r: Option<u64>)
    ensures
        r == parsed_u64(s@),
{
    match s.parse::<u64>() {
        Ok(v) => Some(v),
        Err(_) => None,
    }
}

} // verus!
