//! Small helpers on strings.

use vstd::prelude::*;
use vstd::string::StringExecFns;

verus! {

/// `str`'s `==`: two string slices are equal exactly when they hold the same
/// characters.
pub assume_specification[ <str as PartialEq>::eq ](a: &str, b: &str) -> (same: bool)
    ensures
        same == (a@ == b@),
;

/// The view of an optional string.
pub open spec fn opt_view(s: Option<String>) -> Option<Seq<char>> {
    match s {
        Some(s) => Some(s@),
        None => None,
    }
}

/// The view of an optional string slice.
pub open spec fn opt_str_view(s: Option<&str>) -> Option<Seq<char>> {
    match s {
        Some(s) => Some(s@),
        None => None,
    }
}

/// The string in `s`, if there is one, as a slice.
pub fn opt_as_str(s: &Option<String>) -> (slice: Option<&str>)
    ensures
        opt_str_view(slice) == opt_view(*s),
{
    match s {
        Some(s) => Some(s.as_str()),
        None => None,
    }
}

/// `prefix` followed by `rest`.
pub fn concat(prefix: &str, rest: &str) -> (joined: String)
    ensures
        joined@ == prefix@ + rest@,
{
    let mut joined = prefix.to_owned();
    joined.append(rest);
    joined
}

} // verus!
