//! Validation of target URLs. A create request is accepted only when its
//! target parses as an absolute URL; the stored form is the canonical
//! re-serialization of the parsed URL, not the raw client input.

use vstd::prelude::*;

use crate::errors::CreateError;

verus! {

/// What parsing the given characters as an absolute URL yields: `None` when
/// they do not parse, otherwise the canonical serialization of the parsed
/// URL.
pub uninterp spec fn canon_abs_url(s: Seq<char>) -> Option<Seq<char>>;

/// Relies on url's `Url::parse` (with no base URL) and `Url::as_str`: both
/// depend on the input characters alone; `parse` succeeds exactly on
/// absolute URLs, `as_str` returns the canonical serialization of the parsed
/// URL, and that serialization parses again to itself.
#[verifier::external_body]
fn parse_absolute(raw: &str) -> (r: Option<String>)
    ensures
        r is Some <==> canon_abs_url(raw@) is Some,
        r matches Some(c) ==> canon_abs_url(raw@) == Some(c@) && canon_abs_url(c@) == Some(c@),
{
    match url::Url::parse(raw) {
        Ok(u) => Some(String::from(u.as_str())),
        Err(_) => None,
    }
}

/// Parses a raw target URL and returns its canonical serialization, or
/// `MalformedInput` exactly when the input is not an absolute URL.
pub fn canonical_url(raw: &String) -> (r: Result<String, CreateError>)
    ensures
        r matches Ok(c) ==> canon_abs_url(raw@) == Some(c@) && canon_abs_url(c@) == Some(c@),
        r is Err ==> r == Err::<String, CreateError>(CreateError::MalformedInput)
            && canon_abs_url(raw@) is None,
        r is Ok <==> canon_abs_url(raw@) is Some,
{
    match parse_absolute(raw.as_str()) {
        Some(c) => Ok(c),
        None => Err(CreateError::MalformedInput),
    }
}

} // verus!
