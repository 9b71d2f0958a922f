use vstd::prelude::*;

use crate::errors::ApiError;

verus! {

/// What parse-then-serialize through the `url` crate gives for `s`: `Some`
/// exactly when `s` is a well-formed absolute URL, and then its normalized
/// serialization — the only form that is ever persisted or echoed back.
pub uninterp spec fn url_normal(s: Seq<char>) -> Option<Seq<char>>;

/// `s` is accepted as a target URL.
pub open spec fn url_valid(s: Seq<char>) -> bool {
    url_normal(s) is Some
}

/// Relies on `url::Url::parse`, which returns `Err` exactly when its input
/// cannot be parsed as an absolute URL, and on the parsed URL's
/// serialization (`Url::as_str`); both depend on the input string alone.
#[verifier::external_body]
fn parse_and_normalize(s: &str) -> (r: Option<String>)
    ensures
        r is Some <==> url_normal(s@) is Some,
        r matches Some(n) ==> url_normal(s@) == Some(n@),
{
    match url::Url::parse(s) {
        Ok(u) => Some(u.as_str().to_owned()),
        Err(_) => None,
    }
}

/// Validation shared by creation and update: `Ok` with the normalized form
/// exactly when the submitted string is a well-formed absolute URL, and the
/// validation error otherwise.
pub fn validate_target(target_url: &String) -> (r: Result<String, ApiError>)
    ensures
        r matches Ok(n) ==> url_normal(target_url@) == Some(n@),
        r is Ok <==> url_valid(target_url@),
        r is Err ==> r == Err::<String, ApiError>(ApiError::Validation),
{
    match parse_and_normalize(target_url.as_str()) {
        Some(n) => Ok(n),
        None => Err(ApiError::Validation),
    }
}

} // verus!
