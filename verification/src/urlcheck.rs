//! Validation of candidate URLs: a candidate's `url` must parse as an
//! absolute URL, and what is stored is the parser's normalized rendering.

use vstd::prelude::*;

verus! {

/// What `url::Url::parse` makes of a string: `None` where the string is not a
/// syntactically valid absolute URL, otherwise the normalized serialization
/// of the parsed URL. Both depend on the characters of the input alone.
pub uninterp spec fn parsed_url(s: Seq<char>) -> Option<Seq<char>>;

/// Relies on `url::Url::parse`, which succeeds exactly on syntactically valid
/// absolute URLs (a relative input fails with `RelativeUrlWithoutBase`), and
/// on `From<Url> for String`, which hands back the parsed URL's normalized
/// serialization; both results are functions of the input string alone.
#[verifier::external_body]
pub(crate) fn parse_absolute_url(s: &str) -> (r: Option<String>)
    ensures
        r is Some <==> parsed_url(s@) is Some,
        r matches Some(u) ==> parsed_url(s@) matches Some(p) && u@ == p,
{
    match url::Url::parse(s) {
        Ok(u) => Some(String::from(u)),
        Err(_) => None,
    }
}

} // verus!
