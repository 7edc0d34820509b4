//! The address of a resource: the address of the service joined with the
//! path of the resource, and read as a URL.

use vstd::prelude::*;
use crate::text::{
    trim_leading_slashes,
    trim_trailing_slashes,
    without_leading_slashes,
    without_trailing_slashes,
};

verus! {

/// The text of the address of `path` below `base`: `base` without the
/// slashes at its end, one slash, and `path` without the slashes at its
/// start.
pub open spec fn joined_url(base: Seq<char>, path: Seq<char>) -> Seq<char> {
    without_trailing_slashes(base) + "/"@ + without_leading_slashes(path)
}

/// Joins the address of the service and the path of a resource with
/// exactly one slash between them.
pub fn join_url(base: &str, path: &str) -> (joined: String)
    ensures
        joined@ == joined_url(base@, path@),
{
    let head = String::from_str(trim_trailing_slashes(base));
    head.concat("/").concat(trim_leading_slashes(path))
}

/// What the URL parser makes of `input`: the normalised text of the URL,
/// or `None` where `input` is not an absolute URL.
pub uninterp spec fn parsed_url(input: Seq<char>) -> Option<Seq<char>>;

/// Calls `url::Url::parse` and hands out the text of the URL that it read
/// (the parser's own serialisation, as `String::from` gives it) or the
/// parser's error.
///
/// Believed, not proved: the outcome depends on `input` alone, so it is
/// the value that [`parsed_url`] names.
#[verifier::external_body]
pub(crate) fn parse_url(input: &str) -> (r: Result<String, url::ParseError>)
    ensures
        r matches Ok(text) ==> parsed_url(input@) == Some(text@),
        r is Err ==> parsed_url(input@) is None,
{
    match url::Url::parse(input) {
        Ok(parsed) => Ok(String::from(parsed)),
        Err(e) => Err(e),
    }
}

} // verus!
