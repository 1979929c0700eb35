//! Endpoints as URLs. A registration's endpoint is a string; the probe of a new
//! connection wants the URL the string stands for.

use std::str::FromStr;
use url::Url;
use vstd::prelude::*;

verus! {

/// What the `url` crate makes of `input` as an absolute URL: the serialization
/// of the URL it parses `input` to, or `None` where it rejects `input`.
pub uninterp spec fn parsed_url(input: Seq<char>) -> Option<Seq<char>>;

/// The view of an optional string.
pub open spec fn text_view(text: Option<String>) -> Option<Seq<char>> {
    match text {
        Some(s) => Some(s@),
        None => None,
    }
}

/// Calls `Url::from_str` and hands back the serialization of the URL it
/// returns, or `None` for its error. The contract claims that this is a
/// function of `input` alone, and gives that function its name; nothing is
/// claimed of which strings parse or to what.
#[verifier::external_body]
pub(crate) fn parse_url(input: &str) -> (url: Option<String>)
    ensures
        text_view(url) == parsed_url(input@),
{
    match Url::from_str(input) {
        Ok(url) => Some(String::from(url)),
        Err(_) => None,
    }
}

} // verus!
