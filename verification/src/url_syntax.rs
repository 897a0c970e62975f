//! URL syntax, as the `url` crate reads it.

use vstd::prelude::*;

verus! {

/// What `url::Url::parse` makes of `input`: for a text that it accepts as an
/// absolute URL, `Ok` with the scheme that `url::Url::scheme` reports; for
/// any other text, `Err` with the message that the parse error displays.
pub uninterp spec fn url_parse(input: Seq<char>) -> Result<Seq<char>, Seq<char>>;

/// A parse outcome as plain text: the scheme of a URL, or the message of
/// the error.
pub open spec fn outcome_text(parsed: Result<String, String>) -> Result<Seq<char>, Seq<char>> {
    match parsed {
        Ok(scheme) => Ok(scheme@),
        Err(message) => Err(message@),
    }
}

/// Parses `input` with `url::Url::parse`. Nothing is proved of the parser:
/// the contract only gives its answer the name `url_parse(input@)`, the
/// scheme of an accepted URL or the displayed message of the error.
#[verifier::external_body]
pub(crate) fn parse_url(input: &str) -> (parsed: Result<String, String>)
    ensures
        outcome_text(parsed) == url_parse(input@),
{
    match ::url::Url::parse(input) {
        Ok(url) => Ok(url.scheme().to_string()),
        Err(error) => Err(error.to_string()),
    }
}

} // verus!
