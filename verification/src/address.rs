//! URL parsing through the `url` crate.

use vstd::prelude::*;

verus! {

/// The crate's `Url`, carried from the parser to the caller that connects.
#[verifier::external_type_specification]
#[verifier::external_body]
pub struct ExUrl(url::Url);

/// The crate's `ParseError`, of which only its description is used.
#[verifier::external_type_specification]
#[verifier::external_body]
pub struct ExParseError(url::ParseError);

/// What `Url::parse` makes of a text: the absolute URL, or the reason why the
/// text is none.
pub uninterp spec fn parsed(text: Seq<char>) -> Result<url::Url, url::ParseError>;

/// The description that `Display` writes for a parse error.
pub uninterp spec fn error_text(error: url::ParseError) -> Seq<char>;

/// Calls `Url::parse`.
#[verifier::external_body]
pub(crate) fn parse(text: &str) -> (outcome: Result<url::Url, url::ParseError>)
    ensures
        outcome == parsed(text@),
{
    url::Url::parse(text)
}

/// Formats a parse error with its `Display` impl, as `to_string` does.
#[verifier::external_body]
pub(crate) fn describe(error: &url::ParseError) -> (description: String)
    ensures
        description@ == error_text(*error),
{
    error.to_string()
}

} // verus!
