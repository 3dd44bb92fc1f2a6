//! Parsing URLs with the `url` crate.
use vstd::prelude::*;

verus! {

/// What `url::Url::parse` makes of a string: the serialization of the parsed URL, or
/// the display text of its error.
pub uninterp spec fn url_parse(input: Seq<char>) -> Result<Seq<char>, Seq<char>>;

/// Parses `input` with `url::Url::parse`; the URL comes back as its serialization
/// (`Url::as_str`), an error as its display text. The contract claims only that the
/// outcome is [`url_parse`] of the input.
#[verifier::external_body]
pub(crate) fn parse_url(input: &str) -> (res: Result<String, String>)
    ensures
        match res {
            Ok(u) => url_parse(input@) == Ok::<Seq<char>, Seq<char>>(u@),
            Err(e) => url_parse(input@) == Err::<Seq<char>, Seq<char>>(e@),
        },
{
    url::Url::parse(input).map(String::from).map_err(|e| e.to_string())
}

} // verus!
