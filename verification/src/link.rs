use reqwest::Url;
use vstd::prelude::*;

verus! {

/// The serialization of the absolute URL that a text denotes, or `None` where
/// the text denotes none.
pub uninterp spec fn url_serialization(text: Seq<char>) -> Option<Seq<char>>;

/// Parses `text` with `reqwest::Url::parse`, which is `url::Url::parse`, and
/// takes the serialization out of the parsed value with its conversion into
/// a `String`.
///
/// Trusted: the result is the named serialization of the text.
#[verifier::external_body]
pub(crate) fn parse_url(text: &str) -> (url: Option<String>)
    ensures
        url.deep_view() == url_serialization(text@),
{
    match Url::parse(text) {
        Ok(url) => Some(String::from(url)),
        Err(_) => None,
    }
}

/// Under this address the catalogue serves its posters.
pub open spec fn spec_poster_root() -> Seq<char> {
    "https://image.tmdb.org/t/p/w600_and_h900_bestv2"@
}

/// The address of a poster, given its path in the catalogue: absent where
/// the path is absent or where root and path make no URL.
pub open spec fn spec_poster_url(poster_path: Option<Seq<char>>) -> Option<Seq<char>> {
    match poster_path {
        Some(path) => url_serialization(spec_poster_root() + path),
        None => None,
    }
}

/// Writes the address of a poster.
pub fn poster_url(poster_path: &Option<String>) -> (url: Option<String>)
    ensures
        url.deep_view() == spec_poster_url(poster_path.deep_view()),
{
    match poster_path {
        Some(path) => {
            let mut text = String::from_str("https://image.tmdb.org/t/p/w600_and_h900_bestv2");
            text.append(path.as_str());
            parse_url(text.as_str())
        },
        None => None,
    }
}

} // verus!
