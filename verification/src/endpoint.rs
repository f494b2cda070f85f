//! The address of the feed.

use crate::error::{FeedError, FeedErrorView};
use vstd::prelude::*;

verus! {

/// What `url::Url::parse` makes of a text: the serialization of the URL it read,
/// or the message of the `url::ParseError` it stopped with.
pub uninterp spec fn url_parsed(input: Seq<char>) -> Result<Seq<char>, Seq<char>>;

/// The characters of a parse result, on either side.
pub open spec fn texts(parsed: Result<String, String>) -> Result<Seq<char>, Seq<char>> {
    match parsed {
        Ok(text) => Ok(text@),
        Err(reason) => Err(reason@),
    }
}

/// Parses `input` with `url::Url::parse`.
///
/// Trusted: the result is `url_parsed(input)`, that is, the parser's answer
/// depends on the text alone. On success the URL is handed back as its
/// serialization (`String::from(Url)`), on failure as the error's message.
#[verifier::external_body]
fn parse_url(input: &str) -> (parsed: Result<String, String>)
    ensures
        texts(parsed) == url_parsed(input@),
{
    match url::Url::parse(input) {
        Ok(url) => Ok(String::from(url)),
        Err(e) => Err(e.to_string()),
    }
}

/// A feed address that has been read as a URL. Fixed once made.
#[derive(Debug, PartialEq, Eq)]
pub struct FeedEndpoint {
    href: String,
}

impl View for FeedEndpoint {
    type V = Seq<char>;

    /// The serialization of the URL.
    closed spec fn view(&self) -> Seq<char> {
        self.href@
    }
}

impl FeedEndpoint {
    /// The endpoint for a URL parser's answer: its serialization becomes the
    /// address, its complaint a configuration error.
    pub fn from_parsed(parsed: Result<String, String>) -> (r: Result<FeedEndpoint, FeedError>)
        ensures
            match parsed {
                Ok(href) => r matches Ok(endpoint) && endpoint@ == href@,
                Err(reason) => r matches Err(e) && e@ == FeedErrorView::Configuration(reason@),
            },
    {
        match parsed {
            Ok(href) => Ok(FeedEndpoint { href }),
            Err(reason) => Err(FeedError::Configuration(reason)),
        }
    }

    /// Reads `input` as a URL.
    ///
    /// Succeeds exactly when the URL parser accepts `input`; the endpoint is then
    /// the parser's serialization of it. Otherwise the parser's message comes back
    /// as a configuration error.
    pub fn parse(input: &str) -> (r: Result<FeedEndpoint, FeedError>)
        ensures
            match url_parsed(input@) {
                Ok(href) => r matches Ok(endpoint) && endpoint@ == href,
                Err(reason) => r matches Err(e) && e@ == FeedErrorView::Configuration(reason),
            },
    {
        FeedEndpoint::from_parsed(parse_url(input))
    }

    /// The address as text, as a transport wants it.
    pub fn as_str(&self) -> (s: &str)
        ensures
            s@ == self@,
    {
        self.href.as_str()
    }
}

} // verus!
