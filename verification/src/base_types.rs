//! Identifier aliases and a validated URL wrapper.

use vstd::prelude::*;
use crate::errors::Error;
use crate::errors::ErrorKind;

verus! {

/// Unique Slack channel id.
/// (Note that this is *not* the channel's display name.)
pub type ChannelId = String;

/// Unique Slack user id.
/// (Note that this is *not* the user's display name.)
pub type UserId = String;

/// Holds exactly when the URL parser accepts the given text.
pub uninterp spec fn spec_url_ok(s: Seq<char>) -> bool;

/// The parser's normalized serialization of an accepted URL text:
/// lowercased scheme and host, default port dropped, mandatory path.
pub uninterp spec fn spec_url_normalized(s: Seq<char>) -> Seq<char>;

/// Relies on `url::Url::parse` and `url::Url::as_str`: whether a text
/// parses as a URL, and the normalized serialization the parser gives
/// it, are both functions of the text alone.
#[verifier::external_body]
fn parse_and_normalize(s: &str) -> (r: Option<String>)
    ensures
        r is Some <==> spec_url_ok(s@),
        r is Some ==> r->0@ == spec_url_normalized(s@),
{
    match url::Url::parse(s) {
        Ok(u) => Some(u.as_str().to_owned()),
        Err(_) => None,
    }
}

/// A URL the parser has accepted, kept in the parser's normalized
/// serialization — the exact text that goes on the wire.
#[derive(Debug, Clone, PartialEq, Eq)]
pub struct SlackUrl {
    text: String,
}

impl SlackUrl {
    /// A well-formed value holds the parser's serialization of some
    /// accepted URL text.
    pub closed spec fn wf(&self) -> bool {
        exists|s: Seq<char>| spec_url_ok(s) && self.text@ == spec_url_normalized(s)
    }

    /// The URL text this value holds.
    pub closed spec fn spec_text(&self) -> Seq<char> {
        self.text@
    }

    /// Validates `text` as a URL, returning the parser's normalized
    /// serialization of it on acceptance and `UrlParseError` on
    /// rejection.
    pub fn new(text: String) -> (r: Result<SlackUrl, Error>)
        ensures
            r is Ok <==> spec_url_ok(text@),
            r is Ok ==> r->Ok_0.wf() && r->Ok_0.spec_text() == spec_url_normalized(text@),
            r is Err ==> r->Err_0.kind == ErrorKind::UrlParseError,
    {
        match parse_and_normalize(text.as_str()) {
            Some(normalized) => {
                let wrapped = SlackUrl { text: normalized };
                proof {
                    assert(spec_url_ok(text@) && wrapped.text@ == spec_url_normalized(text@));
                }
                Ok(wrapped)
            },
            None => Err(Error::from_kind(ErrorKind::UrlParseError)),
        }
    }

    /// The URL text.
    pub fn as_str(&self) -> (r: &str)
        ensures
            r@ == self.spec_text(),
    {
        self.text.as_str()
    }
}

} // verus!
