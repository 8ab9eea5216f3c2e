//! Requests as they are handed to an HTTP client.

use crate::adaptive_concurrency::http::status_line;
use crate::adaptive_concurrency::http::StatusCode;
use crate::duration::Duration;
use std::borrow::Cow;
use vstd::prelude::*;
use vstd::string::*;

verus! {

/// What `http::Uri` makes of a text: the URI as it is shown, or why the text is refused.
pub uninterp spec fn uri_parsed(text: Seq<char>) -> Result<Seq<char>, Seq<char>>;

/// What `url::Url::parse` makes of a text: the URL as it is written, or why the text is refused.
pub uninterp spec fn url_parsed(text: Seq<char>) -> Result<Seq<char>, Seq<char>>;

/// What becomes of the URL in a text when `url::PathSegmentsMut::push` appends a path segment to
/// it and `append_pair` then adds a pair to its query.
pub uninterp spec fn url_extended(
    base: Seq<char>,
    segment: Seq<char>,
    name: Seq<char>,
    value: Seq<char>,
) -> Seq<char>;

/// Whether a text is a URL that has path segments, which `url::Url::cannot_be_a_base` tells.
pub uninterp spec fn url_has_segments(text: Seq<char>) -> bool;

/// A result over strings, as one over their texts.
pub open spec fn texts_of(r: Result<String, String>) -> Result<Seq<char>, Seq<char>> {
    match r {
        Ok(text) => Ok(text@),
        Err(text) => Err(text@),
    }
}

/// An optional string, as an optional text.
pub open spec fn text_of(r: Option<String>) -> Option<Seq<char>> {
    match r {
        Some(text) => Some(text@),
        None => None,
    }
}

/// Whether a character may stand in a header value: a tab, or anything but a control character of
/// ASCII.
pub open spec fn is_header_char(c: char) -> bool {
    c == '\t' || (c as u32 >= 32 && c as u32 != 127)
}

/// Whether a text may be a header value.
pub open spec fn is_header_text(text: Seq<char>) -> bool {
    forall|i: int| 0 <= i < text.len() ==> is_header_char(#[trigger] text[i])
}

/// `http::Uri` from text, shown again by its `Display`. Which texts are refused, and how an
/// accepted one is shown, is named and not stated.
#[verifier::external_body]
pub(crate) fn parse_uri(text: &str) -> (r: Result<String, String>)
    ensures
        texts_of(r) == uri_parsed(text@),
{
    match http::Uri::try_from(text) {
        Ok(uri) => Ok(uri.to_string()),
        Err(error) => Err(error.to_string()),
    }
}

/// `url::Url::parse`, and the serialization of what it gives. Which texts are refused, and how an
/// accepted one is written, is named and not stated.
#[verifier::external_body]
pub(crate) fn parse_url(text: &str) -> (r: Result<String, String>)
    ensures
        texts_of(r) == url_parsed(text@),
{
    match url::Url::parse(text) {
        Ok(url) => Ok(String::from(url)),
        Err(error) => Err(error.to_string()),
    }
}

/// Whether a URL of `len` bytes can be extended by texts of `added` characters in all. A URL counts
/// its bytes in 32 bits. A character takes at most 12 of them once it is escaped, and what separates
/// the texts takes fewer than 16.
pub open spec fn extension_fits(len: nat, added: nat) -> bool {
    len + 12 * added + 16 <= u32::MAX
}

/// Whether a URL of `len` bytes can be extended by texts of `added` characters in all.
pub fn can_extend(len: usize, added: u128) -> (r: bool)
    ensures
        r == extension_fits(len as nat, added as nat),
{
    added <= 0xFFFF_FFFF && len as u128 + 12 * added + 16 <= 0xFFFF_FFFF
}

/// Whether a character stays in a path segment that is pushed. Tabs and line ends are dropped.
pub open spec fn is_kept(c: char) -> bool {
    c != '\t' && c != '\n' && c != '\r'
}

/// How many characters of a text stay in a path segment.
pub open spec fn kept(text: Seq<char>) -> nat
    decreases text.len(),
{
    if text.len() == 0 {
        0
    } else {
        kept(text.drop_last()) + (if is_kept(text.last()) {
            1nat
        } else {
            0nat
        })
    }
}

/// How many characters of a text stay in a path segment.
pub fn kept_chars(text: &str) -> (r: usize)
    ensures
        r == kept(text@),
{
    broadcast use axiom_spec_iter;

    let len: usize = text.unicode_len();
    let mut count: usize = 0;
    for c in chars: text.chars()
        invariant
            chars.seq() == text@,
            len == text@.len(),
            count <= chars.index() <= len,
            count == kept(text@.take(chars.index())),
    {
        assert(text@.take(chars.index() + 1).drop_last() =~= text@.take(chars.index()));
        if c != '\t' && c != '\n' && c != '\r' {
            count = count + 1;
        }
    }
    assert(text@.take(len as int) =~= text@);
    count
}

/// `url::Url::parse`, and `cannot_be_a_base` on what it gives: only a text that is a URL has path
/// segments. Which URLs have them is named and not stated.
#[verifier::external_body]
pub(crate) fn has_path_segments(text: &str) -> (r: bool)
    ensures
        r == url_has_segments(text@),
        r ==> url_parsed(text@) is Ok,
{
    match url::Url::parse(text) {
        Ok(url) => !url.cannot_be_a_base(),
        Err(_) => false,
    }
}

/// `url::Url::path_segments_mut` with `push`, then `query_pairs_mut` with `append_pair`, on one
/// URL. The two steps stay together, for the text between them need not be a URL. What comes of
/// them is named and not stated. They panic where the URL has no path segments, and where it, being
/// ASCII, outgrows 32 bits; the bound rules that out, whatever is escaped.
#[verifier::external_body]
pub(crate) fn extend_url(base: &str, segment: &str, name: &str, value: &str) -> (r: String)
    requires
        url_has_segments(base@),
        url_parsed(base@) matches Ok(url) ==> extension_fits(
            url.len(),
            kept(segment@) + name@.len() + value@.len(),
        ),
    ensures
        r@ == url_extended(base@, segment@, name@, value@),
{
    let mut url = url::Url::parse(base).unwrap();
    url.path_segments_mut().unwrap().push(segment);
    url.query_pairs_mut().append_pair(name, value);
    String::from(url)
}

/// `http::HeaderValue` from text: a control character of ASCII other than the tab is refused, with
/// one message for all.
#[verifier::external_body]
pub(crate) fn header_value_error(text: &str) -> (r: Option<String>)
    ensures
        match r {
            None => is_header_text(text@),
            Some(message) => !is_header_text(text@) && message@ == "failed to parse header value"@,
        },
{
    match http::HeaderValue::from_str(text) {
        Ok(_) => None,
        Err(error) => Some(error.to_string()),
    }
}

/// A request to be sent.
#[derive(Clone, Debug)]
pub struct HttpRequest {
    pub method: String,
    pub uri: String,
    pub headers: Vec<(String, String)>,
    pub body: Option<Vec<u8>>,
}

/// Headers, as pairs of a name and a value.
pub open spec fn header_texts(headers: Seq<(String, String)>) -> Seq<(Seq<char>, Seq<char>)> {
    Seq::new(headers.len(), |i: int| (headers[i].0@, headers[i].1@))
}

/// What came back for a request: a status, and the body where it could be read.
#[derive(Debug)]
pub struct Answer<B> {
    pub status: StatusCode,
    pub body: Result<B, String>,
}

/// How the HTTP client under a service is set up.
#[derive(Clone, Debug)]
pub struct HttpClientSettings {
    pub timeout: Duration,
    pub connect_timeout: Duration,
    pub user_agent: Option<String>,
}

/// A reason that ends with a status code.
pub(crate) fn status_message(prefix: &str, status: &StatusCode) -> (r: Cow<'static, str>)
    ensures
        r@ == prefix@ + status_line(status@),
{
    Cow::Owned(String::from_str(prefix).concat(status.to_string().as_str()))
}

} // verus!
