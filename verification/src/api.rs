//! Requests to the bot API and the answers to them.
//!
//! Nothing here touches the network. A call to the API is prepared as a
//! `Request`, which the caller sends; the answer, once decoded into a
//! `types::Response`, is opened with `Response::into_result`.

pub mod listener;
pub mod session;
pub mod types;

use crate::api::types::{encode, UrlParams};
use crate::error::Error;
use url::ParseError;
use url::Url;
use vstd::prelude::*;
use vstd::string::*;
use vstd::utf8::{encode_utf8, is_ascii_chars, is_ascii_chars_nat_bound};

verus! {

/// The longest text, in bytes, that is read as a URL, and the longest method
/// name that is put into one.
pub const MAX_URL_LENGTH: usize = 2048;

/// A hexadecimal digit from 8 to f: the first digit of a percent escape that
/// stands for a byte outside ASCII.
pub open spec fn high_digit(c: char) -> bool {
    '8' <= c <= '9' || 'a' <= c <= 'f' || 'A' <= c <= 'F'
}

/// The texts that are handed to the `url` crate: of at most `MAX_URL_LENGTH`
/// characters, all of them ASCII, and with no percent escape of a byte
/// outside ASCII.
pub open spec fn plain(text: Seq<char>) -> bool {
    &&& text.len() <= MAX_URL_LENGTH
    &&& is_ascii_chars(text)
    &&& forall|i: int|
        #![trigger text[i]]
        0 <= i && i + 1 < text.len() && text[i] == '%' ==> !high_digit(text[i + 1])
}

fn is_high_digit(byte: u8) -> (high: bool)
    requires
        byte < 128,
    ensures
        high == high_digit(byte as char),
{
    (0x38 <= byte && byte <= 0x39) || (0x61 <= byte && byte <= 0x66) || (0x41 <= byte && byte
        <= 0x46)
}

/// Whether a text may be handed to the `url` crate.
pub fn is_plain(text: &str) -> (fine: bool)
    ensures
        fine == plain(text@),
{
    if !text.is_ascii() {
        return false;
    }
    let length = text.unicode_len();
    if length > MAX_URL_LENGTH {
        return false;
    }
    let mut i: usize = 0;
    while i + 1 < length
        invariant
            i <= length,
            length == text@.len(),
            length <= MAX_URL_LENGTH,
            is_ascii_chars(text@),
            forall|k: int|
                #![trigger text@[k]]
                0 <= k < i && k + 1 < length && text@[k] == '%' ==> !high_digit(text@[k + 1]),
        decreases length - i,
    {
        let here = text.get_ascii(i);
        let after = text.get_ascii(i + 1);
        proof {
            is_ascii_chars_nat_bound(text@);
            assert(text@[i as int] as nat == here as nat);
            assert(text@[i + 1] as nat == after as nat);
            assert(text@[i + 1] == after as char);
        }
        if here == 0x25 && is_high_digit(after) {
            assert(text@[i as int] == '%');
            return false;
        }
        i += 1;
    }
    true
}

/// The normal form in which the `url` crate writes the absolute URL that it
/// reads from `input`; `None` where it reads none.
pub uninterp spec fn url_normal_form(input: Seq<char>) -> Option<Seq<char>>;

/// The normal form of the URL that the `url` crate makes of the URL `base` by
/// taking the last segment off its path and putting `segment` in its place;
/// `None` where it reads no URL from `base`.
pub uninterp spec fn url_with_last_segment(base: Seq<char>, segment: Seq<char>) -> Option<
    Seq<char>,
>;

/// Calls `Url::parse` of the `url` crate on `input` and, where that gives a
/// URL, `Url::into_string` on it. The contract names the outcome after the
/// input: the text of the URL, or none where parsing fails.
///
/// Only plain texts are admitted, because `Url::parse` can panic on others.
/// It hands the host to `idna`, whose Punycode encoder counts in a `u32`
/// without a guard and overflows on a label of some 3,850 characters. There a
/// single character outside ASCII can become eighteen, and percent escapes
/// are decoded first, so neither such a character nor the escape of a byte
/// outside ASCII may occur. What is left are ASCII labels, which go through
/// as they are, and labels in Punycode, which decode to no more characters
/// than they have; at most `MAX_URL_LENGTH` characters keep the counter
/// below 2^32.
#[verifier::external_body]
fn parse_url(input: &str) -> (parsed: Result<String, ParseError>)
    requires
        plain(input@),
    ensures
        match parsed {
            Ok(text) => url_normal_form(input@) == Some(text@),
            Err(_) => url_normal_form(input@) is None,
        },
{
    match Url::parse(input) {
        Ok(url) => Ok(url.into_string()),
        Err(error) => Err(error),
    }
}

/// Calls `Url::parse` of the `url` crate on `base`, then
/// `Url::path_segments_mut`, `PathSegmentsMut::pop` and `PathSegmentsMut::push`
/// with `segment`, then `Url::into_string`. A URL that cannot be a base has no
/// path segments and stays as it is. The contract names the outcome after the
/// two inputs.
///
/// `base` is plain for the sake of `Url::parse`, as in `parse_url`. The
/// length of `segment` is bounded because `push` panics when the URL grows
/// past four gigabytes.
#[verifier::external_body]
fn replace_last_segment(base: &str, segment: &str) -> (replaced: Option<String>)
    requires
        plain(base@),
        segment.len() <= MAX_URL_LENGTH,
    ensures
        match replaced {
            Some(text) => url_with_last_segment(base@, segment@) == Some(text@),
            None => url_with_last_segment(base@, segment@) is None,
        },
{
    match Url::parse(base) {
        Ok(mut url) => {
            if let Ok(mut segments) = url.path_segments_mut() {
                segments.pop().push(segment);
            }
            Some(url.into_string())
        },
        Err(_) => None,
    }
}

/// The length in bytes of a text in UTF-8, as `str::len` gives it.
pub open spec fn byte_length(text: Seq<char>) -> usize {
    encode_utf8(text).len() as usize
}

/// An absolute URL, held as text in the normal form of the `url` crate.
pub struct Endpoint {
    text: String,
}

impl View for Endpoint {
    type V = Seq<char>;

    closed spec fn view(&self) -> Seq<char> {
        self.text@
    }
}

impl Clone for Endpoint {
    fn clone(&self) -> (copy: Endpoint)
        ensures
            copy@ == self@,
    {
        Endpoint { text: self.text.clone() }
    }
}

/// What reading `input` as a URL gives: the URL in its normal form; for a
/// plain text that is no absolute URL, `Error::InvalidTokenFormat`; and for a
/// text that is not plain, `Error::InvalidPath`, which carries the text.
pub open spec fn reads(input: Seq<char>, outcome: Result<Endpoint, Error>) -> bool {
    match outcome {
        Ok(endpoint) => plain(input) && url_normal_form(input) == Some(endpoint@),
        Err(error) => if plain(input) {
            url_normal_form(input) is None && error is InvalidTokenFormat
        } else {
            error matches Error::InvalidPath(refused) && refused@ == input
        },
    }
}

impl Endpoint {
    /// Reads an absolute URL from a plain text. A plain text that is no such
    /// URL is refused with `Error::InvalidTokenFormat`, a text that is not
    /// plain with `Error::InvalidPath`.
    pub fn parse(input: &str) -> (parsed: Result<Endpoint, Error>)
        ensures
            reads(input@, parsed),
    {
        if !is_plain(input) {
            return Err(Error::InvalidPath(String::from_str(input)));
        }
        match parse_url(input) {
            Ok(text) => Ok(Endpoint { text }),
            Err(error) => Err(Error::from(error)),
        }
    }

    /// The URL as text.
    pub fn as_str(&self) -> (text: &str)
        ensures
            text@ == self@,
    {
        self.text.as_str()
    }

    /// Whether a request to `method` can be prepared: the URL is plain, and
    /// the name of the method is no longer than `MAX_URL_LENGTH` bytes.
    pub open spec fn fits(&self, method: &str) -> bool {
        plain(self@) && byte_length(method@) <= MAX_URL_LENGTH
    }

    /// The URL of a method of the API: this URL with `method` in place of the
    /// last segment of its path. Where the URL is not plain, the name is too
    /// long, or the `url` crate does not read this URL, the method is refused
    /// with `Error::InvalidPath`, which carries its name.
    pub fn with_method(&self, method: &str) -> (replaced: Result<Endpoint, Error>)
        ensures
            match replaced {
                Ok(endpoint) => self.fits(method) && url_with_last_segment(self@, method@)
                    == Some(endpoint@),
                Err(error) => {
                    &&& !self.fits(method) || url_with_last_segment(self@, method@) is None
                    &&& error matches Error::InvalidPath(name)
                    &&& name@ == method@
                },
            },
    {
        if is_plain(self.text.as_str()) && method.len() <= MAX_URL_LENGTH {
            if let Some(text) = replace_last_segment(self.text.as_str(), method) {
                return Ok(Endpoint { text });
            }
        }
        Err(Error::InvalidPath(String::from_str(method)))
    }
}

/// A header that goes with every request.
#[derive(Debug, Clone, Copy, PartialEq, Eq, Structural)]
pub enum Header {
    /// `Connection: close`.
    ConnectionClose,
    /// `Content-Type: application/x-www-form-urlencoded`.
    ContentTypeFormUrlEncoded,
    /// `Content-Length`, with the length of the body in bytes.
    ContentLength(u64),
}

/// A call to the API that is ready to be sent: an HTTP POST to `url` with
/// `body` and `headers`.
pub struct Request {
    pub url: Endpoint,
    pub body: String,
    pub headers: Vec<Header>,
}

impl Request {
    /// The request that posts `params` to `url`: the parameters make the
    /// body, and the headers close the connection and announce a form of the
    /// body's length.
    pub fn new(url: Endpoint, params: UrlParams) -> (request: Request)
        ensures
            request.url == url,
            request.body@ == encode(params@),
            request.headers@ == headers_for(request.body@),
    {
        let body = params.get_url_string();
        let mut headers: Vec<Header> = Vec::new();
        headers.push(Header::ConnectionClose);
        headers.push(Header::ContentTypeFormUrlEncoded);
        headers.push(Header::ContentLength(body.as_str().len() as u64));
        assert(headers@ =~= headers_for(body@));
        Request { url, body, headers }
    }
}

/// The headers of a request with the given body.
pub open spec fn headers_for(body: Seq<char>) -> Seq<Header> {
    seq![
        Header::ConnectionClose,
        Header::ContentTypeFormUrlEncoded,
        Header::ContentLength(byte_length(body) as u64),
    ]
}

/// What preparing the call of `method` with `params` at `endpoint` gives: the
/// request, or the refusal of the method.
pub open spec fn prepares(
    endpoint: &Endpoint,
    method: &str,
    params: Seq<(Seq<char>, Seq<char>)>,
    prepared: Result<Request, Error>,
) -> bool {
    match prepared {
        Ok(request) => {
            &&& endpoint.fits(method)
            &&& url_with_last_segment(endpoint@, method@) == Some(request.url@)
            &&& request.body@ == encode(params)
            &&& request.headers@ == headers_for(request.body@)
        },
        Err(error) => {
            &&& !endpoint.fits(method) || url_with_last_segment(endpoint@, method@) is None
            &&& error matches Error::InvalidPath(name)
            &&& name@ == method@
        },
    }
}

/// The entry to the web API: the URL under which its methods live.
pub struct Api {
    pub url: Endpoint,
}

impl Clone for Api {
    fn clone(&self) -> (copy: Api)
        ensures
            copy.url@ == self.url@,
    {
        Api { url: self.url.clone() }
    }
}

impl Api {
    /// The API at the given URL.
    pub fn new(new_url: Endpoint) -> (api: Api)
        ensures
            api.url == new_url,
    {
        Api { url: new_url }
    }

    /// Prepares the call of `method` with `params` at this API.
    pub fn send_request(&self, method: &str, params: UrlParams) -> (prepared: Result<
        Request,
        Error,
    >)
        ensures
            prepares(&self.url, method, params@, prepared),
    {
        Self::request(&self.url, method, params)
    }

    /// Prepares the call of `method` with `params` at `enter_url`: the URL
    /// gets `method` as the last segment of its path, and the request posts
    /// the parameters there.
    pub fn request(enter_url: &Endpoint, method: &str, params: UrlParams) -> (prepared: Result<
        Request,
        Error,
    >)
        ensures
            prepares(enter_url, method, params@, prepared),
    {
        match enter_url.with_method(method) {
            Ok(url) => Ok(Request::new(url, params)),
            Err(error) => Err(error),
        }
    }
}

} // verus!
