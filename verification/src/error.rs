//! Everything that can go wrong while talking to the bot API.

use hyper::error::Error as HttpError;
use vstd::prelude::*;
use vstd::std_specs::convert::FromSpecImpl;
use vstd::string::to_string_from_display_ensures;

verus! {

/// Declares `hyper::error::Error`, the transport's error, as an opaque type.
#[verifier::external_type_specification]
#[verifier::external_body]
pub struct ExHttpError(HttpError);

/// Declares `std::io::Error`, raised while a response body is read, as an opaque type.
#[verifier::external_type_specification]
#[verifier::external_body]
pub struct ExIoError(std::io::Error);

/// Declares `rustc_serialize::json::DecoderError` as an opaque type.
#[verifier::external_type_specification]
#[verifier::external_body]
pub struct ExDecoderError(rustc_serialize::json::DecoderError);

/// Declares `rustc_serialize::json::EncoderError` as an opaque type.
#[verifier::external_type_specification]
#[verifier::external_body]
pub struct ExEncoderError(rustc_serialize::json::EncoderError);

/// Declares `url::ParseError` as an opaque type.
#[verifier::external_type_specification]
#[verifier::external_body]
pub struct ExParseError(url::ParseError);

/// Telegram bot error: anything that may fail.
#[derive(Debug)]
pub enum Error {
    /// HTTP related error.
    Http(HttpError),
    /// IO related error (mainly reading the HTTP result).
    Io(std::io::Error),
    /// Error while decoding JSON data.
    JsonDecode(rustc_serialize::json::DecoderError),
    /// Error while encoding JSON data.
    JsonEncode(rustc_serialize::json::EncoderError),
    /// The server responded with an error and a description.
    Api(String),
    /// A response that is neither a result nor a described error.
    InvalidState(String),
    /// The endpoint and bot token do not make a valid request URL.
    InvalidTokenFormat(url::ParseError),
    /// The given path is not valid.
    InvalidPath(String),
}

impl Error {
    /// What `description` returns: the text that the error carries, or, for
    /// an error of the transport, of the decoder or of the URL parser, what
    /// that error displays.
    pub open spec fn describes(&self, text: String) -> bool {
        match self {
            Error::Http(e) => to_string_from_display_ensures::<HttpError>(e, text),
            Error::Io(e) => to_string_from_display_ensures::<std::io::Error>(e, text),
            Error::JsonDecode(e) => to_string_from_display_ensures::<
                rustc_serialize::json::DecoderError,
            >(e, text),
            Error::JsonEncode(e) => to_string_from_display_ensures::<
                rustc_serialize::json::EncoderError,
            >(e, text),
            Error::Api(s) => text@ == s@,
            Error::InvalidState(s) => text@ == s@,
            Error::InvalidTokenFormat(e) => to_string_from_display_ensures::<url::ParseError>(
                e,
                text,
            ),
            Error::InvalidPath(s) => text@ == s@,
        }
    }

    /// The human-readable text of this error.
    pub fn description(&self) -> (text: String)
        ensures
            self.describes(text),
    {
        match self {
            Error::Http(e) => e.to_string(),
            Error::Io(e) => e.to_string(),
            Error::JsonDecode(e) => e.to_string(),
            Error::JsonEncode(e) => e.to_string(),
            Error::Api(s) => s.clone(),
            Error::InvalidState(s) => s.clone(),
            Error::InvalidTokenFormat(e) => e.to_string(),
            Error::InvalidPath(s) => s.clone(),
        }
    }
}

impl From<HttpError> for Error {
    fn from(e: HttpError) -> (error: Error) {
        Error::Http(e)
    }
}

impl FromSpecImpl<HttpError> for Error {
    open spec fn obeys_from_spec() -> bool {
        true
    }

    open spec fn from_spec(e: HttpError) -> Error {
        Error::Http(e)
    }
}

impl From<std::io::Error> for Error {
    fn from(e: std::io::Error) -> (error: Error) {
        Error::Io(e)
    }
}

impl FromSpecImpl<std::io::Error> for Error {
    open spec fn obeys_from_spec() -> bool {
        true
    }

    open spec fn from_spec(e: std::io::Error) -> Error {
        Error::Io(e)
    }
}

impl From<rustc_serialize::json::DecoderError> for Error {
    fn from(e: rustc_serialize::json::DecoderError) -> (error: Error) {
        Error::JsonDecode(e)
    }
}

impl FromSpecImpl<rustc_serialize::json::DecoderError> for Error {
    open spec fn obeys_from_spec() -> bool {
        true
    }

    open spec fn from_spec(e: rustc_serialize::json::DecoderError) -> Error {
        Error::JsonDecode(e)
    }
}

impl From<rustc_serialize::json::EncoderError> for Error {
    fn from(e: rustc_serialize::json::EncoderError) -> (error: Error) {
        Error::JsonEncode(e)
    }
}

impl FromSpecImpl<rustc_serialize::json::EncoderError> for Error {
    open spec fn obeys_from_spec() -> bool {
        true
    }

    open spec fn from_spec(e: rustc_serialize::json::EncoderError) -> Error {
        Error::JsonEncode(e)
    }
}

impl From<url::ParseError> for Error {
    fn from(e: url::ParseError) -> (error: Error) {
        Error::InvalidTokenFormat(e)
    }
}

impl FromSpecImpl<url::ParseError> for Error {
    open spec fn obeys_from_spec() -> bool {
        true
    }

    open spec fn from_spec(e: url::ParseError) -> Error {
        Error::InvalidTokenFormat(e)
    }
}

} // verus!
