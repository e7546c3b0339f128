//! The errors of the library.

use vstd::prelude::*;
use crate::events::DecodeErrorKind;

verus! {

/// A control-plane call answered with a status other than the one expected.
#[derive(Clone, Debug, PartialEq)]
pub struct ApiError {
    /// The HTTP status code of the answer.
    pub code: u16,
    /// The body of the answer, where there was one.
    pub content: Option<String>,
}

/// What the base URL of the server lacks for the event stream.
#[derive(Clone, Copy, Debug, PartialEq, Eq, Structural)]
pub enum EndpointFault {
    MissingHost,
    MissingPort,
}

#[derive(Clone, Debug, PartialEq)]
pub enum Error {
    /// A body that is not the JSON document expected.
    Json(DecodeErrorKind),
    /// A body that is not UTF-8.
    Utf8,
    /// A status code other than the one expected.
    Api(ApiError),
    /// A header value that HTTP does not allow.
    HttpInvalidHeader,
    /// A failed HTTP exchange, with what the HTTP client said of it.
    Http(String),
    /// A text that is no URL.
    UrlParse,
    /// A base URL without an explicit host or port.
    InvalidEndpoint(EndpointFault),
    /// A failure of the event stream's connection, with what was said of it.
    Websocket(String),
}

impl Error {
    /// The error of a call answered with status `code` and body `content`.
    pub fn new(code: u16, content: Option<String>) -> (r: Error)
        ensures
            r == Error::Api(ApiError { code, content }),
    {
        Error::Api(ApiError { code, content })
    }
}

} // verus!
