//! The error every fallible call returns: ib_async's exceptions as one enum.

use vstd::prelude::*;
use crate::text::{chars_of, i64_text, int_text, push_chars};

verus! {

/// What a call fails with. Each variant stands for the exception ib_async
/// raises in the same place.
#[derive(Debug, PartialEq, Eq)]
pub enum Error {
    /// No session is open: ib_async's `ConnectionError("Not connected")`.
    NotConnected,
    /// The session could not be opened or was lost: ib_async's
    /// `ConnectionError`.
    Connection(String),
    /// The API reported an error tied to one request: ib_async's
    /// `RequestError`.
    Request {
        /// The request's id, ib_async's `reqId`.
        req_id: i64,
        /// The error code.
        code: i64,
        /// The error message.
        message: String,
    },
    /// A deadline passed: ib_async's `asyncio.TimeoutError`.
    Timeout,
    /// A value the call cannot take or produce: ib_async's `ValueError`,
    /// `AssertionError`, `KeyError` or `RuntimeError`.
    Value(String),
    /// A Flex report could not be downloaded or read: ib_async's `FlexError`.
    Flex(String),
    /// An I/O failure, by the text of the failure.
    Io(String),
}

/// A result whose error is [`Error`] unless another is named.
pub type Result<T, E = Error> = std::result::Result<T, E>;

/// What an error displays as: ib_async's `str()` of its exception.
pub open spec fn error_text(e: Error) -> Seq<char> {
    match e {
        Error::NotConnected => "Not connected"@,
        Error::Connection(m) => m@,
        Error::Request { req_id, code, message } =>
            "[reqId "@ + int_text(req_id as int) + "] API error: "@ + int_text(code as int)
                + ": "@ + message@,
        Error::Timeout => "timed out"@,
        Error::Value(m) => m@,
        Error::Flex(m) => m@,
        Error::Io(m) => m@,
    }
}

impl Error {
    /// The error's text, as `Display` writes it in ib_async's words.
    pub fn text(&self) -> (r: String)
        ensures
            r@ == error_text(*self),
    {
        match self {
            Error::NotConnected => "Not connected".to_string(),
            Error::Connection(m) => m.clone(),
            Error::Request { req_id, code, message } => {
                let mut s = "[reqId ".to_string();
                push_chars(&mut s, &i64_text(*req_id));
                push_chars(&mut s, &chars_of("] API error: "));
                push_chars(&mut s, &i64_text(*code));
                push_chars(&mut s, &chars_of(": "));
                push_chars(&mut s, &chars_of(message.as_str()));
                s
            },
            Error::Timeout => "timed out".to_string(),
            Error::Value(m) => m.clone(),
            Error::Flex(m) => m.clone(),
            Error::Io(m) => m.clone(),
        }
    }
}

} // verus!
