//! The closed set of failures of this library, with their messages.

use vstd::prelude::*;

use vstd::std_specs::cmp::PartialEqSpec;

use reqwest::header::InvalidHeaderValue;

use crate::decimal::{decimal, decimal_text};
use crate::transport::invalid_header_value_text;

verus! {

/// The result of an operation of this library.
pub type Result<T> = std::result::Result<T, Error>;

/// A failure of the library.
#[derive(Debug)]
pub enum Error {
    /// The given value for the `limit` option is above the maximum value allowed in a context.
    /// For instance, `order:score limit:350` is an invalid request because the maximum limit for
    /// ordered queries is 320.
    /// The first value is the value of the `limit` option. The second value is the biggest value
    /// allowed in this context.
    AboveLimit(usize, usize),
    /// An HTTP error has occurred. The `u16` value is the HTTP error code.
    Http(u16),
    /// Serialization error. The `String` value is a description of the error.
    Serial(String),
    /// Redirection error (e.g. redirection loop). The `String` value is a description of the error.
    Redirect(String),
    /// The request couldn't be sent. The `String` value is a description of the error.
    CannotSendRequest(String),
    /// The client couldn't be created. The `String` value is a description of the error.
    CannotCreateClient(String),
}

/// The mathematical value of an [`Error`]: its variant and its payloads, with
/// text payloads as character sequences.
pub enum ErrorView {
    AboveLimit(usize, usize),
    Http(u16),
    Serial(Seq<char>),
    Redirect(Seq<char>),
    CannotSendRequest(Seq<char>),
    CannotCreateClient(Seq<char>),
}

impl View for Error {
    type V = ErrorView;

    open spec fn view(&self) -> ErrorView {
        match self {
            Error::AboveLimit(limit, max) => ErrorView::AboveLimit(*limit, *max),
            Error::Http(code) => ErrorView::Http(*code),
            Error::Serial(msg) => ErrorView::Serial(msg@),
            Error::Redirect(msg) => ErrorView::Redirect(msg@),
            Error::CannotSendRequest(msg) => ErrorView::CannotSendRequest(msg@),
            Error::CannotCreateClient(msg) => ErrorView::CannotCreateClient(msg@),
        }
    }
}

impl ErrorView {
    /// The human-readable message of an error.
    pub open spec fn message(self) -> Seq<char> {
        match self {
            ErrorView::AboveLimit(limit, max) => "limit:"@ + decimal(limit as nat)
                + " is above the maximum value for ordered queries ("@ + decimal(max as nat)
                + ")"@,
            ErrorView::Http(code) => "HTTP error: "@ + decimal(code as nat),
            ErrorView::Serial(msg) => "Serialization error: "@ + msg,
            ErrorView::Redirect(msg) => "Redirection error: "@ + msg,
            ErrorView::CannotSendRequest(msg) => "Couldn't send request: "@ + msg,
            ErrorView::CannotCreateClient(msg) => "Couldn't create client: "@ + msg,
        }
    }
}

/// The message of the error that reports bytes refused as a header value.
pub open spec fn invalid_header_value_message() -> Seq<char> {
    "Invalid header value: "@ + "failed to parse header value"@
}

impl Error {
    /// The error that reports bytes refused as a header value: the
    /// transport's description behind a fixed prefix.
    pub fn from_invalid_header_value(e: &InvalidHeaderValue) -> (r: Error)
        ensures
            r@ == ErrorView::CannotCreateClient(invalid_header_value_message()),
    {
        let text = invalid_header_value_text(e);
        Error::CannotCreateClient(String::from_str("Invalid header value: ").concat(text.as_str()))
    }

    /// Renders the error as its human-readable message.
    pub fn to_string(&self) -> (r: String)
        ensures
            r@ == self@.message(),
    {
        match self {
            Error::AboveLimit(limit, max) => {
                let mut s = String::from_str("limit:");
                s.append(decimal_text(*limit as u64).as_str());
                s.append(" is above the maximum value for ordered queries (");
                s.append(decimal_text(*max as u64).as_str());
                s.append(")");
                s
            },
            Error::Http(code) => String::from_str("HTTP error: ").concat(
                decimal_text(*code as u64).as_str(),
            ),
            Error::Serial(msg) => String::from_str("Serialization error: ").concat(msg.as_str()),
            Error::Redirect(msg) => String::from_str("Redirection error: ").concat(msg.as_str()),
            Error::CannotSendRequest(msg) => String::from_str("Couldn't send request: ").concat(
                msg.as_str(),
            ),
            Error::CannotCreateClient(msg) => String::from_str("Couldn't create client: ").concat(
                msg.as_str(),
            ),
        }
    }
}

impl From<InvalidHeaderValue> for Error {
    /// Same as [`Error::from_invalid_header_value`].
    fn from(e: InvalidHeaderValue) -> (r: Error)
        ensures
            r@ == ErrorView::CannotCreateClient(invalid_header_value_message()),
    {
        Error::from_invalid_header_value(&e)
    }
}

impl vstd::std_specs::convert::FromSpecImpl<InvalidHeaderValue> for Error {
    /// No claim of equality goes through `FromSpec`: an error is fixed only up
    /// to its view, which `from` states in its own `ensures`.
    open spec fn obeys_from_spec() -> bool {
        false
    }

    open spec fn from_spec(e: InvalidHeaderValue) -> Error {
        choose|r: Error| r@ == ErrorView::CannotCreateClient(invalid_header_value_message())
    }
}

impl PartialEq for Error {
    fn eq(&self, other: &Error) -> (r: bool) {
        match (self, other) {
            (Error::AboveLimit(l1, m1), Error::AboveLimit(l2, m2)) => *l1 == *l2 && *m1 == *m2,
            (Error::Http(c1), Error::Http(c2)) => *c1 == *c2,
            (Error::Serial(s1), Error::Serial(s2)) => *s1 == *s2,
            (Error::Redirect(s1), Error::Redirect(s2)) => *s1 == *s2,
            (Error::CannotSendRequest(s1), Error::CannotSendRequest(s2)) => *s1 == *s2,
            (Error::CannotCreateClient(s1), Error::CannotCreateClient(s2)) => *s1 == *s2,
            _ => false,
        }
    }
}

impl vstd::std_specs::cmp::PartialEqSpecImpl for Error {
    open spec fn obeys_eq_spec() -> bool {
        true
    }

    open spec fn eq_spec(&self, other: &Error) -> bool {
        self@ == other@
    }
}

/// Two errors are equal exactly when they are of the same variant and their
/// payloads are equal, text payloads compared character by character.
pub proof fn lemma_eq_is_structural(a: Error, b: Error)
    ensures
        a.eq_spec(&b) <==> match (a, b) {
            (Error::AboveLimit(l1, m1), Error::AboveLimit(l2, m2)) => l1 == l2 && m1 == m2,
            (Error::Http(c1), Error::Http(c2)) => c1 == c2,
            (Error::Serial(s1), Error::Serial(s2)) => s1@ == s2@,
            (Error::Redirect(s1), Error::Redirect(s2)) => s1@ == s2@,
            (Error::CannotSendRequest(s1), Error::CannotSendRequest(s2)) => s1@ == s2@,
            (Error::CannotCreateClient(s1), Error::CannotCreateClient(s2)) => s1@ == s2@,
            _ => false,
        },
{
}

} // verus!
