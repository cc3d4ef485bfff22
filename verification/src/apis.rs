//! The remote service client's shared pieces: the per-call error taxonomy and
//! the form-urlencoding helper used when building request paths.

use crate::errors::{ApiErrorInfo, ApiErrorInfoView};
use crate::render::{u64_dec, u64_to_string};
use vstd::prelude::*;
use vstd::string::StringSliceAdditionalSpecFns;

verus! {

/// An error response from the remote service: the HTTP status, the raw body,
/// and the structured entity when the body could be deserialized.
#[derive(Debug, Clone, PartialEq)]
pub struct ResponseContent<T> {
    pub status: u16,
    pub content: String,
    pub entity: Option<T>,
}

/// What can go wrong in one call against the remote service: transport
/// failure, body-deserialization failure, local I/O failure, or an error
/// response (carrying status, body and, when available, a typed entity).
#[derive(Debug, Clone, PartialEq)]
pub enum Error<T> {
    Reqwest(String),
    Serde(String),
    Io(String),
    ResponseError(ResponseContent<T>),
}

/// The entity-free summary of a remote error, as the reconciler reports it.
pub open spec fn error_info<T>(e: Error<T>) -> ApiErrorInfoView {
    match e {
        Error::Reqwest(m) => ApiErrorInfoView::Reqwest(m@),
        Error::Serde(m) => ApiErrorInfoView::Serde(m@),
        Error::Io(m) => ApiErrorInfoView::Io(m@),
        Error::ResponseError(rc) => ApiErrorInfoView::Response(rc.status, rc.content@),
    }
}

/// The human description of a remote service error: the failing layer and
/// what it reported.
pub open spec fn error_description<T>(e: Error<T>) -> Seq<char> {
    match e {
        Error::Reqwest(m) => "error in reqwest: "@ + m@,
        Error::Serde(m) => "error in serde: "@ + m@,
        Error::Io(m) => "error in IO: "@ + m@,
        Error::ResponseError(rc) => "error in response: status code "@ + u64_dec(rc.status as int),
    }
}

impl<T> Error<T> {
    /// Summarise this error entity-free, so it can be carried by
    /// `OperatorError` without the per-operation entity type.
    pub fn into_info(self) -> (i: ApiErrorInfo)
        ensures
            i@ == error_info(self),
    {
        match self {
            Error::Reqwest(m) => ApiErrorInfo::Reqwest(m),
            Error::Serde(m) => ApiErrorInfo::Serde(m),
            Error::Io(m) => ApiErrorInfo::Io(m),
            Error::ResponseError(rc) => ApiErrorInfo::Response(rc.status, rc.content),
        }
    }

    /// Describe this error: which layer failed, and its message or status.
    pub fn describe(&self) -> (s: String)
        ensures
            s@ == error_description(*self),
    {
        match self {
            Error::Reqwest(m) => {
                let mut s = String::from_str("error in reqwest: ");
                s.append(m.as_str());
                s
            },
            Error::Serde(m) => {
                let mut s = String::from_str("error in serde: ");
                s.append(m.as_str());
                s
            },
            Error::Io(m) => {
                let mut s = String::from_str("error in IO: ");
                s.append(m.as_str());
                s
            },
            Error::ResponseError(rc) => {
                let mut s = String::from_str("error in response: status code ");
                let code = u64_to_string(rc.status as u64);
                s.append(code.as_str());
                s
            },
        }
    }
}

/// A byte the form-urlencoded serializer passes through unchanged:
/// `*`, `-`, `.`, `_`, digits and ASCII letters.
pub open spec fn form_unchanged_byte(b: u8) -> bool {
    ||| b == 42
    ||| b == 45
    ||| b == 46
    ||| 48 <= b <= 57
    ||| 65 <= b <= 90
    ||| b == 95
    ||| 97 <= b <= 122
}

/// The uppercase hexadecimal digit for `n < 16`.
pub open spec fn hex_upper_digit(n: u8) -> char
    recommends
        n < 16,
{
    if n < 10 {
        ((48 + n) as char)
    } else {
        ((55 + n) as char)
    }
}

/// How one byte is form-urlencoded: unchanged, `+` for a space, or `%XX`
/// with uppercase hex digits.
pub open spec fn encode_byte(b: u8) -> Seq<char> {
    if form_unchanged_byte(b) {
        seq![b as char]
    } else if b == 32 {
        seq!['+']
    } else {
        seq!['%', hex_upper_digit(b / 16), hex_upper_digit(b % 16)]
    }
}

/// The `application/x-www-form-urlencoded` serialization of a byte string.
pub open spec fn form_urlencoded_of(bytes: Seq<u8>) -> Seq<char>
    decreases bytes.len(),
{
    if bytes.len() == 0 {
        Seq::empty()
    } else {
        encode_byte(bytes[0]) + form_urlencoded_of(bytes.drop_first())
    }
}

/// Relies on url's `form_urlencoded::byte_serialize`: each input byte outside
/// `*`, `-`, `.`, `_`, digits and ASCII letters is written as `+` for a space
/// and otherwise as `%XX` with uppercase hexadecimal digits; the rest pass
/// through unchanged.
#[verifier::external_body]
fn byte_serialize_str(s: &str) -> (r: String)
    ensures
        r@ == form_urlencoded_of(s.spec_bytes()),
{
    url::form_urlencoded::byte_serialize(s.as_bytes()).collect()
}

/// Percent-encode `s` for use inside a request path or query, in the
/// `application/x-www-form-urlencoded` syntax.
pub fn urlencode(s: &str) -> (r: String)
    ensures
        r@ == form_urlencoded_of(s.spec_bytes()),
{
    byte_serialize_str(s)
}

} // verus!
