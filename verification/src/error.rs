//! Error types for the Xtream API client.

use crate::text::{nat_decimal, owned, push_u64_decimal};
use vstd::prelude::*;
use vstd::std_specs::convert::FromSpecImpl;
use vstd::string::{to_string_from_display_ensures, StringExecFns};

verus! {

#[verifier::external_type_specification]
#[verifier::external_body]
pub struct ExUrlParseError(url::ParseError);

#[verifier::external_type_specification]
#[verifier::external_body]
pub struct ExJsonError(serde_json::Error);

/// Errors that can occur when interacting with an Xtream Codes API server.
#[derive(Debug, Clone, PartialEq, Eq)]
pub enum XtreamError {
    /// Authentication failed (invalid credentials, disabled account).
    Auth(String),
    /// Account expired or session invalid.
    SessionExpired(String),
    /// Server returned 429 Too Many Requests.
    RateLimited {
        /// Suggested retry delay in seconds (from `Retry-After` header or default).
        retry_after_secs: u64,
    },
    /// HTTP or network-level failure.
    Network(String),
    /// Request timed out.
    Timeout(String),
    /// Server returned JSON we could not deserialize.
    UnexpectedResponse(String),
    /// The requested resource was not found (empty info array, null name, etc.).
    NotFound(String),
    /// Invalid URL or configuration.
    InvalidUrl(String),
}

impl XtreamError {
    /// The human-readable description of the error.
    pub open spec fn spec_message(&self) -> Seq<char> {
        match self {
            XtreamError::Auth(m) => "auth error: "@ + m@,
            XtreamError::SessionExpired(m) => "session expired: "@ + m@,
            XtreamError::RateLimited { retry_after_secs } => "rate limited: retry after "@
                + nat_decimal(*retry_after_secs as nat) + "s"@,
            XtreamError::Network(m) => "network error: "@ + m@,
            XtreamError::Timeout(m) => "timeout: "@ + m@,
            XtreamError::UnexpectedResponse(m) => "unexpected response: "@ + m@,
            XtreamError::NotFound(m) => "not found: "@ + m@,
            XtreamError::InvalidUrl(m) => "invalid url: "@ + m@,
        }
    }

    /// The human-readable description of the error (what `Display` prints).
    pub fn message(&self) -> (text: String)
        ensures
            text@ == self.spec_message(),
    {
        match self {
            XtreamError::Auth(m) => String::from_str("auth error: ").concat(m.as_str()),
            XtreamError::SessionExpired(m) => String::from_str("session expired: ").concat(
                m.as_str(),
            ),
            XtreamError::RateLimited { retry_after_secs } => {
                let mut text = String::from_str("rate limited: retry after ");
                push_u64_decimal(&mut text, *retry_after_secs);
                text.append("s");
                text
            },
            XtreamError::Network(m) => String::from_str("network error: ").concat(m.as_str()),
            XtreamError::Timeout(m) => String::from_str("timeout: ").concat(m.as_str()),
            XtreamError::UnexpectedResponse(m) => String::from_str("unexpected response: ").concat(
                m.as_str(),
            ),
            XtreamError::NotFound(m) => String::from_str("not found: ").concat(m.as_str()),
            XtreamError::InvalidUrl(m) => String::from_str("invalid url: ").concat(m.as_str()),
        }
    }

    /// The error for a failed HTTP exchange, by the kind of failure that the
    /// HTTP client reports: a timeout, a failed connection, an undecodable
    /// body, or anything else; `detail` is the client's description.
    pub fn from_transport_failure(
        timed_out: bool,
        connect_failed: bool,
        decode_failed: bool,
        detail: &str,
    ) -> (err: XtreamError)
        ensures
            timed_out ==> (err matches XtreamError::Timeout(m) && m@ == detail@),
            !timed_out && connect_failed ==> (err matches XtreamError::Network(m) && m@
                == "connection failed: "@ + detail@),
            !timed_out && !connect_failed && decode_failed ==> (
            err matches XtreamError::UnexpectedResponse(m) && m@ == "decode error: "@ + detail@),
            !timed_out && !connect_failed && !decode_failed ==> (
            err matches XtreamError::Network(m) && m@ == detail@),
    {
        if timed_out {
            XtreamError::Timeout(owned(detail))
        } else if connect_failed {
            XtreamError::Network(String::from_str("connection failed: ").concat(detail))
        } else if decode_failed {
            XtreamError::UnexpectedResponse(String::from_str("decode error: ").concat(detail))
        } else {
            XtreamError::Network(owned(detail))
        }
    }

    /// The error for a response body that is not the expected JSON;
    /// `detail` is the JSON parser's description.
    pub fn json_parse_failure(detail: &str) -> (err: XtreamError)
        ensures
            err matches XtreamError::UnexpectedResponse(m) && m@ == "json parse error: "@ + detail@,
    {
        XtreamError::UnexpectedResponse(String::from_str("json parse error: ").concat(detail))
    }
}

impl From<url::ParseError> for XtreamError {
    /// An unparsable URL: `InvalidUrl` with the parser's description.
    fn from(err: url::ParseError) -> (e: Self)
        ensures
            e matches XtreamError::InvalidUrl(m) && to_string_from_display_ensures(&err, m),
    {
        XtreamError::InvalidUrl(err.to_string())
    }
}

impl FromSpecImpl<url::ParseError> for XtreamError {
    /// The description comes from the parser error's `Display`, which has no
    /// specification; the `ensures` of `from` states the relation instead.
    open spec fn obeys_from_spec() -> bool {
        false
    }

    open spec fn from_spec(v: url::ParseError) -> Self {
        vstd::pervasive::arbitrary()
    }
}

impl From<serde_json::Error> for XtreamError {
    /// Undecodable JSON: `UnexpectedResponse("json parse error: …")`.
    fn from(err: serde_json::Error) -> (e: Self)
        ensures
            e matches XtreamError::UnexpectedResponse(m) && exists|d: String|
                to_string_from_display_ensures(&err, d) && m@ == "json parse error: "@ + d@,
    {
        let detail = err.to_string();
        XtreamError::json_parse_failure(detail.as_str())
    }
}

impl FromSpecImpl<serde_json::Error> for XtreamError {
    /// The description comes from the JSON error's `Display`, which has no
    /// specification; the `ensures` of `from` states the relation instead.
    open spec fn obeys_from_spec() -> bool {
        false
    }

    open spec fn from_spec(v: serde_json::Error) -> Self {
        vstd::pervasive::arbitrary()
    }
}

} // verus!
