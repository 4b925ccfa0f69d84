//! The decisions of one API exchange: what an HTTP status means, when to
//! wait and retry after a rate limit, and what a body turns into.
//!
//! The caller performs the exchange: it sends the request, hands the status
//! here, then waits, gives up or reads the body as told, and hands the body
//! back.

use crate::error::XtreamError;
use crate::text::{parse_u64, parsed_u64};
use vstd::prelude::*;
use vstd::string::StringExecFns;

verus! {

/// What the body of a response is read for.
#[derive(Debug, Clone, Copy, PartialEq, Eq, Structural)]
pub enum BodyRole {
    /// A 5xx answer: the body goes into a network error.
    ServerError,
    /// Another non-success answer: the body goes into an unexpected-response error.
    UnexpectedStatus,
    /// A success answer: the body is the payload.
    Payload,
}

/// The next step after a response status.
#[derive(Debug, Clone, PartialEq, Eq)]
pub enum FetchStep {
    /// Sleep for `secs` seconds, then send the request again with
    /// `retries_left` rate-limit retries remaining.
    Wait { secs: u64, retries_left: u32 },
    /// Give up with this error.
    Fail(XtreamError),
    /// Read the body for the given role and hand it to `after_body`.
    ReadBody(BodyRole),
}

/// The seconds to wait after a 429 answer: the `Retry-After` header when it
/// parses as an unsigned integer, 60 otherwise.
pub open spec fn retry_delay(retry_after: Option<Seq<char>>) -> u64 {
    match retry_after {
        Some(h) => match parsed_u64(h) {
            Some(secs) => secs,
            None => 60,
        },
        None => 60,
    }
}

/// Whether the status is in the success class (2xx).
pub open spec fn is_success(status: u16) -> bool {
    200 <= status <= 299
}

/// Whether the status is in the server-error class (5xx).
pub open spec fn is_server_error(status: u16) -> bool {
    500 <= status <= 599
}

/// The step a status leads to, as an outline of `after_status`: `0` wait,
/// `1` fail, `2` read the body.
pub open spec fn step_kind(retries_left: u32, status: u16) -> int {
    if status == 401 || status == 403 {
        1
    } else if status == 429 {
        if retries_left > 0 {
            0
        } else {
            1
        }
    } else {
        2
    }
}

/// The number of waits in an exchange that starts with `retries_left`
/// rate-limit retries and meets the given statuses in turn; the exchange
/// ends at the first step that is not a wait.
pub open spec fn waits_in_run(retries_left: u32, statuses: Seq<u16>) -> nat
    decreases statuses.len(),
{
    if statuses.len() > 0 && step_kind(retries_left, statuses[0]) == 0 {
        1 + waits_in_run((retries_left - 1) as u32, statuses.drop_first())
    } else {
        0
    }
}

/// Retry law: however the server answers, one exchange waits at most as
/// many times as the configured number of rate-limit retries.
pub proof fn lemma_waits_bounded(retries_left: u32, statuses: Seq<u16>)
    ensures
        waits_in_run(retries_left, statuses) <= retries_left,
    decreases statuses.len(),
{
    if statuses.len() > 0 && step_kind(retries_left, statuses[0]) == 0 {
        lemma_waits_bounded((retries_left - 1) as u32, statuses.drop_first());
    }
}

/// Retry law, exact form: a server that answers 429 more times than there
/// are retries makes the exchange wait exactly once per retry.
pub proof fn lemma_waits_exhaust_retries(retries_left: u32, statuses: Seq<u16>)
    requires
        statuses.len() > retries_left,
        forall|i: int| 0 <= i < statuses.len() ==> statuses[i] == 429,
    ensures
        waits_in_run(retries_left, statuses) == retries_left,
    decreases statuses.len(),
{
    if retries_left > 0 {
        let rest = statuses.drop_first();
        assert forall|i: int| 0 <= i < rest.len() implies rest[i] == 429 by {
            assert(rest[i] == statuses[i + 1]);
        }
        lemma_waits_exhaust_retries((retries_left - 1) as u32, rest);
    }
}

/// Retry-delay law: a `Retry-After` header that reads as an unsigned
/// integer is the delay in seconds; a missing or unreadable one means 60.
pub proof fn lemma_retry_delay(header: Option<Seq<char>>)
    ensures
        header is None ==> retry_delay(header) == 60,
        match header {
            Some(h) => match parsed_u64(h) {
                Some(secs) => retry_delay(header) == secs,
                None => retry_delay(header) == 60,
            },
            None => true,
        },
{
}

/// Status law: only a 429 answer ever leads to a wait; 401 and 403 always
/// fail; every server error (5xx) has its body read as a server error, every
/// success (2xx) as the payload, and every other status other than 429 as an
/// unexpected answer.
pub proof fn lemma_status_classes(retries_left: u32, status: u16)
    ensures
        status != 429 ==> step_kind(retries_left, status) != 0,
        (status == 401 || status == 403) ==> step_kind(retries_left, status) == 1,
        500 <= status <= 599 ==> step_kind(retries_left, status) == 2 && body_role(status)
            == BodyRole::ServerError,
        200 <= status <= 299 ==> step_kind(retries_left, status) == 2 && body_role(status)
            == BodyRole::Payload,
        (status != 401 && status != 403 && status != 429 && !(200 <= status <= 299) && !(500
            <= status <= 599)) ==> step_kind(retries_left, status) == 2 && body_role(status)
            == BodyRole::UnexpectedStatus,
        status == 429 ==> (step_kind(retries_left, status) == 0 <==> retries_left > 0),
{
}

/// The role of the body of a status that is read.
pub open spec fn body_role(status: u16) -> BodyRole {
    if is_server_error(status) {
        BodyRole::ServerError
    } else if is_success(status) {
        BodyRole::Payload
    } else {
        BodyRole::UnexpectedStatus
    }
}

/// The seconds to wait after a 429 answer.
pub fn retry_after_secs(retry_after: Option<&str>) -> (secs: u64)
    ensures
        secs == retry_delay(match retry_after {
            Some(h) => Some(h@),
            None => None,
        }),
{
    match retry_after {
        Some(h) => match parse_u64(h) {
            Some(secs) => secs,
            None => 60,
        },
        None => 60,
    }
}

/// Decides what follows a response with the given status.
///
/// 401 and 403 fail with an authentication error; 429 waits for the
/// `Retry-After` delay while retries remain and otherwise fails as rate
/// limited; every other status has its body read, as a server error for 5xx,
/// as the payload for 2xx and as an unexpected answer otherwise.
/// `status_text` is the status as the HTTP client displays it.
pub fn after_status(
    retries_left: u32,
    status: u16,
    status_text: &str,
    retry_after: Option<&str>,
) -> (step: FetchStep)
    ensures
        step_kind(retries_left, status) == 0 <==> step is Wait,
        step_kind(retries_left, status) == 1 <==> step is Fail,
        step_kind(retries_left, status) == 2 <==> step is ReadBody,
        step matches FetchStep::Wait { secs, retries_left: left } ==> secs == retry_delay(
            match retry_after {
                Some(h) => Some(h@),
                None => None,
            },
        ) && left == retries_left - 1,
        (status == 401 || status == 403) ==> (step matches FetchStep::Fail(XtreamError::Auth(m))
            && m@ == "server returned "@ + status_text@),
        (status == 429 && retries_left == 0) ==> step == FetchStep::Fail(
            XtreamError::RateLimited {
                retry_after_secs: retry_delay(
                    match retry_after {
                        Some(h) => Some(h@),
                        None => None,
                    },
                ),
            },
        ),
        step is ReadBody ==> step == FetchStep::ReadBody(body_role(status)),
        status != 429 ==> !(step is Wait),
        500 <= status <= 599 ==> step == FetchStep::ReadBody(BodyRole::ServerError),
        200 <= status <= 299 ==> step == FetchStep::ReadBody(BodyRole::Payload),
{
    if status == 401 || status == 403 {
        return FetchStep::Fail(
            XtreamError::Auth(String::from_str("server returned ").concat(status_text)),
        );
    }
    if status == 429 {
        let secs = retry_after_secs(retry_after);
        if retries_left > 0 {
            return FetchStep::Wait { secs, retries_left: retries_left - 1 };
        }
        return FetchStep::Fail(XtreamError::RateLimited { retry_after_secs: secs });
    }
    if 500 <= status && status <= 599 {
        FetchStep::ReadBody(BodyRole::ServerError)
    } else if 200 <= status && status <= 299 {
        FetchStep::ReadBody(BodyRole::Payload)
    } else {
        FetchStep::ReadBody(BodyRole::UnexpectedStatus)
    }
}

/// The text of a body that was read, or nothing when reading it failed.
pub open spec fn body_or_empty(body: Result<String, XtreamError>) -> Seq<char> {
    match body {
        Ok(t) => t@,
        Err(_) => seq![],
    }
}

/// What a body turns into.
///
/// A server error becomes `Network("server error {status}: {body}")`, an
/// unexpected status `UnexpectedResponse("unexpected status {status}: {body}")`
/// (a body that could not be read counts as empty there); a payload that
/// could not be read keeps its error, an empty payload is an unexpected
/// response, and any other payload is returned for JSON decoding.
pub fn after_body(role: BodyRole, status_text: &str, body: Result<String, XtreamError>) -> (text:
    Result<String, XtreamError>)
    ensures
        role == BodyRole::ServerError ==> (text matches Err(XtreamError::Network(m)) && m@
            == "server error "@ + status_text@ + ": "@ + body_or_empty(body)),
        role == BodyRole::UnexpectedStatus ==> (text matches Err(
            XtreamError::UnexpectedResponse(m),
        ) && m@ == "unexpected status "@ + status_text@ + ": "@ + body_or_empty(body)),
        role == BodyRole::Payload ==> match body {
            Err(e) => text == Err::<String, XtreamError>(e),
            Ok(t) => if t@.len() == 0 {
                text matches Err(XtreamError::UnexpectedResponse(m)) && m@
                    == "empty response body"@
            } else {
                text == Ok::<String, XtreamError>(t)
            },
        },
{
    match role {
        BodyRole::ServerError => {
            let mut m = String::from_str("server error ");
            m.append(status_text);
            m.append(": ");
            match &body {
                Ok(t) => m.append(t.as_str()),
                Err(_) => {},
            }
            Err(XtreamError::Network(m))
        },
        BodyRole::UnexpectedStatus => {
            let mut m = String::from_str("unexpected status ");
            m.append(status_text);
            m.append(": ");
            match &body {
                Ok(t) => m.append(t.as_str()),
                Err(_) => {},
            }
            Err(XtreamError::UnexpectedResponse(m))
        },
        BodyRole::Payload => match body {
            Err(e) => Err(e),
            Ok(t) => {
                if t.as_str().is_empty() {
                    Err(XtreamError::UnexpectedResponse(String::from_str("empty response body")))
                } else {
                    Ok(t)
                }
            },
        },
    }
}

} // verus!
