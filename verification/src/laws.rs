//! What holds of every call, whatever the endpoint.
//!
//! Each law speaks of a result `out` that `respond` may give, which is what
//! `responds` says, and of what the decoders of the body types give, which
//! is what `call_ensures` of their `from_body` says.

use vstd::prelude::*;
use crate::body::FromBody;
use crate::endpoint::{responds, Endpoint};
use crate::failure::{CallError, Failure};
use crate::message::{success_status, Response};

verus! {

/// A reply that reports success and whose payload decodes to `value`, and
/// to nothing else, gives `value`: no error comes out.
pub proof fn success_gives_decoded_value<A: Endpoint>(
    response: Response,
    value: A::ResponseBody,
    out: Result<A::ResponseBody, CallError<A::ErrorBody>>,
)
    requires
        success_status(response.status),
        forall|decoded: Result<A::ResponseBody, Failure>| #[trigger]
            call_ensures(<A::ResponseBody as FromBody>::from_body, (response,), decoded)
                ==> decoded == Ok::<A::ResponseBody, Failure>(value),
        responds::<A>(Ok(response), out),
    ensures
        out == Ok::<A::ResponseBody, CallError<A::ErrorBody>>(value),
{
}

/// A reply that does not report success and whose payload decodes to the
/// error body `body`, and to nothing else, gives `ErrorStatus` with `body`.
pub proof fn error_status_gives_decoded_body<A: Endpoint>(
    response: Response,
    body: A::ErrorBody,
    out: Result<A::ResponseBody, CallError<A::ErrorBody>>,
)
    requires
        !success_status(response.status),
        forall|decoded: Result<A::ErrorBody, Failure>| #[trigger]
            call_ensures(<A::ErrorBody as FromBody>::from_body, (response,), decoded) ==> decoded
                == Ok::<A::ErrorBody, Failure>(body),
        responds::<A>(Ok(response), out),
    ensures
        out == Err::<A::ResponseBody, CallError<A::ErrorBody>>(CallError::ErrorStatus(body)),
{
}

/// A failure of the transport gives `RequestFailed` with that failure. No
/// decoder has a say in it.
pub proof fn transport_failure_is_handed_on<A: Endpoint>(
    e: reqwest::Error,
    out: Result<A::ResponseBody, CallError<A::ErrorBody>>,
)
    requires
        responds::<A>(Err(e), out),
    ensures
        out == Err::<A::ResponseBody, CallError<A::ErrorBody>>(
            CallError::RequestFailed(Failure::Transport(e)),
        ),
{
}

/// A reply that reports success and whose payload does not decode as the
/// response body gives `RequestFailed` with the decoder's failure.
pub proof fn undecodable_value_is_request_failure<A: Endpoint>(
    response: Response,
    failure: Failure,
    out: Result<A::ResponseBody, CallError<A::ErrorBody>>,
)
    requires
        success_status(response.status),
        forall|decoded: Result<A::ResponseBody, Failure>| #[trigger]
            call_ensures(<A::ResponseBody as FromBody>::from_body, (response,), decoded)
                ==> decoded == Err::<A::ResponseBody, Failure>(failure),
        responds::<A>(Ok(response), out),
    ensures
        out == Err::<A::ResponseBody, CallError<A::ErrorBody>>(CallError::RequestFailed(failure)),
{
}

/// A reply that does not report success and whose payload does not decode
/// as the error body gives `RequestFailed` with the decoder's failure.
pub proof fn undecodable_error_body_is_request_failure<A: Endpoint>(
    response: Response,
    failure: Failure,
    out: Result<A::ResponseBody, CallError<A::ErrorBody>>,
)
    requires
        !success_status(response.status),
        forall|decoded: Result<A::ErrorBody, Failure>| #[trigger]
            call_ensures(<A::ErrorBody as FromBody>::from_body, (response,), decoded) ==> decoded
                == Err::<A::ErrorBody, Failure>(failure),
        responds::<A>(Ok(response), out),
    ensures
        out == Err::<A::ResponseBody, CallError<A::ErrorBody>>(CallError::RequestFailed(failure)),
{
}

/// The status decides between value and error body: a value comes only
/// from a reply that reports success, `ErrorStatus` only from one that does
/// not. And `ParseError` never comes out.
pub proof fn status_decides_result<A: Endpoint>(
    outcome: Result<Response, reqwest::Error>,
    out: Result<A::ResponseBody, CallError<A::ErrorBody>>,
)
    requires
        responds::<A>(outcome, out),
    ensures
        out is Ok ==> outcome is Ok && success_status(outcome->Ok_0.status),
        out matches Err(CallError::ErrorStatus(_)) ==> outcome is Ok && !success_status(
            outcome->Ok_0.status,
        ),
        !(out matches Err(CallError::ParseError)),
{
}

} // verus!
