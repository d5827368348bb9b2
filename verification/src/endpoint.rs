//! Endpoints, and the two halves of a call: the request that goes out and
//! the result that is made of what came back.
//!
//! An endpoint and its body types are the caller's own, so the contracts
//! here speak of them through `call_ensures`: what `request` and `respond`
//! return is stated in terms of what the endpoint's own functions return,
//! and is as exact as their contracts are.

use vstd::prelude::*;
use crate::body::{FromBody, IntoBody};
use crate::failure::{CallError, Failure};
use crate::message::{assemble, assembled, success_status, Method, Request, Response};

verus! {

/// One REST operation: a method, a path and the three body types.
pub trait Endpoint {
    /// What is sent.
    type RequestBody: Default + IntoBody;

    /// What a reply that reports success holds.
    type ResponseBody: FromBody;

    /// What a reply that does not report success holds.
    type ErrorBody: FromBody;

    /// The method of the request. It is `Get` unless the endpoint says
    /// otherwise.
    fn method(&self) -> (method: Method)
        default_ensures
            method == Method::Get,
    {
        Method::Get
    }

    /// The path of the endpoint, to be put behind the base address. It is
    /// `/` unless the endpoint says otherwise.
    fn endpoint(&self) -> (path: &str)
        default_ensures
            path@ == "/"@,
    {
        "/"
    }

    /// The body to send. It is the default value of the body type unless
    /// the endpoint says otherwise.
    fn body(&self) -> (body: Self::RequestBody)
        default_ensures
            call_ensures(<Self::RequestBody as Default>::default, (), body),
    {
        Self::RequestBody::default()
    }
}

/// Whether `out` is a request that `api` may build under `base_url`.
///
/// The endpoint gives a method, a path and a body; the body's type gives a
/// content type and the encoding of the body. Where the body cannot be
/// encoded, `out` is the encoder's error. Else `out` is the request that is
/// put together from these.
pub open spec fn requests<A: Endpoint>(
    api: &A,
    base_url: Seq<char>,
    out: Result<Request, serde_json::Error>,
) -> bool {
    exists|
        method: Method,
        path: &str,
        body: A::RequestBody,
        content_type: Option<(reqwest::header::HeaderName, reqwest::header::HeaderValue)>,
        payload: Result<String, serde_json::Error>,
    |
        #![trigger
            call_ensures(A::method, (api,), method),
            call_ensures(A::endpoint, (api,), path),
            call_ensures(<A::RequestBody as IntoBody>::content_type, (), content_type),
            call_ensures(<A::RequestBody as IntoBody>::content, (&body,), payload),
        ]
        {
            &&& call_ensures(A::method, (api,), method)
            &&& call_ensures(A::endpoint, (api,), path)
            &&& call_ensures(A::body, (api,), body)
            &&& call_ensures(<A::RequestBody as IntoBody>::content_type, (), content_type)
            &&& call_ensures(<A::RequestBody as IntoBody>::content, (&body,), payload)
            &&& match payload {
                Ok(text) => out is Ok && out->Ok_0@ == assembled(
                    method,
                    base_url,
                    path@,
                    content_type,
                    text@,
                ),
                Err(e) => out == Err::<Request, serde_json::Error>(e),
            }
        }
}

/// Builds the request of a call to `api` under `base_url`, or hands on the
/// error of a body that cannot be encoded.
pub fn request<A: Endpoint>(api: &A, base_url: &str) -> (out: Result<Request, serde_json::Error>)
    ensures
        requests(api, base_url@, out),
{
    let method = api.method();
    let path = api.endpoint();
    let body = api.body();
    let content_type = A::RequestBody::content_type();
    match body.content() {
        Ok(text) => Ok(assemble(method, base_url, path, content_type, text)),
        Err(e) => Err(e),
    }
}

/// The result of a call whose reply reported success, given what its
/// payload decoded to: the value, or the failure to decode.
pub open spec fn accepted<R, E>(decoded: Result<R, Failure>) -> Result<R, CallError<E>> {
    match decoded {
        Ok(value) => Ok(value),
        Err(failure) => Err(CallError::RequestFailed(failure)),
    }
}

/// The result of a call whose reply did not report success, given what its
/// payload decoded to: always an error, which holds the decoded error body
/// or the failure to decode.
pub open spec fn refused<R, E>(decoded: Result<E, Failure>) -> Result<R, CallError<E>> {
    match decoded {
        Ok(body) => Err(CallError::ErrorStatus(body)),
        Err(failure) => Err(CallError::RequestFailed(failure)),
    }
}

/// Makes the result of a call from the decoded payload of a reply that
/// reported success.
pub fn accept<R, E>(decoded: Result<R, Failure>) -> (out: Result<R, CallError<E>>)
    ensures
        out == accepted::<R, E>(decoded),
{
    match decoded {
        Ok(value) => Ok(value),
        Err(failure) => Err(CallError::from(failure)),
    }
}

/// Makes the result of a call from the decoded payload of a reply that did
/// not report success.
pub fn refuse<R, E>(decoded: Result<E, Failure>) -> (out: Result<R, CallError<E>>)
    ensures
        out == refused::<R, E>(decoded),
{
    match decoded {
        Ok(body) => Err(CallError::ErrorStatus(body)),
        Err(failure) => Err(CallError::from(failure)),
    }
}

/// Whether `out` is a result that an endpoint of type `A` may give for
/// `outcome`.
///
/// A failure of the transport is handed on as it is. A reply that reports
/// success is decoded as the response body, any other as the error body,
/// and `out` is made of what the decoder gave.
pub open spec fn responds<A: Endpoint>(
    outcome: Result<Response, reqwest::Error>,
    out: Result<A::ResponseBody, CallError<A::ErrorBody>>,
) -> bool {
    match outcome {
        Err(e) => out == Err::<A::ResponseBody, CallError<A::ErrorBody>>(
            CallError::RequestFailed(Failure::Transport(e)),
        ),
        Ok(response) => if success_status(response.status) {
            exists|decoded: Result<A::ResponseBody, Failure>|
                #[trigger] call_ensures(
                    <A::ResponseBody as FromBody>::from_body,
                    (response,),
                    decoded,
                ) && out == accepted::<A::ResponseBody, A::ErrorBody>(decoded)
        } else {
            exists|decoded: Result<A::ErrorBody, Failure>|
                #[trigger] call_ensures(<A::ErrorBody as FromBody>::from_body, (response,), decoded)
                    && out == refused::<A::ResponseBody, A::ErrorBody>(decoded)
        },
    }
}

/// Makes the result of a call to `api` from what the transport came back
/// with: its error, or the reply with its payload read to the end.
pub fn respond<A: Endpoint>(api: &A, outcome: Result<Response, reqwest::Error>) -> (out: Result<
    A::ResponseBody,
    CallError<A::ErrorBody>,
>)
    ensures
        responds::<A>(outcome, out),
{
    match outcome {
        Err(e) => Err(CallError::from(e)),
        Ok(response) => {
            if response.is_success() {
                accept(A::ResponseBody::from_body(response))
            } else {
                refuse(A::ErrorBody::from_body(response))
            }
        },
    }
}

} // verus!
