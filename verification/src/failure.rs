//! The error model: what a call can fail with.

use vstd::prelude::*;
use vstd::std_specs::convert::FromSpecImpl;

verus! {

/// `reqwest::Error`, carried through as it came from the transport.
#[verifier::external_type_specification]
#[verifier::external_body]
pub struct ExTransportFault(reqwest::Error);

/// `serde_json::Error`, carried through as it came from the JSON codec.
#[verifier::external_type_specification]
#[verifier::external_body]
pub struct ExJsonFault(serde_json::Error);

/// Why no body could be had from the server, whatever the endpoint.
#[derive(Debug)]
pub enum Failure {
    /// The request could not be sent or the reply could not be read.
    Transport(reqwest::Error),
    /// The reply was read but its payload is not what the body type expects.
    Decode(serde_json::Error),
}

/// The error of one call, for an endpoint whose error body is `E`.
#[derive(Debug)]
pub enum CallError<E> {
    /// No body could be had: the transport failed or the payload did not decode.
    RequestFailed(Failure),
    /// The server answered outside 2xx and its payload decoded as `E`.
    ErrorStatus(E),
    /// A payload of a shape that nothing else can express.
    ParseError,
}

impl<E> From<reqwest::Error> for CallError<E> {
    fn from(e: reqwest::Error) -> (err: Self) {
        CallError::RequestFailed(Failure::Transport(e))
    }
}

impl<E> FromSpecImpl<reqwest::Error> for CallError<E> {
    open spec fn obeys_from_spec() -> bool {
        true
    }

    open spec fn from_spec(e: reqwest::Error) -> Self {
        CallError::RequestFailed(Failure::Transport(e))
    }
}

impl<E> From<Failure> for CallError<E> {
    fn from(failure: Failure) -> (err: Self) {
        CallError::RequestFailed(failure)
    }
}

impl<E> FromSpecImpl<Failure> for CallError<E> {
    open spec fn obeys_from_spec() -> bool {
        true
    }

    open spec fn from_spec(failure: Failure) -> Self {
        CallError::RequestFailed(failure)
    }
}

} // verus!
