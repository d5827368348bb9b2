//! Encoding a request body and decoding a response body.
//!
//! A body type says how it is encoded (`IntoBody`) and how it is decoded
//! (`FromBody`). For a type that serde can write or read, `json_content` and
//! `from_json` do the work, so that an impl is one line; `()` has both.

use vstd::prelude::*;
use crate::failure::Failure;
use crate::message::Response;

verus! {

/// A value that can be sent as the body of a request.
pub trait IntoBody {
    /// The content type to announce, if any. None is announced unless a
    /// body type says otherwise.
    fn content_type() -> (announced: Option<
        (reqwest::header::HeaderName, reqwest::header::HeaderValue),
    >)
        default_ensures
            announced is None,
    {
        None
    }

    /// The payload to send, or why the value cannot be encoded. Unless a
    /// body type says otherwise the payload is empty.
    fn content(&self) -> (payload: Result<String, serde_json::Error>)
        default_ensures
            payload is Ok,
            payload->Ok_0@ == Seq::<char>::empty(),
    {
        Ok(String::new())
    }
}

/// A value that can be had from a response.
pub trait FromBody: Sized {
    /// Decodes the response into a value, or says why it cannot be.
    fn from_body(response: Response) -> (decoded: Result<Self, Failure>);
}

/// Calls `serde_json::to_string` on `value`. Nothing is claimed of what it
/// returns.
#[verifier::external_body]
fn to_json_text<T: serde::Serialize>(value: &T) -> (text: Result<String, serde_json::Error>) {
    serde_json::to_string(value)
}

/// Calls `serde_json::from_slice` on `bytes`. Nothing is claimed of what it
/// returns.
#[verifier::external_body]
fn from_json_bytes<T: serde::de::DeserializeOwned>(bytes: &[u8]) -> (value: Result<
    T,
    serde_json::Error,
>) {
    serde_json::from_slice(bytes)
}

/// What a decoder reports for a parse result: the value, or a decode failure
/// that holds the parser's error.
pub open spec fn decoded_as<T>(parsed: Result<T, serde_json::Error>) -> Result<T, Failure> {
    match parsed {
        Ok(value) => Ok(value),
        Err(e) => Err(Failure::Decode(e)),
    }
}

/// Turns a parse result into what a decoder reports.
pub fn decoded<T>(parsed: Result<T, serde_json::Error>) -> (out: Result<T, Failure>)
    ensures
        out == decoded_as(parsed),
{
    match parsed {
        Ok(value) => Ok(value),
        Err(e) => Err(Failure::Decode(e)),
    }
}

/// Whether `text` is what `serde_json::to_string` gave for `value`. This
/// says where a text comes from, not what it holds: two calls on one value
/// are not claimed to agree.
pub closed spec fn json_written<T: serde::Serialize>(
    value: &T,
    text: Result<String, serde_json::Error>,
) -> bool {
    call_ensures(to_json_text::<T>, (value,), text)
}

/// Whether `parsed` is what `serde_json::from_slice` gave, as a `T`, for
/// the bytes of `payload`. This says where a value comes from, not which
/// payloads parse.
pub closed spec fn json_parsed<T: serde::de::DeserializeOwned>(
    payload: Seq<u8>,
    parsed: Result<T, serde_json::Error>,
) -> bool {
    exists|bytes: &[u8]|
        bytes@ == payload && #[trigger] call_ensures(from_json_bytes::<T>, (bytes,), parsed)
}

/// Whether `out` is what decoding `payload` as JSON gives: the value that
/// the parser made of it, or a decode failure that holds the parser's error.
pub open spec fn json_decoded<T: serde::de::DeserializeOwned>(
    payload: Seq<u8>,
    out: Result<T, Failure>,
) -> bool {
    exists|parsed: Result<T, serde_json::Error>| #[trigger]
        json_parsed::<T>(payload, parsed) && out == decoded_as(parsed)
}

/// The payload of a value as JSON text, or the error of a value that cannot
/// be written as JSON: `value` is handed to `serde_json::to_string`, and
/// what that gives is the result. What the text holds is `serde_json`'s and
/// `T`'s to say.
pub fn json_content<T: serde::Serialize>(value: &T) -> (payload: Result<
    String,
    serde_json::Error,
>)
    ensures
        json_written(value, payload),
{
    to_json_text(value)
}

/// Decodes the payload of a response as JSON, whatever its status: the
/// payload, whole, is handed to `serde_json::from_slice`, and the result is
/// made of what that gives. A payload that does not parse as `T` is a
/// decode failure, and no other failure comes from here. Which payloads
/// parse, and to what, is `serde_json`'s and `T`'s to say.
pub fn from_json<T: serde::de::DeserializeOwned>(response: &Response) -> (out: Result<T, Failure>)
    ensures
        json_decoded(response.payload@, out),
        out matches Err(failure) ==> failure is Decode,
{
    let bytes = response.payload.as_slice();
    let parsed = from_json_bytes::<T>(bytes);
    assert(json_parsed::<T>(response.payload@, parsed));
    decoded(parsed)
}

/// The empty body: what `serde_json` writes for `()`, with no content type.
impl IntoBody for () {
    fn content(&self) -> (payload: Result<String, serde_json::Error>)
        ensures
            json_written(self, payload),
    {
        json_content(self)
    }
}

/// The empty body is had from a payload that `serde_json` reads as `()`.
impl FromBody for () {
    fn from_body(response: Response) -> (decoded: Result<Self, Failure>)
        ensures
            json_decoded(response.payload@, decoded),
            decoded matches Err(failure) ==> failure is Decode,
    {
        from_json(&response)
    }
}

} // verus!
