//! Typed REST endpoints.
//!
//! An endpoint names three body types, a method and a path (`Endpoint`).
//! A call to it has two halves, and both are here:
//!
//! - `request` builds what is to be sent: the address is the base address
//!   followed by the endpoint's path, and the body is encoded as its type
//!   says (`IntoBody`);
//! - `respond` makes the typed result of what came back: a reply that
//!   reports success is decoded as the response body, any other as the
//!   error body (`FromBody`), and whatever goes wrong is a `CallError`.
//!
//! Sending the request and reading the reply lie between the two and are
//! left to the caller: nothing here touches the network.

pub mod body;
pub mod endpoint;
pub mod failure;
pub mod laws;
pub mod message;

pub use body::{decoded, from_json, json_content, FromBody, IntoBody};
pub use endpoint::{accept, refuse, request, respond, Endpoint};
pub use failure::{CallError, Failure};
pub use message::{assemble, Method, Request, Response};
