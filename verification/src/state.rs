//! The uniform envelope that every response is wrapped in.

use vstd::prelude::*;
use crate::error::{ApiError, ErrorKind};
use crate::text::owned;

verus! {

/// The body of every response: the payload or the error message, never both.
#[derive(Clone, Debug, PartialEq, Eq)]
pub struct Envelope<T> {
    pub data: Option<T>,
    pub error: Option<String>,
}

/// A response: the HTTP status code and the envelope.
#[derive(Clone, Debug, PartialEq, Eq)]
pub struct Reply<T> {
    pub status: u16,
    pub body: Envelope<T>,
}

/// The answer to a request that only changed a record: a message.
#[derive(Clone, Debug, PartialEq, Eq)]
pub struct Notice {
    pub message: String,
}

/// The answer with the given message.
pub fn notice(message: &str) -> (n: Notice)
    ensures
        n.message@ == message@,
{
    Notice { message: owned(message) }
}

/// True when `reply` is a success that carries `data`.
pub open spec fn is_ok_reply<T>(reply: Reply<T>, data: T) -> bool {
    &&& reply.status == 200
    &&& reply.body.data == Some(data)
    &&& reply.body.error is None
}

/// True when `reply` reports a failure of the given kind with the given message.
pub open spec fn is_err_reply<T>(reply: Reply<T>, kind: ErrorKind, message: Seq<char>) -> bool {
    &&& reply.status == kind.spec_status()
    &&& reply.body.data is None
    &&& reply.body.error matches Some(text)
    &&& text@ == message
}

/// The successful response that carries `data`.
pub fn ok<T>(data: T) -> (reply: Reply<T>)
    ensures
        is_ok_reply(reply, data),
{
    Reply { status: 200, body: Envelope { data: Some(data), error: None } }
}

/// The failed response with the status of `kind` and the given message.
pub fn err<T>(kind: ErrorKind, message: &str) -> (reply: Reply<T>)
    ensures
        is_err_reply(reply, kind, message@),
{
    Reply { status: kind.status(), body: Envelope { data: None, error: Some(owned(message)) } }
}

/// The response that reports the outcome of a request.
pub fn respond<T>(outcome: Result<T, ApiError>) -> (reply: Reply<T>)
    ensures
        match outcome {
            Ok(data) => is_ok_reply(reply, data),
            Err(e) => is_err_reply(reply, e.kind, e.message@),
        },
{
    match outcome {
        Ok(data) => ok(data),
        Err(e) => err(e.kind, e.message.as_str()),
    }
}

} // verus!
