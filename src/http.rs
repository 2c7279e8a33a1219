//! Requests handed to the transport, what the transport hands back, and the
//! status gate that sorts an answer into success or one of the error kinds.
use vstd::prelude::*;
use crate::json::JsonValue;
use crate::types::Error;

verus! {

/// The status a read answers with.
pub const OK: u16 = 200;

/// The status a creation answers with.
pub const CREATED: u16 = 201;

/// The status a deletion or an update without payload answers with.
pub const NO_CONTENT: u16 = 204;

#[derive(Debug, Clone, Copy, PartialEq, Eq, Structural)]
pub enum Method {
    Get,
    Post,
    Put,
    Delete,
}

/// One HTTP exchange to perform: the transport sends `body` as JSON text
/// (no body at all when it is `None`) with `Accept: application/json` and,
/// when there is one, the `Authorization` header.
#[derive(Debug)]
pub struct Request {
    pub method: Method,
    pub uri: String,
    pub authorization: Option<String>,
    pub body: Option<JsonValue>,
}

impl Request {
    /// The same request with another method.
    pub fn with_method(self, method: Method) -> (r: Request)
        ensures
            r == (Request { method, ..self }),
    {
        Request { method, ..self }
    }
}

/// What the transport reports of an exchange.
#[derive(Debug)]
pub enum Outcome {
    /// The exchange could not be completed (connection refused, timeout,
    /// malformed response).
    Unreachable,
    /// The server answered with `status`; `body` is the JSON document it
    /// sent, or `None` when it sent none or one that is not valid JSON.
    Answered { status: u16, body: Option<JsonValue> },
}

/// The status gate: a failed exchange is a `NetworkError`, an answer with a
/// status other than `expected` a `ResponseError`, and an answer with the
/// expected status hands on its body.
pub open spec fn status_gate(outcome: Outcome, expected: u16) -> Result<Option<JsonValue>, Error> {
    match outcome {
        Outcome::Unreachable => Err(Error::NetworkError),
        Outcome::Answered { status, body } => if status == expected {
            Ok(body)
        } else {
            Err(Error::ResponseError)
        },
    }
}

/// Applies the status gate to `outcome`.
pub fn expect_status(outcome: Outcome, expected: u16) -> (r: Result<Option<JsonValue>, Error>)
    ensures
        r == status_gate(outcome, expected),
{
    match outcome {
        Outcome::Unreachable => Err(Error::NetworkError),
        Outcome::Answered { status, body } => {
            if status == expected {
                Ok(body)
            } else {
                Err(Error::ResponseError)
            }
        },
    }
}

/// The outcome of an operation whose answer carries nothing to decode.
pub open spec fn done(outcome: Outcome, expected: u16) -> Result<(), Error> {
    match status_gate(outcome, expected) {
        Ok(_) => Ok(()),
        Err(e) => Err(e),
    }
}

/// Applies the status gate to an answer whose body is of no interest.
pub fn expect_done(outcome: Outcome, expected: u16) -> (r: Result<(), Error>)
    ensures
        r == done(outcome, expected),
{
    match expect_status(outcome, expected) {
        Ok(_) => Ok(()),
        Err(e) => Err(e),
    }
}

} // verus!
