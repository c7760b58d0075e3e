//! What a decode or an encode attempt ends in.

use vstd::prelude::*;

verus! {

/// Why a request could not be decoded, or a response not encoded.
#[derive(Clone, Copy, Debug, PartialEq, Eq, Structural)]
pub enum Failure {
    /// The body claims a format and is not valid in it: the client's fault.
    BadRequest,
    /// The payload could not be serialised: the server's fault.
    InternalError,
    /// The client accepts none of the enabled formats.
    NotAcceptable,
}

impl Failure {
    /// The HTTP status code of this failure.
    pub open spec fn code(self) -> u16 {
        match self {
            Failure::BadRequest => 400,
            Failure::InternalError => 500,
            Failure::NotAcceptable => 406,
        }
    }

    /// The HTTP status code to answer with: 400, 500 or 406.
    pub fn status(self) -> (code: u16)
        ensures
            code == self.code(),
    {
        match self {
            Failure::BadRequest => 400,
            Failure::InternalError => 500,
            Failure::NotAcceptable => 406,
        }
    }
}

/// How an attempt to decode a request body into a payload of type `P` ended.
#[derive(Debug, PartialEq)]
pub enum Outcome<P> {
    /// The body was in an enabled format and held this payload.
    Success(P),
    /// No enabled format claims the request; another handler may try it.
    Forward,
    /// An enabled format claims the request and rejects its body.
    Failure(Failure),
}

} // verus!
