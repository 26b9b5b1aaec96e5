//! What the engine reports after each step of an exchange.
//!
//! An exchange is driven in two halves. While the request goes out, each
//! step yields a [`SendState`]; once it is out, each step yields a
//! [`RecvState`]. `Receiving` and `Sending` tell the caller to change
//! halves; `Done`, `DoneWithBody` and `Error` end the exchange.

use vstd::prelude::*;
use crate::body::ResponseBody;
use crate::response::Response;

verus! {

/// Why an exchange failed.
#[derive(Debug, Clone, Copy, PartialEq, Eq, Structural)]
pub enum Error {
    /// The connection failed: it was reset, or TLS could not be set up.
    Transport,
    /// The peer did not speak HTTP: a status line or a header could not be
    /// read.
    Protocol,
    /// The exchange took longer than the caller allowed.
    Timeout,
    /// The call was driven after it had ended.
    Misuse,
}

/// The outcome of one step while the request is being sent.
#[derive(Debug, PartialEq, Eq, Structural)]
pub enum SendState {
    /// The exchange failed and is over.
    Error(Error),
    /// This many bytes of the request body have just been sent.
    SentBody(usize),
    /// The engine waits for the caller to supply more of the request body.
    WaitReqBody,
    /// The request is out: the caller drives the receiving half from now on.
    Receiving,
    /// The exchange is over and no response body is to come.
    Done,
    /// Nothing new: try again after the next readiness event.
    Wait,
}

/// The outcome of one step while the response is being received.
#[derive(Debug)]
pub enum RecvState {
    /// The exchange failed and is over.
    Error(Error),
    /// The head of the response, and what is known of the length of its
    /// body. If the body is not empty, it follows. If it is empty, nothing
    /// more follows of this response: the next report is `Done`, or
    /// `Sending` where the request has to go out again.
    Response(Response, ResponseBody),
    /// This many bytes of the response body have just been received.
    ReceivedBody(usize),
    /// The exchange is over, and this is the whole body.
    DoneWithBody(Vec<u8>),
    /// The request has to be sent again, to follow a redirect or to answer
    /// an authentication challenge: the caller drives the sending half from
    /// now on.
    Sending,
    /// The exchange is over.
    Done,
    /// Nothing new: try again after the next readiness event.
    Wait,
}

impl SendState {
    /// Whether this outcome ends the exchange: `Error` and `Done` do.
    pub open spec fn spec_ends_call(&self) -> bool {
        self is Error || self is Done
    }

    /// Whether this outcome ends the exchange: `Error` and `Done` do.
    #[verifier::when_used_as_spec(spec_ends_call)]
    pub fn ends_call(&self) -> (ends: bool)
        ensures
            ends == self.spec_ends_call(),
    {
        match self {
            SendState::Error(_) => true,
            SendState::Done => true,
            _ => false,
        }
    }
}

impl RecvState {
    /// Whether this outcome ends the exchange: `Error`, `Done` and
    /// `DoneWithBody` do.
    pub open spec fn spec_ends_call(&self) -> bool {
        self is Error || self is Done || self is DoneWithBody
    }

    /// Whether this outcome ends the exchange: `Error`, `Done` and
    /// `DoneWithBody` do.
    #[verifier::when_used_as_spec(spec_ends_call)]
    pub fn ends_call(&self) -> (ends: bool)
        ensures
            ends == self.spec_ends_call(),
    {
        match self {
            RecvState::Error(_) => true,
            RecvState::Done => true,
            RecvState::DoneWithBody(_) => true,
            _ => false,
        }
    }
}

} // verus!
