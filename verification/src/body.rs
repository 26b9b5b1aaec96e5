//! What is known of the length of a response body before it arrives.

use vstd::prelude::*;
use crate::text::decimal;
use crate::text::decimal_string;

verus! {

/// The length of the body that follows a response head.
#[derive(Debug, Copy, Clone, Eq, PartialEq, Structural)]
pub enum ResponseBody {
    /// The body has exactly this many bytes.
    Sized(usize),
    /// The length is not known in advance: the body is read until the
    /// engine reports its end.
    Streamed,
}

/// A body length as text: the variant by its full name, with the number of
/// bytes in decimal where it is known.
pub open spec fn body_text(body: ResponseBody) -> Seq<char> {
    match body {
        ResponseBody::Sized(n) => "ResponseBody::Sized("@ + decimal(n as nat) + ")"@,
        ResponseBody::Streamed => "ResponseBody::Streamed"@,
    }
}

impl ResponseBody {
    /// Whether no body follows: the length is known and is zero.
    pub open spec fn spec_is_empty(&self) -> bool {
        *self == ResponseBody::Sized(0)
    }

    /// Whether no body follows: the length is known and is zero. A streamed
    /// body is never empty in this sense, however few bytes arrive.
    #[verifier::when_used_as_spec(spec_is_empty)]
    pub fn is_empty(&self) -> (empty: bool)
        ensures
            empty == (*self == ResponseBody::Sized(0)),
    {
        match *self {
            ResponseBody::Sized(n) => n == 0,
            ResponseBody::Streamed => false,
        }
    }

    /// The body length as text, `ResponseBody::Sized(n)` or
    /// `ResponseBody::Streamed`.
    pub fn to_string(&self) -> (s: String)
        ensures
            s@ == body_text(*self),
    {
        match *self {
            ResponseBody::Sized(n) => {
                let mut s = String::from_str("ResponseBody::Sized(");
                let digits = decimal_string(n);
                s.append(digits.as_str());
                s.append(")");
                s
            },
            ResponseBody::Streamed => String::from_str("ResponseBody::Streamed"),
        }
    }
}

} // verus!
