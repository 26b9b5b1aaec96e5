//! The head of a response: the bytes as they were received, read on demand.

use vstd::prelude::*;
use crate::header::collect_headers;
use crate::header::raw_slots;
use crate::header::Headers;
use crate::header::RawHeader;
use crate::header::MAX_HEADERS;

verus! {

/// The header slots that `httparse` leaves behind for a response head: for
/// each of the [`MAX_HEADERS`] slots, in order, the name and the value bytes
/// that the slot holds after the parser has run over `buf`. Slots that the
/// parser did not reach hold an empty name and an empty value.
pub uninterp spec fn parsed_header_slots(buf: Seq<u8>) -> Seq<(Seq<char>, Seq<u8>)>;

/// Runs `httparse::Response::parse` on `buf` over [`MAX_HEADERS`] slots that
/// start out as `httparse::EMPTY_HEADER`, and hands back every slot, field
/// for field. Whether the parser ended with a complete head, a partial one
/// or an error is not looked at: the slots it filled before that stay
/// filled. What the slots hold is named, not described:
/// [`parsed_header_slots`].
#[verifier::external_body]
fn parse_header_slots<'a>(buf: &'a [u8]) -> (raw: [RawHeader<'a>; MAX_HEADERS])
    ensures
        raw_slots(raw@) == parsed_header_slots(buf@),
{
    let mut slots = [httparse::EMPTY_HEADER; MAX_HEADERS];
    let _ = httparse::Response::new(&mut slots).parse(buf);
    slots.map(|h| RawHeader { name: h.name, value: h.value })
}

/// What has been received of a response before its body: the status line
/// and the header lines as raw bytes, the status code, and whether the
/// server agreed to switch protocols.
#[derive(Debug)]
pub struct Response {
    /// The status line and the header lines, exactly as received.
    pub hdrs: Vec<u8>,
    /// The status code.
    pub status: u16,
    /// Whether this response completes an upgrade to WebSocket.
    pub ws: bool,
}

impl Default for Response {
    /// A response of which nothing has been received.
    fn default() -> (r: Response)
        ensures
            r.hdrs@ == Seq::<u8>::empty(),
            r.status == 0,
            !r.ws,
    {
        Response { hdrs: Vec::new(), status: 0, ws: false }
    }
}

impl Response {
    /// A response of which nothing has been received: no bytes, status 0,
    /// no upgrade.
    pub fn new() -> (r: Response)
        ensures
            r.hdrs@ == Seq::<u8>::empty(),
            r.status == 0,
            !r.ws,
    {
        Response { hdrs: Vec::new(), status: 0, ws: false }
    }

    /// The headers of this response, parsed anew from the raw bytes on every
    /// call, so that each result starts at the first header. Nothing is
    /// copied: names and values borrow from the response.
    ///
    /// Parsing ends where the head ends or stops being well formed; the
    /// headers read up to there are kept, [`MAX_HEADERS`] at most, without
    /// those whose value is not valid UTF-8.
    pub fn headers(&self) -> (out: Headers<'_>)
        ensures
            out.entries() == collect_headers(parsed_header_slots(self.hdrs@)),
            out.position() == 0,
    {
        let raw = parse_header_slots(self.hdrs.as_slice());
        Headers::from_raw(raw.as_slice())
    }
}

} // verus!
