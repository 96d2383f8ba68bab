//! The decision core of one blocking `call` round trip.
//!
//! A call is strictly sequential: encode the request ([`crate::codec::encode_request`]),
//! write the line to the worker's input pipe, read one line from its output
//! pipe, then conclude from what the read produced. The pipes themselves are
//! I/O owned by the embedding application; the conclusion drawn from each
//! possible read outcome is verified here.
//!
//! The wire format carries no request identifier, so whole calls must be
//! serialized: the holder's outer lock (see [`crate::holder`]) keeps at most
//! one exchange in flight, which is what correlates each response line with
//! the request that produced it.

use vstd::prelude::*;

use crate::response::decode_response;
use crate::response::decodes_to;

verus! {

/// What one attempt to read the response line produced: a full line, end of
/// stream before any line (the worker exited without answering), or a read
/// failure reported by the pipe.
pub enum ReadEvent {
    Line(String),
    Eof,
    Failed(String),
}

/// The error reported when the worker closed its output without answering.
/// Zero bytes read is a worker-death condition, never a valid empty
/// response.
pub open spec fn eof_error_text() -> Seq<char> {
    "worker closed its output before replying"@
}

/// Concludes a call from what the read of the response line produced: a
/// pipe failure and a silent worker exit are I/O-class errors (never a
/// hang, never an empty success), and a full line is decoded as a response.
pub fn conclude_call(read: ReadEvent) -> (r: Result<Option<serde_json::Value>, String>)
    ensures
        read matches ReadEvent::Failed(e) ==> r is Err && r->Err_0@ == e@,
        read is Eof ==> r is Err && r->Err_0@ == eof_error_text(),
        read matches ReadEvent::Line(l) ==> decodes_to(l@, r),
{
    match read {
        ReadEvent::Failed(e) => Err(e),
        ReadEvent::Eof => Err(String::from_str("worker closed its output before replying")),
        ReadEvent::Line(l) => decode_response(l.as_str()),
    }
}

} // verus!
