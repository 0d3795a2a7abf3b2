//! Decisions of the streaming chat paths.
//!
//! The agent service streams its responses as an event stream whose payload
//! lines carry a fixed prefix; and a completed response is re-emitted to the
//! UI in small batches to keep rendering smooth. Reading the stream and
//! emitting the batches is the host's work; which lines carry data and when
//! a batch is full is decided here.

use vstd::prelude::*;
use vstd::string::StringExecFns;
use vstd::string::StrSliceExecFns;
use crate::resolver::str_eq;

verus! {

/// The prefix of an event-stream line that carries a data payload has this
/// many characters: `"data: "`.
pub const SSE_DATA_PREFIX_LEN: usize = 6;

/// A re-emitted response batch is flushed once it holds at least this many
/// bytes.
pub const CHAT_CHUNK_MIN_BYTES: usize = 8;

/// Whether an event-stream line carries a data payload.
pub open spec fn spec_is_sse_data_line(line: Seq<char>) -> bool {
    line.len() >= 6 && line.subrange(0, 6) == "data: "@
}

/// Extracts the payload of an event-stream line: everything after the data
/// prefix, or nothing for any other line.
pub fn sse_data_payload(line: &str) -> (r: Option<String>)
    ensures
        r is Some <==> spec_is_sse_data_line(line@),
        r matches Some(p) ==> p@ == line@.subrange(6, line@.len() as int),
{
    let n = line.unicode_len();
    if n < SSE_DATA_PREFIX_LEN {
        return None;
    }
    let head = line.substring_char(0, SSE_DATA_PREFIX_LEN);
    if str_eq(head, "data: ") {
        Some(line.substring_char(SSE_DATA_PREFIX_LEN, n).to_owned())
    } else {
        None
    }
}

/// Whether the batch buffered so far is to be emitted now: either it has
/// reached the minimum size, or the response is exhausted and whatever is
/// left goes out.
pub fn should_flush_chunk(buffered_bytes: usize, at_end: bool) -> (r: bool)
    ensures
        r == (buffered_bytes >= CHAT_CHUNK_MIN_BYTES || at_end),
{
    buffered_bytes >= CHAT_CHUNK_MIN_BYTES || at_end
}

} // verus!
