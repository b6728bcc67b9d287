//! The one request that a session sends, and what it makes of the records
//! that come back.

use vstd::prelude::*;
use vstd::string::StringSliceAdditionalSpecFns;

verus! {

/// The bytes `HTTP`, with which the first record of a response begins.
pub open spec fn response_marker() -> Seq<u8> {
    seq![0x48u8, 0x54u8, 0x54u8, 0x50u8]
}

/// What a decrypted record is taken for.
#[derive(Clone, Copy, Debug, PartialEq, Eq, Structural)]
pub enum RecordKind {
    /// It begins with the marker: a response starts here.
    ResponseStart,
    /// Anything else goes on with the response before it.
    Continuation,
}

/// A record starts a response exactly if the marker is a prefix of it.
pub open spec fn record_kind(payload: Seq<u8>) -> RecordKind {
    if response_marker().is_prefix_of(payload) {
        RecordKind::ResponseStart
    } else {
        RecordKind::Continuation
    }
}

/// Sniffs the first bytes of a decrypted record.
pub fn classify(payload: &[u8]) -> (kind: RecordKind)
    ensures
        kind == record_kind(payload@),
{
    if payload.len() >= 4 && payload[0] == 0x48 && payload[1] == 0x54 && payload[2] == 0x54
        && payload[3] == 0x50 {
        assert(response_marker() =~= payload@.subrange(0, 4));
        RecordKind::ResponseStart
    } else {
        assert(!response_marker().is_prefix_of(payload@)) by {
            if response_marker().is_prefix_of(payload@) {
                assert(payload@.subrange(0, 4) == response_marker());
                assert(payload@.subrange(0, 4)[0] == 0x48u8);
                assert(payload@.subrange(0, 4)[1] == 0x54u8);
                assert(payload@.subrange(0, 4)[2] == 0x54u8);
                assert(payload@.subrange(0, 4)[3] == 0x50u8);
            }
        }
        RecordKind::Continuation
    }
}

/// The index of the first line feed in `text`, or its length if it has none.
pub open spec fn line_feed_at(text: Seq<u8>) -> int
    decreases text.len(),
{
    if text.len() == 0 || text[0] == 0x0au8 {
        0
    } else {
        1 + line_feed_at(text.skip(1))
    }
}

/// The first line of `text`, without its line ending: what stands before the
/// first line feed, less one carriage return if one stands right before it.
/// A text without a line feed is its own first line.
pub open spec fn first_line_of(text: Seq<u8>) -> Seq<u8> {
    let end = line_feed_at(text);
    if end < text.len() && end > 0 && text[end - 1] == 0x0du8 {
        text.subrange(0, end - 1)
    } else {
        text.subrange(0, end)
    }
}

/// `line_feed_at` finds the first line feed and nothing before it.
pub proof fn lemma_line_feed_at(text: Seq<u8>)
    ensures
        0 <= line_feed_at(text) <= text.len(),
        line_feed_at(text) < text.len() ==> text[line_feed_at(text)] == 0x0au8,
        forall|i: int| 0 <= i < line_feed_at(text) ==> text[i] != 0x0au8,
    decreases text.len(),
{
    if text.len() == 0 || text[0] == 0x0au8 {
    } else {
        let rest = text.skip(1);
        lemma_line_feed_at(rest);
        assert forall|i: int| 0 <= i < line_feed_at(text) implies text[i] != 0x0au8 by {
            if i > 0 {
                assert(text[i] == rest[i - 1]);
            }
        }
    }
}

/// The status line of a response: the first line of the record that starts
/// it.
pub fn first_line(payload: &[u8]) -> (line: &[u8])
    ensures
        line@ == first_line_of(payload@),
{
    let mut end: usize = 0;
    while end < payload.len() && payload[end] != 0x0a
        invariant
            end <= payload.len(),
            forall|i: int| 0 <= i < end ==> payload@[i] != 0x0au8,
        decreases payload.len() - end,
    {
        end = end + 1;
    }
    proof {
        lemma_line_feed_at(payload@);
        let at = line_feed_at(payload@);
        if at < end {
            assert(payload@[at] == 0x0au8);
        }
        if end < at {
            assert(payload@[end as int] != 0x0au8);
        }
        assert(at == end);
    }
    if end < payload.len() && end > 0 && payload[end - 1] == 0x0d {
        vstd::slice::slice_subrange(payload, 0, end - 1)
    } else {
        vstd::slice::slice_subrange(payload, 0, end)
    }
}

/// What stands before the host name in the request.
pub open spec fn request_head() -> Seq<u8> {
    "GET / HTTP/1.1\r\nHost: ".spec_bytes()
}

/// What stands behind the host name in the request.
pub open spec fn request_tail() -> Seq<u8> {
    "\r\nConnection: close\r\nAccept-Encoding: identity\r\n\r\n".spec_bytes()
}

/// The request for the root document of `host`: one connection, no content
/// coding.
pub open spec fn request_bytes(host: Seq<u8>) -> Seq<u8> {
    request_head() + host + request_tail()
}

fn append(out: &mut Vec<u8>, bytes: &[u8])
    ensures
        final(out)@ == old(out)@ + bytes@,
{
    let mut i: usize = 0;
    while i < bytes.len()
        invariant
            i <= bytes.len(),
            out@ == old(out)@ + bytes@.subrange(0, i as int),
        decreases bytes.len() - i,
    {
        out.push(bytes[i]);
        i = i + 1;
        assert(out@ =~= old(out)@ + bytes@.subrange(0, i as int));
    }
    assert(bytes@.subrange(0, i as int) =~= bytes@);
}

/// Builds the one request of a session.
pub fn build_http_request(host: &str) -> (request: Vec<u8>)
    ensures
        request@ == request_bytes(host.spec_bytes()),
{
    let mut request: Vec<u8> = Vec::new();
    append(&mut request, "GET / HTTP/1.1\r\nHost: ".as_bytes());
    append(&mut request, host.as_bytes());
    append(&mut request, "\r\nConnection: close\r\nAccept-Encoding: identity\r\n\r\n".as_bytes());
    assert(request@ =~= request_bytes(host.spec_bytes()));
    request
}

} // verus!
