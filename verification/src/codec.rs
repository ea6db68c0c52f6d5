//! The frame codec of the language-server wire format.
//!
//! A frame is a block of header lines, an empty line, and a body whose length
//! in bytes the `Content-Length` header gives. `encode_frame` writes one frame;
//! `FrameReader` is the reading side, one line at a time, for a caller that
//! owns the stream; `decode_stream` reads a whole buffer with it.

use crate::header::{header_length, header_line, length_of_header, name_bytes, push_decimal};
use crate::json::{body_value, decode_body, json_text, text_of};
use serde_json::Value;
use vstd::prelude::*;
use vstd::slice::slice_subrange;
use vstd::string::StringSliceAdditionalSpecFns;
use vstd::utf8::{encode_utf8, valid_utf8};

verus! {

/// What a reader of the stream does next.
#[derive(Debug, Clone, Copy, PartialEq, Eq)]
pub enum ReadStep {
    /// Read the next line, up to and with its line feed.
    Line,
    /// Read a body of exactly this many bytes, then go on with the next line.
    Body(usize),
    /// Stop: the stream has ended.
    End,
}

/// The reading side of the codec: the length that the header block read so far
/// has declared, 0 where it has declared none.
#[derive(Debug, Clone, Copy, PartialEq, Eq)]
pub struct FrameReader {
    pending: usize,
}

/// The empty line that ends a header block.
pub open spec fn blank_line() -> Seq<u8> {
    seq![13u8, 10u8]
}

/// The step after a line, with `pending` the length declared so far. A line
/// of no bytes is the end of the stream, and a line that is not UTF-8 ends it
/// as well. The empty line asks for the body, if a length was declared. Every
/// other line is a header, and the next line follows.
pub open spec fn step_after_line(pending: usize, line: Seq<u8>) -> ReadStep {
    if line.len() == 0 || !valid_utf8(line) {
        ReadStep::End
    } else if line == blank_line() && pending > 0 {
        ReadStep::Body(pending)
    } else {
        ReadStep::Line
    }
}

/// The length declared after a line: none after the empty line, which ends
/// the block; the header's length after a length header that gives one; and
/// the length as it was after any other line.
pub open spec fn pending_after_line(pending: usize, line: Seq<u8>) -> usize {
    if line.len() == 0 || !valid_utf8(line) {
        pending
    } else if line == blank_line() {
        0
    } else {
        match header_length(line) {
            Some(length) => length,
            None => pending,
        }
    }
}

/// The length of the first line of `s` with its line feed; the length of `s`
/// where it holds no line feed.
pub open spec fn line_len(s: Seq<u8>) -> nat
    decreases s.len(),
{
    if s.len() == 0 {
        0
    } else if s[0] == 10 {
        1
    } else {
        1 + line_len(s.skip(1))
    }
}

pub open spec fn first_line(s: Seq<u8>) -> Seq<u8> {
    s.take(line_len(s) as int)
}

/// The values that one body contributes: its value, or nothing where it
/// carries none.
pub open spec fn emitted(value: Option<Value>) -> Seq<Value> {
    match value {
        Some(v) => seq![v],
        None => Seq::empty(),
    }
}

/// The values decoded from `s` by a reader whose header block has declared
/// `pending` so far. Reading ends where the stream ends, at a line that is not
/// UTF-8, and where a declared body is longer than what is left.
pub open spec fn scan(s: Seq<u8>, pending: usize) -> Seq<Value>
    decreases s.len(),
    via scan_decreases
{
    if s.len() == 0 {
        Seq::empty()
    } else {
        let line = first_line(s);
        let rest = s.skip(line.len() as int);
        match step_after_line(pending, line) {
            ReadStep::End => Seq::empty(),
            ReadStep::Line => scan(rest, pending_after_line(pending, line)),
            ReadStep::Body(length) => if rest.len() < length {
                Seq::empty()
            } else {
                emitted(body_value(rest.take(length as int))) + scan(rest.skip(length as int), 0)
            },
        }
    }
}

#[via_fn]
proof fn scan_decreases(s: Seq<u8>, pending: usize) {
    lemma_line_len_bounds(s);
}

/// The values that a stream of frames carries, in the order of the frames.
pub open spec fn decoded(stream: Seq<u8>) -> Seq<Value> {
    scan(stream, 0)
}

/// One frame: the length header, the empty line, and the body.
pub open spec fn frame(body: Seq<u8>) -> Seq<u8> {
    header_line(body.len()) + blank_line() + body
}

pub proof fn lemma_line_len_bounds(s: Seq<u8>)
    ensures
        line_len(s) <= s.len(),
        s.len() > 0 ==> line_len(s) >= 1,
    decreases s.len(),
{
    if s.len() > 0 && s[0] != 10 {
        lemma_line_len_bounds(s.skip(1));
    }
}

/// A line that ends at its first line feed is the first line of whatever it
/// stands in front of.
proof fn lemma_first_line(s: Seq<u8>, k: int)
    requires
        0 < k <= s.len(),
        s[k - 1] == 10,
        forall|i: int| 0 <= i < k - 1 ==> s[i] != 10,
    ensures
        line_len(s) == k,
    decreases k,
{
    if k > 1 {
        let tail = s.skip(1);
        assert(tail[k - 2] == s[k - 1]);
        assert forall|i: int| 0 <= i < k - 2 implies tail[i] != 10 by {
            assert(tail[i] == s[i + 1]);
        }
        lemma_first_line(tail, k - 1);
    }
}

/// Bytes below 128 are UTF-8.
proof fn lemma_ascii_is_utf8(s: Seq<u8>)
    requires
        forall|i: int| 0 <= i < s.len() ==> s[i] < 128,
    ensures
        valid_utf8(s),
{
    assert(valid_utf8(s.subrange(0, 0)));
    vstd::utf8::partial_valid_utf8_extend_ascii_block(s, 0, s.len() as int);
    assert(s.subrange(0, s.len() as int) == s);
}

/// The first frame of a stream is decoded by itself: a stream that begins
/// with the frame of a body, which is not empty, carries what that body
/// carries, and then what the rest of the stream carries.
pub proof fn lemma_frame_then(body: Seq<u8>, rest: Seq<u8>)
    requires
        0 < body.len() <= usize::MAX,
    ensures
        decoded(frame(body) + rest) == emitted(body_value(body)) + decoded(rest),
{
    let n = body.len();
    let head = header_line(n);
    let s = frame(body) + rest;
    crate::header::lemma_header_line(n);
    assert(s.len() > 0);
    assert forall|i: int| 0 <= i < head.len() implies s[i] == head[i] by {}
    lemma_first_line(s, head.len() as int);
    assert(first_line(s) == head);
    lemma_ascii_is_utf8(head);
    assert(head != blank_line());
    assert(step_after_line(0, head) == ReadStep::Line);
    assert(pending_after_line(0, head) == n as usize);
    let after_head = s.skip(head.len() as int);
    assert(after_head == blank_line() + body + rest);
    assert(scan(s, 0) == scan(after_head, n as usize));

    assert(after_head[0] == 13 && after_head[1] == 10);
    lemma_first_line(after_head, 2);
    assert(first_line(after_head) == blank_line());
    lemma_ascii_is_utf8(blank_line());
    assert(step_after_line(n as usize, blank_line()) == ReadStep::Body(n as usize));
    let after_blank = after_head.skip(2);
    assert(after_blank == body + rest);
    assert(after_blank.take(n as int) == body);
    assert(after_blank.skip(n as int) == rest);
    assert(scan(after_head, n as usize) == emitted(body_value(body)) + scan(rest, 0));
}

/// Encoding and then decoding gives the payload back: the stream that holds
/// the frame of a JSON text, and nothing else, carries exactly the value that
/// the text denotes, or nothing where the text is not JSON. The header counts
/// the bytes of the text in UTF-8, whatever characters it holds.
pub proof fn lemma_round_trip(text: Seq<char>)
    requires
        0 < text.len(),
        encode_utf8(text).len() <= usize::MAX,
    ensures
        decoded(frame(encode_utf8(text))) == emitted(crate::json::json_parse(text)),
{
    let body = encode_utf8(text);
    vstd::utf8::encode_utf8_valid_utf8(text);
    vstd::utf8::encode_utf8_decode_utf8(text);
    assert(body.len() > 0) by {
        vstd::utf8::encode_utf8_first_scalar(text);
    }
    lemma_frame_then(body, Seq::empty());
    assert(frame(body) + Seq::<u8>::empty() == frame(body));
    assert(decoded(Seq::<u8>::empty()) == Seq::<Value>::empty());
}

/// A body that is not JSON is skipped and does not end the stream: of three
/// frames in a row, the first and the last with a value and the middle one
/// without, exactly the two values are decoded, in their order.
pub proof fn lemma_bad_body_is_skipped(first: Seq<u8>, bad: Seq<u8>, last: Seq<u8>)
    requires
        0 < first.len() <= usize::MAX,
        0 < bad.len() <= usize::MAX,
        0 < last.len() <= usize::MAX,
        body_value(first) is Some,
        body_value(bad) is None,
        body_value(last) is Some,
    ensures
        decoded(frame(first) + frame(bad) + frame(last)) == seq![
            body_value(first)->0,
            body_value(last)->0,
        ],
{
    lemma_frame_then(first, frame(bad) + frame(last));
    lemma_frame_then(bad, frame(last));
    lemma_frame_then(last, Seq::empty());
    assert(frame(last) + Seq::<u8>::empty() == frame(last));
    assert(frame(first) + frame(bad) + frame(last) == frame(first) + (frame(bad) + frame(last)));
    assert(decoded(Seq::<u8>::empty()) == Seq::<Value>::empty());
}

impl FrameReader {
    /// The length that the header block read so far has declared.
    pub closed spec fn pending(&self) -> usize {
        self.pending
    }

    /// A reader at the start of a stream.
    pub fn new() -> (reader: Self)
        ensures
            reader.pending() == 0,
    {
        FrameReader { pending: 0 }
    }

    /// Takes the line that was read, with its line feed, or no bytes where
    /// the stream has ended or the read failed, and says what to read next.
    pub fn on_line(&mut self, line: &[u8]) -> (step: ReadStep)
        ensures
            step == step_after_line(old(self).pending(), line@),
            final(self).pending() == pending_after_line(old(self).pending(), line@),
    {
        if line.len() == 0 || crate::bytes::as_text(line).is_none() {
            return ReadStep::End;
        }
        if line.len() == 2 && line[0] == 13 && line[1] == 10 {
            assert(line@ =~= blank_line());
            let length: usize = self.pending;
            self.pending = 0;
            if length > 0 {
                ReadStep::Body(length)
            } else {
                ReadStep::Line
            }
        } else {
            if let Some(length) = length_of_header(line) {
                self.pending = length;
            }
            ReadStep::Line
        }
    }
}

/// Finds the end of the first line of `s`.
fn line_length(s: &[u8]) -> (length: usize)
    ensures
        length == line_len(s@),
{
    let mut i: usize = 0;
    assert(s@.skip(0) == s@);
    while i < s.len()
        invariant
            i <= s@.len(),
            line_len(s@) == i + line_len(s@.skip(i as int)),
        decreases s@.len() - i,
    {
        assert(s@.skip(i as int).skip(1) == s@.skip(i + 1));
        if s[i] == 10 {
            return i + 1;
        }
        i += 1;
    }
    i
}

/// Decodes the values that a stream of frames carries.
pub fn decode_stream(stream: &[u8]) -> (values: Vec<Value>)
    ensures
        values@ == decoded(stream@),
{
    let mut reader = FrameReader::new();
    let mut values: Vec<Value> = Vec::new();
    let mut rest: &[u8] = stream;
    loop
        invariant_except_break
            values@ + scan(rest@, reader.pending()) == decoded(stream@),
        ensures
            values@ == decoded(stream@),
        decreases rest@.len(),
    {
        if rest.len() == 0 {
            break;
        }
        proof {
            lemma_line_len_bounds(rest@);
        }
        let length: usize = line_length(rest);
        let line: &[u8] = slice_subrange(rest, 0, length);
        rest = slice_subrange(rest, length, rest.len());
        match reader.on_line(line) {
            ReadStep::End => {
                break;
            },
            ReadStep::Line => {},
            ReadStep::Body(size) => {
                if rest.len() < size {
                    break;
                }
                let body: &[u8] = slice_subrange(rest, 0, size);
                rest = slice_subrange(rest, size, rest.len());
                let ghost so_far = values@;
                if let Some(value) = decode_body(body) {
                    values.push(value);
                }
                assert(values@ + scan(rest@, 0) == so_far + (emitted(body_value(body@)) + scan(
                    rest@,
                    0,
                )));
            },
        }
    }
    values
}

/// Writes one frame around a body.
pub fn encode_frame(body: &[u8]) -> (bytes: Vec<u8>)
    ensures
        bytes@ == frame(body@),
{
    let mut bytes: Vec<u8> = name_bytes();
    bytes.push(32);
    push_decimal(&mut bytes, body.len());
    bytes.push(13);
    bytes.push(10);
    bytes.push(13);
    bytes.push(10);
    bytes.extend_from_slice(body);
    bytes
}

/// Writes the frame that carries a payload: its body is the compact text of
/// the payload, in UTF-8, and the header counts the bytes of that text.
pub fn encode_payload(payload: &Value) -> (bytes: Vec<u8>)
    ensures
        bytes@ == frame(encode_utf8(json_text(*payload))),
{
    let text: String = text_of(payload);
    encode_frame(text.as_str().as_bytes())
}

} // verus!
