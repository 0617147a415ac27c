//! The wire format on both sides of the relay: UTF-8 text, one message to a
//! line, each line ended by a newline.

use vstd::prelude::*;
use vstd::string::StringSliceAdditionalSpecFns;
use vstd::utf8::decode_utf8;
use vstd::utf8::encode_utf8;
use vstd::utf8::valid_utf8;

verus! {

/// The byte that ends a line.
pub const NEWLINE: u8 = 10;

/// How many bytes stand before the first newline of `bytes`: all of them
/// where it holds none.
pub open spec fn line_end(bytes: Seq<u8>) -> int
    decreases bytes.len(),
{
    if bytes.len() == 0 || bytes[0] == NEWLINE {
        0
    } else {
        1 + line_end(bytes.drop_first())
    }
}

/// A line as it goes over the wire: the payload, then the newline.
pub open spec fn framed(payload: Seq<u8>) -> Seq<u8> {
    payload.push(NEWLINE)
}

/// What the front of a buffer of received bytes holds.
#[derive(Debug, PartialEq, Eq)]
pub enum Decoded {
    /// No complete line yet: nothing is to be taken from the buffer.
    Incomplete,
    /// A line of text; `consumed` bytes, the line and its newline, are to be
    /// taken from the buffer.
    Line { text: String, consumed: usize },
    /// A line that is not UTF-8; `consumed` bytes, the line and its newline,
    /// are to be taken from the buffer.
    Invalid { consumed: usize },
}

/// A decoding as plain values.
pub enum DecodedView {
    Incomplete,
    Line { text: Seq<char>, consumed: int },
    Invalid { consumed: int },
}

impl View for Decoded {
    type V = DecodedView;

    open spec fn view(&self) -> DecodedView {
        match self {
            Decoded::Incomplete => DecodedView::Incomplete,
            Decoded::Line { text, consumed } => DecodedView::Line {
                text: text@,
                consumed: *consumed as int,
            },
            Decoded::Invalid { consumed } => DecodedView::Invalid { consumed: *consumed as int },
        }
    }
}

/// What the front of `bytes` holds: its first line, where a newline has
/// arrived.
pub open spec fn decoded(bytes: Seq<u8>) -> DecodedView {
    let end = line_end(bytes);
    if end >= bytes.len() {
        DecodedView::Incomplete
    } else if valid_utf8(bytes.take(end)) {
        DecodedView::Line { text: decode_utf8(bytes.take(end)), consumed: end + 1 }
    } else {
        DecodedView::Invalid { consumed: end + 1 }
    }
}

/// Where no newline stands before `at`, and one stands at `at` or `at` is
/// the end, `at` is the `line_end`.
pub proof fn lemma_line_end_is(bytes: Seq<u8>, at: int)
    requires
        0 <= at <= bytes.len(),
        forall|j: int| 0 <= j < at ==> bytes[j] != NEWLINE,
        at < bytes.len() ==> bytes[at] == NEWLINE,
    ensures
        line_end(bytes) == at,
    decreases bytes.len(),
{
    if bytes.len() == 0 || bytes[0] == NEWLINE {
    } else {
        let rest = bytes.drop_first();
        assert forall|j: int| 0 <= j < at - 1 implies rest[j] != NEWLINE by {
            assert(rest[j] == bytes[j + 1]);
        }
        lemma_line_end_is(rest, at - 1);
    }
}

/// The encoding of a character other than the newline holds no newline
/// byte.
proof fn lemma_scalar_without_newline(c: char)
    requires
        c != '\n',
    ensures
        !vstd::utf8::encode_scalar(c as u32).contains(NEWLINE),
{
    let v = c as u32;
    vstd::utf8::char_is_scalar(c);
    assert(v != 10) by {
        if v == 10 {
            vstd::utf8::char_u32_cast(c, v);
            vstd::utf8::char_u32_cast('\n', 10u32);
        }
    }
    assert(v <= 0x7F ==> (v & 0x7F) as u8 == v) by (bit_vector);
    assert((0xC0 | ((v >> 6) & 0x1F) as u8) >= 0x80) by (bit_vector);
    assert((0xE0 | ((v >> 12) & 0x0F) as u8) >= 0x80) by (bit_vector);
    assert((0xF0 | ((v >> 18) & 0x7) as u8) >= 0x80) by (bit_vector);
    assert((0x80 | (v & 0x3F) as u8) >= 0x80) by (bit_vector);
    assert((0x80 | ((v >> 6) & 0x3F) as u8) >= 0x80) by (bit_vector);
    assert((0x80 | ((v >> 12) & 0x3F) as u8) >= 0x80) by (bit_vector);
}

/// The encoding of a text without a newline holds no newline byte.
pub proof fn lemma_encoding_without_newline(text: Seq<char>)
    requires
        !text.contains('\n'),
    ensures
        !encode_utf8(text).contains(NEWLINE),
    decreases text.len(),
{
    if text.len() > 0 {
        let head = vstd::utf8::encode_scalar(text[0] as u32);
        let rest = text.drop_first();
        assert(text.contains(text[0]));
        lemma_scalar_without_newline(text[0]);
        assert forall|c: char| rest.contains(c) implies text.contains(c) by {
            let i = choose|i: int| 0 <= i < rest.len() && rest[i] == c;
            assert(text[i + 1] == c);
        }
        lemma_encoding_without_newline(rest);
        let tail = encode_utf8(rest);
        assert forall|j: int| 0 <= j < (head + tail).len() implies (head + tail)[j]
            != NEWLINE by {
            if j >= head.len() {
                assert(tail.contains(tail[j - head.len()]));
            } else {
                assert(head.contains(head[j]));
            }
        }
    }
}

/// What was written as a line is read back as that line: a text without a
/// newline, framed and followed by anything, decodes to the same text, and
/// the bytes consumed are exactly its frame. This holds of the empty text
/// and of a text of any length.
pub proof fn law_line_round_trip(text: Seq<char>, rest: Seq<u8>)
    requires
        !text.contains('\n'),
    ensures
        decoded(framed(encode_utf8(text)) + rest) == (DecodedView::Line {
            text,
            consumed: encode_utf8(text).len() as int + 1,
        }),
{
    let payload = encode_utf8(text);
    let bytes = framed(payload) + rest;
    lemma_encoding_without_newline(text);
    assert forall|j: int| 0 <= j < payload.len() implies bytes[j] != NEWLINE by {
        assert(payload.contains(payload[j]));
    }
    lemma_line_end_is(bytes, payload.len() as int);
    assert(bytes.take(payload.len() as int) =~= payload);
    vstd::utf8::encode_utf8_valid_utf8(text);
    vstd::utf8::encode_utf8_decode_utf8(text);
}

/// `core::str::from_utf8`: reads bytes as text. It succeeds on well-formed
/// UTF-8 and on nothing else, and the text it gives has those bytes as its
/// encoding.
#[verifier::external_body]
fn text_of(bytes: &[u8]) -> (text: Option<&str>)
    ensures
        text is Some <==> valid_utf8(bytes@),
        text is Some ==> text->0.spec_bytes() == bytes@,
{
    match core::str::from_utf8(bytes) {
        Ok(text) => Some(text),
        Err(_) => None,
    }
}

/// Appends `msg` to `buf` as one line.
pub fn encode_line(msg: &str, buf: &mut Vec<u8>)
    ensures
        final(buf)@ == old(buf)@ + framed(encode_utf8(msg@)),
{
    buf.extend_from_slice(msg.as_bytes());
    buf.push(NEWLINE);
}

/// Looks for the first line at the front of `buf`.
pub fn decode_line(buf: &[u8]) -> (front: Decoded)
    ensures
        front@ == decoded(buf@),
{
    let mut at: usize = 0;
    while at < buf.len() && buf[at] != NEWLINE
        invariant
            at <= buf.len(),
            forall|j: int| 0 <= j < at ==> buf@[j] != NEWLINE,
        decreases buf.len() - at,
    {
        at += 1;
    }
    proof {
        lemma_line_end_is(buf@, at as int);
    }
    if at == buf.len() {
        return Decoded::Incomplete;
    }
    let payload = vstd::slice::slice_subrange(buf, 0, at);
    assert(payload@ == buf@.take(at as int));
    match text_of(payload) {
        Some(text) => {
            proof {
                vstd::utf8::encode_utf8_decode_utf8(text@);
            }
            Decoded::Line { text: text.to_owned(), consumed: at + 1 }
        },
        None => Decoded::Invalid { consumed: at + 1 },
    }
}

} // verus!
