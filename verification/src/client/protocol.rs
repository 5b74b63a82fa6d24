//! Framing for everything Mochi sends over a pipe.
//!
//! The wire format is newline delimited JSON:
//!
//! * one JSON value per message, serialised without embedded newlines,
//! * terminated by a single `\n` (never `\r\n`),
//! * UTF-8, no BOM, no length prefix.
//!
//! That makes the protocol trivial to speak from PowerShell or Python and easy
//! to eyeball in a log. Empty lines are skipped so a client may send `\n` as a
//! cheap keepalive.

use vstd::prelude::*;
use vstd::utf8::{
    decode_first_scalar, decode_utf8, decode_utf8_first_scalar, decode_utf8_split, encode_scalar,
    is_char_boundary, length_of_first_scalar, pop_first_scalar, take_first_scalar, valid_utf8,
    valid_utf8_concat,
};

use crate::client::pipe::FaultKind;
use crate::seqs::{first_idx, first_is, first_is_none, first_when_any, is_first};
use crate::text::{append, chars_of, owned, text_of};

verus! {

/// Largest line the readers accept, to keep a confused peer from eating all
/// available memory. 8 MiB is far more than any realistic state dump.
pub const MAX_MESSAGE_BYTES: usize = 8 * 1024 * 1024;

/// Why a line is not a message.
#[derive(Debug, Clone, PartialEq, Eq)]
pub enum FrameError {
    /// The line is longer than [`MAX_MESSAGE_BYTES`].
    TooLong,
    /// The stream ended before the line did.
    Truncated,
    /// The line is not UTF-8.
    NotText,
    /// The line is not the JSON that was expected, for this reason.
    Malformed(String),
}

impl FrameError {
    /// What the error says.
    pub open spec fn message(self) -> Seq<char> {
        match self {
            FrameError::TooLong => "message exceeds the maximum line length"@,
            FrameError::Truncated => "the stream ended in the middle of a message"@,
            FrameError::NotText => "message is not valid UTF-8"@,
            FrameError::Malformed(reason) => "malformed message: "@ + reason@,
        }
    }

    /// The kind of I/O error a broken line is: data that is not what it should be.
    #[must_use]
    pub fn kind(&self) -> (r: FaultKind)
        ensures
            r == FaultKind::InvalidData,
    {
        FaultKind::InvalidData
    }

    /// What the error says.
    #[must_use]
    pub fn to_string(&self) -> (r: String)
        ensures
            r@ == self.message(),
    {
        match self {
            FrameError::TooLong => owned("message exceeds the maximum line length"),
            FrameError::Truncated => owned("the stream ended in the middle of a message"),
            FrameError::NotText => owned("message is not valid UTF-8"),
            FrameError::Malformed(reason) => {
                let mut r = owned("malformed message: ");
                append(&mut r, reason.as_str());
                r
            },
        }
    }
}

/// `std::str::from_utf8` gives the text the bytes encode when they are valid
/// UTF-8, and an error when they are not.
#[verifier::external_body]
fn decode(bytes: &[u8]) -> (r: Option<String>)
    ensures
        match r {
            Some(text) => valid_utf8(bytes@) && text@ == decode_utf8(bytes@),
            None => !valid_utf8(bytes@),
        },
{
    match std::str::from_utf8(bytes) {
        Ok(text) => Some(text.to_owned()),
        Err(_) => None,
    }
}

/// A text without the characters `c` at its end.
pub open spec fn without_trailing(s: Seq<char>, c: char) -> Seq<char>
    decreases s.len(),
{
    if s.len() > 0 && s.last() == c {
        without_trailing(s.drop_last(), c)
    } else {
        s
    }
}

/// The text of a line: no line break at its end, and no carriage return in front
/// of it.
pub open spec fn line_text(s: Seq<char>) -> Seq<char> {
    without_trailing(without_trailing(s, '\n'), '\r')
}

/// What the bytes up to the next newline, or up to the limit, amount to.
#[derive(Debug, Clone, PartialEq, Eq)]
pub enum Frame {
    /// There are none: the stream is at its end.
    End,
    /// A line with nothing on it.
    Blank,
    /// A whole message.
    Message(String),
    /// Not a message.
    Broken(FrameError),
}

/// What a [`Frame`] holds.
#[verifier::ext_equal]
pub ghost enum FrameView {
    End,
    Blank,
    Message(Seq<char>),
    Broken(FrameError),
}

impl View for Frame {
    type V = FrameView;

    open spec fn view(&self) -> FrameView {
        match *self {
            Frame::End => FrameView::End,
            Frame::Blank => FrameView::Blank,
            Frame::Message(text) => FrameView::Message(text@),
            Frame::Broken(error) => FrameView::Broken(error),
        }
    }
}

/// What the bytes up to the next newline, or up to the limit, amount to.
pub open spec fn frame_of(chunk: Seq<u8>) -> FrameView {
    if chunk.len() == 0 {
        FrameView::End
    } else if chunk.last() != 10 {
        if chunk.len() >= MAX_MESSAGE_BYTES {
            FrameView::Broken(FrameError::TooLong)
        } else {
            FrameView::Broken(FrameError::Truncated)
        }
    } else if !valid_utf8(chunk) {
        FrameView::Broken(FrameError::NotText)
    } else if line_text(decode_utf8(chunk)).len() == 0 {
        FrameView::Blank
    } else {
        FrameView::Message(line_text(decode_utf8(chunk)))
    }
}

fn trim_line(text: &str) -> (r: String)
    ensures
        r@ == line_text(text@),
{
    let mut chars = chars_of(text);
    while chars.len() > 0 && chars[chars.len() - 1] == '\n'
        invariant
            without_trailing(chars@, '\n') == without_trailing(text@, '\n'),
        decreases chars@.len(),
    {
        let ghost before = chars@;
        chars.pop();
        assert(chars@ =~= before.drop_last());
    }
    let ghost line = chars@;
    assert(line == without_trailing(text@, '\n'));
    while chars.len() > 0 && chars[chars.len() - 1] == '\r'
        invariant
            without_trailing(chars@, '\r') == without_trailing(line, '\r'),
        decreases chars@.len(),
    {
        let ghost before = chars@;
        chars.pop();
        assert(chars@ =~= before.drop_last());
    }
    text_of(chars.as_slice())
}

/// What the bytes up to the next newline, or up to the limit, amount to.
///
/// No newline at the end means this is not a whole message, and there are exactly
/// two ways to get there. Over-long: the peer is still mid-line, and everything up
/// to the next newline is the rest of that one message. Or the stream ended
/// mid-line, and a truncated write is not a message either: a stop command with
/// its newline lost is not an instruction to stop.
#[must_use]
pub fn frame(chunk: &[u8]) -> (r: Frame)
    ensures
        r@ == frame_of(chunk@),
{
    if chunk.len() == 0 {
        return Frame::End;
    }
    if chunk[chunk.len() - 1] != 10 {
        return Frame::Broken(
            if chunk.len() >= MAX_MESSAGE_BYTES {
                FrameError::TooLong
            } else {
                FrameError::Truncated
            },
        );
    }
    match decode(chunk) {
        None => Frame::Broken(FrameError::NotText),
        Some(text) => {
            let line = trim_line(text.as_str());
            if line.as_str().is_empty() {
                Frame::Blank
            } else {
                Frame::Message(line)
            }
        },
    }
}

/// `true` for a newline.
pub open spec fn is_newline() -> spec_fn(u8) -> bool {
    |b: u8| b == 10
}

/// How many of these bytes belong to the line they begin with, its newline among
/// them.
pub open spec fn line_len(bytes: Seq<u8>) -> int {
    match first_idx(bytes, is_newline()) {
        Some(i) => i + 1,
        None => bytes.len() as int,
    }
}

/// How many of these bytes belong to the line they begin with, and whether the
/// newline that ends it is among them.
#[must_use]
pub fn to_newline(bytes: &[u8]) -> (r: (bool, usize))
    ensures
        r.1 == line_len(bytes@),
        r.0 == first_idx(bytes@, is_newline()) is Some,
        r.1 <= bytes@.len(),
{
    for i in 0..bytes.len()
        invariant
            forall|j: int| 0 <= j < i ==> #[trigger] bytes@[j] != 10,
    {
        if bytes[i] == 10 {
            proof {
                assert(is_first(bytes@, is_newline(), i as int));
                first_is(bytes@, is_newline(), i as int);
            }
            return (true, i + 1);
        }
    }
    proof {
        first_is_none(bytes@, is_newline());
    }
    (false, bytes.len())
}

/// Writes one serialised value as a message: a line of its own.
pub fn write_message(writer: &mut Vec<u8>, json: Vec<u8>)
    ensures
        final(writer)@ == old(writer)@ + json@.push(10),
{
    let mut line = json;
    line.push(10);
    writer.append(&mut line);
}

/// A stream of bytes that is already here.
pub struct ByteReader {
    bytes: Vec<u8>,
    at: usize,
}

impl View for ByteReader {
    type V = Seq<u8>;

    closed spec fn view(&self) -> Seq<u8> {
        self.bytes@.skip(self.at as int)
    }
}

/// The bytes a stream gives up to its next newline, or up to the limit.
pub open spec fn chunk_of(rest: Seq<u8>) -> Seq<u8> {
    let window = if rest.len() > MAX_MESSAGE_BYTES {
        rest.take(MAX_MESSAGE_BYTES as int)
    } else {
        rest
    };
    window.take(line_len(window))
}

/// What is left of a stream once the line it is in the middle of is thrown away.
pub open spec fn after_line(rest: Seq<u8>) -> Seq<u8> {
    rest.skip(line_len(rest))
}

/// What reading one line of a stream comes to, and what is left of the stream.
pub open spec fn next_line(rest: Seq<u8>) -> (Result<Option<Seq<char>>, FrameError>, Seq<u8>)
    decreases rest.len(),
{
    let chunk = chunk_of(rest);
    let left = rest.skip(chunk.len() as int);
    match frame_of(chunk) {
        FrameView::End => (Ok(None), rest),
        FrameView::Blank => {
            proof {
                a_chunk_is_a_prefix(rest);
            }
            next_line(left)
        },
        FrameView::Message(text) => (Ok(Some(text)), left),
        FrameView::Broken(FrameError::TooLong) => (Err(FrameError::TooLong), after_line(left)),
        FrameView::Broken(error) => (Err(error), left),
    }
}

/// The bytes a stream gives up to its next newline are the bytes it begins with,
/// at least one of them unless the stream is at its end. The only newline among
/// them is the last one.
pub proof fn a_chunk_is_a_prefix(rest: Seq<u8>)
    ensures
        chunk_of(rest).len() <= rest.len(),
        chunk_of(rest).len() <= MAX_MESSAGE_BYTES,
        chunk_of(rest) == rest.take(chunk_of(rest).len() as int),
        rest.len() > 0 ==> chunk_of(rest).len() > 0,
        forall|i: int| 0 <= i < chunk_of(rest).len() - 1 ==> #[trigger] chunk_of(rest)[i] != 10,
        chunk_of(rest).len() > 0 && chunk_of(rest).last() != 10 ==> chunk_of(rest).len()
            == MAX_MESSAGE_BYTES || chunk_of(rest) == rest,
{
    let window = if rest.len() > MAX_MESSAGE_BYTES {
        rest.take(MAX_MESSAGE_BYTES as int)
    } else {
        rest
    };
    first_when_any(window, is_newline());
    let n = line_len(window);
    assert(0 <= n <= window.len());
    assert(window.take(n) =~= rest.take(n));
    if first_idx(window, is_newline()) is Some {
        let i = first_idx(window, is_newline())->0;
        assert forall|j: int| 0 <= j < n - 1 implies #[trigger] window.take(n)[j] != 10 by {
            assert(!is_newline()(window[j]));
        }
    } else {
        assert forall|j: int| 0 <= j < window.len() implies #[trigger] window[j] != 10 by {
            if window[j] == 10 {
                assert(is_newline()(window[j]));
            }
        }
        assert(window.take(n) =~= window);
    }
}

impl ByteReader {
    #[verifier::type_invariant]
    spec fn inv(self) -> bool {
        self.at <= self.bytes@.len()
    }

    /// A stream of these bytes.
    #[must_use]
    pub fn new(bytes: Vec<u8>) -> (r: Self)
        ensures
            r@ == bytes@,
    {
        let r = ByteReader { bytes, at: 0 };
        assert(r@ =~= bytes@);
        r
    }

    /// Takes the bytes up to the next newline, or up to the limit.
    fn take_chunk(&mut self) -> (r: Vec<u8>)
        ensures
            r@ == chunk_of(old(self)@),
            final(self)@ == old(self)@.skip(r@.len() as int),
            r@.len() <= old(self)@.len(),
    {
        proof {
            use_type_invariant(&*self);
            a_chunk_is_a_prefix(self@);
        }
        let ghost rest = self@;
        let left = self.bytes.len() - self.at;
        let limit: usize = if left > MAX_MESSAGE_BYTES {
            MAX_MESSAGE_BYTES
        } else {
            left
        };
        let window = vstd::slice::slice_subrange(self.bytes.as_slice(), self.at, self.at + limit);
        assert(window@ =~= rest.take(limit as int));
        assert(rest.take(rest.len() as int) =~= rest);
        let (_, len) = to_newline(window);
        let mut chunk: Vec<u8> = Vec::new();
        for i in 0..len
            invariant
                len <= window@.len(),
                chunk@ == window@.take(i as int),
        {
            chunk.push(window[i]);
            assert(chunk@ =~= window@.take(i + 1));
        }
        let at = self.at + len;
        let ghost before = self.bytes@;
        self.at = at;
        assert(self@ =~= rest.skip(len as int));
        chunk
    }

    /// Throws away bytes up to and including the next newline. The end of the
    /// stream ends that too.
    fn discard_to_newline(&mut self)
        ensures
            final(self)@ == after_line(old(self)@),
    {
        proof {
            use_type_invariant(&*self);
        }
        let ghost rest = self@;
        let left = vstd::slice::slice_subrange(self.bytes.as_slice(), self.at, self.bytes.len());
        assert(left@ =~= rest);
        let (_, len) = to_newline(left);
        let at = self.at + len;
        self.at = at;
        assert(self@ =~= rest.skip(len as int));
    }
}

/// Reads one non-empty line, without the `\n` at its end and any stray `\r`.
///
/// Returns `Ok(None)` at end of stream. Blank lines are skipped.
///
/// # Errors
///
/// Returns [`FrameError`] for a line that is not a message. The rest of an
/// over-long line is thrown away with it rather than left in the stream,
/// because starting the next read where the limit happened to fall would frame
/// the tail as a message of its own.
pub fn read_line(reader: &mut ByteReader) -> (r: Result<Option<String>, FrameError>)
    ensures
        match (r, next_line(old(reader)@).0) {
            (Ok(Some(line)), Ok(Some(text))) => line@ == text,
            (Ok(None), Ok(None)) => true,
            (Err(error), Err(expected)) => error == expected,
            _ => false,
        },
        final(reader)@ == next_line(old(reader)@).1,
{
    let ghost start = reader@;
    loop
        invariant
            start == old(reader)@,
            next_line(reader@) == next_line(start),
        decreases reader@.len(),
    {
        let ghost rest = reader@;
        proof {
            a_chunk_is_a_prefix(rest);
        }
        let chunk = reader.take_chunk();
        match frame(chunk.as_slice()) {
            Frame::End => {
                assert(rest.skip(0) =~= rest);
                return Ok(None);
            },
            Frame::Blank => {},
            Frame::Message(text) => {
                return Ok(Some(text));
            },
            Frame::Broken(error) => {
                if matches!(error, FrameError::TooLong) {
                    reader.discard_to_newline();
                }
                return Err(error);
            },
        }
    }
}

// -- laws ------------------------------------------------------------------

proof fn lemma_trailing_unchanged(s: Seq<char>, c: char)
    requires
        s.len() > 0 ==> s.last() != c,
    ensures
        without_trailing(s, c) == s,
{
}

proof fn lemma_a_line_decodes(json: Seq<u8>)
    requires
        valid_utf8(json),
    ensures
        valid_utf8(json.push(10)),
        decode_utf8(json.push(10)) == decode_utf8(json).push('\n'),
{
    let line = json.push(10);
    let newline = seq![10u8];
    assert(line =~= json + newline);
    assert(valid_utf8(newline)) by {
        reveal_with_fuel(valid_utf8, 2);
        assert(pop_first_scalar(newline) =~= Seq::<u8>::empty());
    }
    valid_utf8_concat(json, newline);
    assert(is_char_boundary(line, json.len() as int)) by {
        vstd::utf8::is_char_boundary_iff_not_is_continuation_byte(line, json.len() as int);
    }
    decode_utf8_split(line, json.len() as int);
    assert(line.subrange(0, json.len() as int) =~= json);
    assert(line.subrange(json.len() as int, line.len() as int) =~= newline);
    assert(decode_utf8(newline) =~= seq!['\n']) by {
        reveal_with_fuel(decode_utf8, 2);
        assert(10u8 & 0x7f == 10) by (bit_vector);
        assert(pop_first_scalar(newline) =~= Seq::<u8>::empty());
    }
    assert(decode_utf8(line) =~= decode_utf8(json).push('\n'));
}

proof fn lemma_no_newline_decodes_to_none(bytes: Seq<u8>)
    requires
        valid_utf8(bytes),
        forall|i: int| 0 <= i < bytes.len() ==> #[trigger] bytes[i] != 10,
    ensures
        forall|i: int| 0 <= i < decode_utf8(bytes).len() ==> #[trigger] decode_utf8(bytes)[i] != '\n',
        bytes.len() > 0 ==> decode_utf8(bytes).len() > 0,
    decreases bytes.len(),
{
    if bytes.len() > 0 {
        let rest = pop_first_scalar(bytes);
        assert forall|i: int| 0 <= i < rest.len() implies #[trigger] rest[i] != 10 by {
            assert(rest[i] == bytes[i + length_of_first_scalar(bytes)]);
        }
        lemma_no_newline_decodes_to_none(rest);
        let first = decode_first_scalar(bytes) as char;
        decode_utf8_first_scalar(bytes);
        if first == '\n' {
            assert((10u32 & 0x7f) as u8 == 10u8) by (bit_vector);
            assert(encode_scalar(10)[0] == 10);
            assert(take_first_scalar(bytes)[0] == bytes[0]);
        }
        let text = decode_utf8(bytes);
        assert(text == seq![decode_first_scalar(bytes) as char] + decode_utf8(rest));
        assert forall|i: int| 0 <= i < text.len() implies #[trigger] text[i] != '\n' by {
            if i > 0 {
                assert(text[i] == decode_utf8(rest)[i - 1]);
            }
        }
    }
}

proof fn lemma_chunk_is_the_line(line: Seq<u8>, rest: Seq<u8>)
    requires
        forall|i: int| 0 <= i < line.len() ==> #[trigger] line[i] != 10,
        line.len() < MAX_MESSAGE_BYTES,
    ensures
        chunk_of(line.push(10) + rest) == line.push(10),
        (line.push(10) + rest).skip(line.push(10).len() as int) == rest,
{
    let stream = line.push(10) + rest;
    let window = if stream.len() > MAX_MESSAGE_BYTES {
        stream.take(MAX_MESSAGE_BYTES as int)
    } else {
        stream
    };
    let n = line.len() as int;
    assert(window[n] == 10);
    assert forall|j: int| 0 <= j < n implies !is_newline()(#[trigger] window[j]) by {
        assert(window[j] == line[j]);
    }
    assert(is_first(window, is_newline(), n));
    first_is(window, is_newline(), n);
    assert(window.take(n + 1) =~= line.push(10));
    assert(stream.skip(n + 1) =~= rest);
}

/// What was written as a message is read back as it was, and nothing else of the
/// stream is taken: a value serialised without a newline, shorter than the limit
/// and not ending in a carriage return.
pub proof fn a_message_is_read_back(json: Seq<u8>, rest: Seq<u8>)
    requires
        valid_utf8(json),
        json.len() > 0,
        json.len() < MAX_MESSAGE_BYTES,
        forall|i: int| 0 <= i < json.len() ==> #[trigger] json[i] != 10,
        decode_utf8(json).last() != '\r',
    ensures
        next_line(json.push(10) + rest) == (
            Ok::<Option<Seq<char>>, FrameError>(Some(decode_utf8(json))),
            rest,
        ),
{
    lemma_chunk_is_the_line(json, rest);
    lemma_a_line_decodes(json);
    lemma_no_newline_decodes_to_none(json);
    let text = decode_utf8(json);
    assert(text.push('\n').drop_last() =~= text);
    assert(without_trailing(text.push('\n'), '\n') == without_trailing(text, '\n'));
    lemma_trailing_unchanged(text, '\n');
    lemma_trailing_unchanged(text, '\r');
}

/// An over-long line is refused as a whole: the stream goes on behind it, and its
/// tail never becomes a message.
pub proof fn an_oversized_line_is_refused_whole(line: Seq<u8>, rest: Seq<u8>)
    requires
        forall|i: int| 0 <= i < line.len() ==> #[trigger] line[i] != 10,
        line.len() >= MAX_MESSAGE_BYTES,
    ensures
        next_line(line.push(10) + rest) == (
            Err::<Option<Seq<char>>, FrameError>(FrameError::TooLong),
            rest,
        ),
{
    let stream = line.push(10) + rest;
    let max = MAX_MESSAGE_BYTES as int;
    let window = stream.take(max);
    assert forall|j: int| 0 <= j < window.len() implies !is_newline()(#[trigger] window[j]) by {
        assert(window[j] == line[j]);
    }
    first_is_none(window, is_newline());
    assert(window.take(max) =~= window);
    assert(chunk_of(stream) == window);
    assert(window.last() == line[max - 1]);
    let left = stream.skip(max);
    let n = line.len() - max;
    assert(left[n] == 10);
    assert forall|j: int| 0 <= j < n implies !is_newline()(#[trigger] left[j]) by {
        assert(left[j] == line[j + max]);
    }
    assert(is_first(left, is_newline(), n));
    first_is(left, is_newline(), n);
    assert(left.skip(n + 1) =~= rest);
}

/// A line that is not UTF-8 is refused, and does not swallow the one after it.
pub proof fn a_bad_line_does_not_swallow_the_next(line: Seq<u8>, rest: Seq<u8>)
    requires
        forall|i: int| 0 <= i < line.len() ==> #[trigger] line[i] != 10,
        line.len() < MAX_MESSAGE_BYTES,
        !valid_utf8(line.push(10)),
    ensures
        next_line(line.push(10) + rest) == (
            Err::<Option<Seq<char>>, FrameError>(FrameError::NotText),
            rest,
        ),
{
    lemma_chunk_is_the_line(line, rest);
}

/// A message without its newline is not a message, and reading on finds the end of
/// the stream.
pub proof fn a_truncated_line_is_refused(line: Seq<u8>)
    requires
        forall|i: int| 0 <= i < line.len() ==> #[trigger] line[i] != 10,
        0 < line.len() < MAX_MESSAGE_BYTES,
    ensures
        next_line(line) == (
            Err::<Option<Seq<char>>, FrameError>(FrameError::Truncated),
            Seq::<u8>::empty(),
        ),
        next_line(Seq::<u8>::empty()) == (
            Ok::<Option<Seq<char>>, FrameError>(None),
            Seq::<u8>::empty(),
        ),
{
    first_is_none(line, is_newline());
    assert(line.take(line.len() as int) =~= line);
    assert(line.skip(line.len() as int) =~= Seq::<u8>::empty());
    let nothing = Seq::<u8>::empty();
    first_is_none(nothing, is_newline());
    assert(nothing.take(0) =~= nothing);
}

/// A blank line is skipped, with a carriage return in front of its newline or
/// without.
pub proof fn a_blank_line_is_skipped(rest: Seq<u8>)
    ensures
        next_line(seq![10u8] + rest) == next_line(rest),
        next_line(seq![13u8, 10u8] + rest) == next_line(rest),
{
    let nothing = Seq::<u8>::empty();
    assert(nothing.push(10) =~= seq![10u8]);
    lemma_chunk_is_the_line(nothing, rest);
    lemma_a_line_decodes(nothing);
    assert(decode_utf8(nothing) =~= Seq::<char>::empty());
    let newline = decode_utf8(nothing).push('\n');
    assert(newline.drop_last() =~= Seq::<char>::empty());
    lemma_trailing_unchanged(Seq::<char>::empty(), '\n');
    lemma_trailing_unchanged(Seq::<char>::empty(), '\r');
    assert(line_text(newline).len() == 0);

    let returned = seq![13u8];
    assert(valid_utf8(returned)) by {
        reveal_with_fuel(valid_utf8, 2);
        assert(pop_first_scalar(returned) =~= nothing);
    }
    assert(decode_utf8(returned) =~= seq!['\r']) by {
        reveal_with_fuel(decode_utf8, 2);
        assert(13u8 & 0x7f == 13) by (bit_vector);
        assert(pop_first_scalar(returned) =~= nothing);
    }
    assert(returned.push(10) =~= seq![13u8, 10u8]);
    lemma_chunk_is_the_line(returned, rest);
    lemma_a_line_decodes(returned);
    let both = decode_utf8(returned).push('\n');
    assert(both.drop_last() =~= seq!['\r']);
    lemma_trailing_unchanged(seq!['\r'], '\n');
    assert(seq!['\r'].drop_last() =~= Seq::<char>::empty());
    assert(line_text(both).len() == 0);
}

} // verus!
