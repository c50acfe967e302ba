//! Framing: a header block that gives a byte count, a blank line, and that many bytes of body.

use vstd::prelude::*;

use crate::bytes;
use crate::error::{WireError, WireErrorView};
use crate::text;

verus! {

/// The longest body that is read.
pub const MAX_CONTENT_LENGTH: usize = 67_108_864;

/// Whether `c` is a decimal digit.
pub open spec fn is_digit(c: char) -> bool {
    '0' <= c <= '9'
}

/// The number that a row of decimal digits writes.
pub open spec fn digits_value(digits: Seq<char>) -> nat
    decreases digits.len(),
{
    if digits.len() == 0 {
        0
    } else {
        digits_value(digits.drop_last()) * 10 + (digits.last() as int - '0' as int) as nat
    }
}

/// Whether `s` is a number: one digit or more, and nothing else.
pub open spec fn all_digits(s: Seq<char>) -> bool {
    s.len() > 0 && forall|i: int| 0 <= i < s.len() ==> is_digit(#[trigger] s[i])
}

/// The digits of a number that may be written with a plus sign.
pub open spec fn unsigned_digits(s: Seq<char>) -> Seq<char> {
    if s.len() > 0 && s[0] == '+' {
        s.drop_first()
    } else {
        s
    }
}

/// The byte count that `s` writes, unless `s` is no number or the count is too large to read.
pub open spec fn byte_count(s: Seq<char>) -> Option<nat> {
    let digits = unsigned_digits(s);
    if all_digits(digits) && digits_value(digits) <= MAX_CONTENT_LENGTH {
        Some(digits_value(digits))
    } else {
        None
    }
}

/// The index of the first line feed at or behind `at`, or the length when there is none.
pub open spec fn newline_from(buf: Seq<u8>, at: int) -> int {
    at + crate::model::first_index(buf.skip(at), |b: u8| b == 10)
}

/// What a header block comes to.
pub enum HeaderView {
    /// More bytes are needed to tell.
    More,
    /// The block ends before index `body`, and `length` bytes of body follow.
    Done { length: nat, body: int },
    Fail(WireErrorView),
}

/// The text of a line without the carriage returns and line feeds at its end.
pub open spec fn line_text(line: Seq<u8>) -> Seq<char> {
    text::trim_end_by(vstd::utf8::decode_utf8(line), |c: char| c == '\r' || c == '\n')
}

/// The header block whose lines from index `at` on are still to be read, `length` being the count
/// that the lines before gave. With `eof`, no byte follows `buf`.
///
/// A line without text ends the block; of the others only those that start with `Content-Length:`
/// matter, and the last of these counts.
pub open spec fn header(buf: Seq<u8>, at: int, eof: bool, length: Option<nat>) -> HeaderView
    decreases buf.len() - at,
    when 0 <= at <= buf.len()
{
    let stop = newline_from(buf, at);
    if stop >= buf.len() && !eof {
        HeaderView::More
    } else if at == buf.len() {
        if at == 0 {
            HeaderView::Fail(WireErrorView::Eof)
        } else {
            HeaderView::Fail(WireErrorView::Io("EOF in the middle of a DAP header"@))
        }
    } else {
        proof {
            crate::model::lemma_first_index_bounds(buf.skip(at), |b: u8| b == 10);
        }
        let next = if stop < buf.len() {
            stop + 1
        } else {
            buf.len() as int
        };
        let line = buf.subrange(at, next);
        if !vstd::utf8::valid_utf8(line) {
            HeaderView::Fail(WireErrorView::Io(bytes::utf8_fault(line)))
        } else {
            let shown = line_text(line);
            if shown.len() == 0 {
                match length {
                    Some(n) => HeaderView::Done { length: n, body: next },
                    None => HeaderView::Fail(WireErrorView::MissingContentLength),
                }
            } else if "Content-Length:"@.is_prefix_of(shown) {
                let value = text::trimmed(shown.skip("Content-Length:"@.len() as int));
                match byte_count(value) {
                    Some(n) => header(buf, next, eof, Some(n)),
                    None => HeaderView::Fail(WireErrorView::InvalidContentLength(value)),
                }
            } else {
                header(buf, next, eof, length)
            }
        }
    }
}

/// What the front of a stream comes to.
pub enum FrameView {
    /// More bytes are needed to tell.
    More,
    /// The body stands between the two indices, and the frame ends with it.
    Body { start: int, end: int },
    Fail(WireErrorView),
}

/// The frame at the front of `buf`. With `eof`, no byte follows `buf`.
pub open spec fn frame(buf: Seq<u8>, eof: bool) -> FrameView {
    match header(buf, 0, eof, None) {
        HeaderView::More => FrameView::More,
        HeaderView::Fail(err) => FrameView::Fail(err),
        HeaderView::Done { length, body } => if body + length <= buf.len() {
            FrameView::Body { start: body, end: body + length }
        } else if eof {
            FrameView::Fail(WireErrorView::Io("early eof"@))
        } else {
            FrameView::More
        },
    }
}

/// The header block that announces `length` bytes.
pub open spec fn header_text(length: nat) -> Seq<char> {
    "Content-Length: "@ + text::decimal(length) + "\r\n\r\n"@
}

/// The bytes of the frame around `body`.
pub open spec fn framed(body: Seq<u8>) -> Seq<u8> {
    vstd::utf8::encode_utf8(header_text(body.len())) + body
}

fn find_newline(buf: &[u8], at: usize) -> (stop: usize)
    requires
        at <= buf@.len(),
    ensures
        stop == newline_from(buf@, at as int),
        at <= stop <= buf@.len(),
{
    let ghost is_newline = |b: u8| b == 10;
    let mut i: usize = at;
    while i < buf.len() && buf[i] != 10
        invariant
            at <= i <= buf@.len(),
            forall|j: int| at <= j < i ==> #[trigger] buf@[j] != 10,
        decreases buf@.len() - i,
    {
        i += 1;
    }
    proof {
        let s = buf@.skip(at as int);
        assert forall|j: int| 0 <= j < i - at implies !is_newline(#[trigger] s[j]) by {
            assert(s[j] == buf@[j + at]);
        }
        crate::model::lemma_first_index(s, is_newline, i - at);
    }
    i
}

fn digit_value(c: char) -> (value: Option<usize>)
    ensures
        match value {
            Some(n) => is_digit(c) && n == c as int - '0' as int,
            None => !is_digit(c),
        },
{
    let v: u32 = c as u32;
    if 48 <= v && v <= 57 {
        Some((v - 48) as usize)
    } else {
        None
    }
}

fn parse_byte_count(chars: &Vec<char>, from: usize, to: usize) -> (count: Option<usize>)
    requires
        from <= to <= chars@.len(),
    ensures
        match count {
            Some(n) => byte_count(chars@.subrange(from as int, to as int)) == Some(n as nat),
            None => byte_count(chars@.subrange(from as int, to as int)) is None,
        },
{
    let ghost s = chars@.subrange(from as int, to as int);
    let start: usize = if from < to && chars[from] == '+' {
        from + 1
    } else {
        from
    };
    let ghost digits = chars@.subrange(start as int, to as int);
    assert(digits =~= unsigned_digits(s));
    if start == to {
        return None;
    }
    let mut value: usize = 0;
    let mut over: bool = false;
    let mut i: usize = start;
    while i < to
        invariant
            from <= start <= i <= to <= chars@.len(),
            digits == chars@.subrange(start as int, to as int),
            digits == unsigned_digits(s),
            s == chars@.subrange(from as int, to as int),
            forall|j: int| 0 <= j < i - start ==> is_digit(#[trigger] digits[j]),
            over ==> digits_value(digits.take(i - start)) > MAX_CONTENT_LENGTH,
            !over ==> value == digits_value(digits.take(i - start)) && value
                <= MAX_CONTENT_LENGTH,
        decreases to - i,
    {
        assert(digits[i - start] == chars@[i as int]);
        let digit: usize = match digit_value(chars[i]) {
            Some(digit) => digit,
            None => return None,
        };
        assert(digits.take(i - start + 1).drop_last() =~= digits.take(i - start));
        if !over {
            value = value * 10 + digit;
            if value > MAX_CONTENT_LENGTH {
                over = true;
            }
        }
        i += 1;
    }
    assert(digits.take(to - start) =~= digits);
    if over {
        None
    } else {
        Some(value)
    }
}

/// What a header block comes to.
#[derive(Debug, Clone, PartialEq, Eq)]
pub enum HeaderStep {
    /// More bytes are needed to tell.
    More,
    /// The block ends before index `body`, and `length` bytes of body follow.
    Done { length: usize, body: usize },
    Fail(WireError),
}

impl View for HeaderStep {
    type V = HeaderView;

    open spec fn view(&self) -> HeaderView {
        match *self {
            HeaderStep::More => HeaderView::More,
            HeaderStep::Done { length, body } => HeaderView::Done {
                length: length as nat,
                body: body as int,
            },
            HeaderStep::Fail(err) => HeaderView::Fail(err@),
        }
    }
}

/// What one line of a header block says.
enum Line {
    Blank,
    Length(usize),
    BadLength(String),
    Ignored,
    NotText(String),
}

fn read_line(line: &[u8]) -> (said: Line)
    ensures
        match said {
            Line::NotText(fault) => !vstd::utf8::valid_utf8(line@) && fault@ == bytes::utf8_fault(
                line@,
            ),
            Line::Blank => vstd::utf8::valid_utf8(line@) && line_text(line@).len() == 0,
            Line::Ignored => vstd::utf8::valid_utf8(line@) && line_text(line@).len() > 0
                && !"Content-Length:"@.is_prefix_of(line_text(line@)),
            Line::Length(n) => vstd::utf8::valid_utf8(line@) && line_text(line@).len() > 0
                && "Content-Length:"@.is_prefix_of(line_text(line@)) && byte_count(
                text::trimmed(line_text(line@).skip("Content-Length:"@.len() as int)),
            ) == Some(n as nat),
            Line::BadLength(value) => vstd::utf8::valid_utf8(line@) && line_text(line@).len() > 0
                && "Content-Length:"@.is_prefix_of(line_text(line@)) && value@ == text::trimmed(
                line_text(line@).skip("Content-Length:"@.len() as int),
            ) && byte_count(value@) is None,
        },
{
    let full = match bytes::utf8_text(line) {
        Ok(full) => full,
        Err(fault) => return Line::NotText(fault),
    };
    let ghost is_end = |c: char| c == '\r' || c == '\n';
    let mut chars = text::chars_of(full.as_str());
    let mut end: usize = chars.len();
    while end > 0 && (chars[end - 1] == '\r' || chars[end - 1] == '\n')
        invariant
            end <= chars@.len(),
            forall|j: int| end <= j < chars@.len() ==> is_end(#[trigger] chars@[j]),
            is_end == (|c: char| c == '\r' || c == '\n'),
        decreases end,
    {
        end -= 1;
    }
    proof {
        text::lemma_trim_end(full@, is_end, end as int);
    }
    chars.truncate(end);
    assert(chars@ =~= line_text(line@));
    if end == 0 {
        return Line::Blank;
    }
    let name = text::chars_of("Content-Length:");
    proof {
        reveal_strlit("Content-Length:");
    }
    if end < name.len() {
        return Line::Ignored;
    }
    let mut i: usize = 0;
    while i < name.len()
        invariant
            i <= name@.len() <= chars@.len(),
            name@ == "Content-Length:"@,
            chars@ == line_text(line@),
            vstd::utf8::valid_utf8(line@),
            chars@.len() > 0,
            forall|j: int| 0 <= j < i ==> chars@[j] == #[trigger] name@[j],
        decreases name@.len() - i,
    {
        if chars[i] != name[i] {
            return Line::Ignored;
        }
        i += 1;
    }
    assert(name@ =~= chars@.subrange(0, name@.len() as int));
    let (from, to) = text::trim_bounds(&chars, name.len());
    match parse_byte_count(&chars, from, to) {
        Some(n) => Line::Length(n),
        None => {
            let value = full.as_str().substring_char(from, to).to_owned();
            assert(value@ =~= chars@.subrange(from as int, to as int));
            Line::BadLength(value)
        },
    }
}

/// Reads the header block at the front of `buf`. With `eof`, no byte follows `buf`.
pub fn read_header(buf: &[u8], eof: bool) -> (step: HeaderStep)
    ensures
        step@ == header(buf@, 0, eof, None),
        match step {
            HeaderStep::Done { length, body } => body <= buf@.len() && length
                <= MAX_CONTENT_LENGTH,
            _ => true,
        },
{
    let mut at: usize = 0;
    let mut length: Option<usize> = None;
    let ghost goal = header(buf@, 0, eof, None);
    loop
        invariant
            at <= buf@.len(),
            goal == header(buf@, 0, eof, None),
            goal == header(
                buf@,
                at as int,
                eof,
                match length {
                    Some(n) => Some(n as nat),
                    None => None::<nat>,
                },
            ),
            match length {
                Some(n) => n <= MAX_CONTENT_LENGTH,
                None => true,
            },
        decreases buf@.len() - at,
    {
        let stop = find_newline(buf, at);
        if stop == buf.len() && !eof {
            return HeaderStep::More;
        }
        if at == buf.len() {
            if at == 0 {
                return HeaderStep::Fail(WireError::Eof);
            }
            return HeaderStep::Fail(WireError::Io("EOF in the middle of a DAP header".to_owned()));
        }
        let next: usize = if stop < buf.len() {
            stop + 1
        } else {
            stop
        };
        match read_line(vstd::slice::slice_subrange(buf, at, next)) {
            Line::NotText(fault) => {
                return HeaderStep::Fail(WireError::Io(fault));
            },
            Line::Blank => {
                return match length {
                    Some(n) => HeaderStep::Done { length: n, body: next },
                    None => HeaderStep::Fail(WireError::MissingContentLength),
                };
            },
            Line::BadLength(value) => {
                return HeaderStep::Fail(WireError::InvalidContentLength(value));
            },
            Line::Length(n) => {
                length = Some(n);
            },
            Line::Ignored => {},
        }
        at = next;
    }
}

/// What the front of a stream comes to.
#[derive(Debug, Clone, PartialEq, Eq)]
pub enum FrameStep {
    /// More bytes are needed to tell.
    More,
    /// The body stands between the two indices, and the frame ends with it.
    Body { start: usize, end: usize },
    Fail(WireError),
}

impl View for FrameStep {
    type V = FrameView;

    open spec fn view(&self) -> FrameView {
        match *self {
            FrameStep::More => FrameView::More,
            FrameStep::Body { start, end } => FrameView::Body {
                start: start as int,
                end: end as int,
            },
            FrameStep::Fail(err) => FrameView::Fail(err@),
        }
    }
}

/// Reads the frame at the front of `buf`. With `eof`, no byte follows `buf`.
pub fn read_message(buf: &[u8], eof: bool) -> (step: FrameStep)
    ensures
        step@ == frame(buf@, eof),
        match step {
            FrameStep::Body { start, end } => start <= end <= buf@.len() && end - start
                <= MAX_CONTENT_LENGTH,
            _ => true,
        },
{
    match read_header(buf, eof) {
        HeaderStep::More => FrameStep::More,
        HeaderStep::Fail(err) => FrameStep::Fail(err),
        HeaderStep::Done { length, body } => {
            if length <= buf.len() - body {
                FrameStep::Body { start: body, end: body + length }
            } else if eof {
                FrameStep::Fail(WireError::Io("early eof".to_owned()))
            } else {
                FrameStep::More
            }
        },
    }
}

/// What a stream of bytes holds next.
#[derive(Debug, PartialEq, Eq)]
pub enum NextFrame {
    /// More bytes are needed to tell.
    More,
    /// The body of the next frame.
    Body(Vec<u8>),
    Fail(WireError),
}

/// The bytes of a stream that have arrived and are not read yet.
#[derive(Debug)]
pub struct FrameReader {
    pub buffer: Vec<u8>,
}

impl FrameReader {
    /// Nothing has arrived.
    pub fn new() -> (reader: Self)
        ensures
            reader.buffer@ == Seq::<u8>::empty(),
    {
        FrameReader { buffer: Vec::new() }
    }

    /// More bytes arrived.
    pub fn feed(&mut self, data: &[u8])
        ensures
            final(self).buffer@ == old(self).buffer@ + data@,
    {
        let ghost before = self.buffer@;
        self.buffer.extend_from_slice(data);
        assert(self.buffer@ =~= before + data@);
    }

    /// Reads the next frame. With `eof`, no more bytes will arrive. A frame that was read is gone
    /// from the bytes; else they stay as they are.
    pub fn next_frame(&mut self, eof: bool) -> (next: NextFrame)
        ensures
            match frame(old(self).buffer@, eof) {
                FrameView::More => next is More && *final(self) == *old(self),
                FrameView::Fail(err) => (next matches NextFrame::Fail(e) && e@ == err)
                    && *final(self) == *old(self),
                FrameView::Body { start, end } => (next matches NextFrame::Body(body) && body@
                    == old(self).buffer@.subrange(start, end)) && 0 <= start <= end
                    <= old(self).buffer@.len() && final(self).buffer@ == old(self).buffer@.skip(
                    end,
                ),
            },
    {
        match read_message(self.buffer.as_slice(), eof) {
            FrameStep::More => NextFrame::More,
            FrameStep::Fail(err) => NextFrame::Fail(err),
            FrameStep::Body { start, end } => {
                let ghost before = self.buffer@;
                let rest = self.buffer.split_off(end);
                let body = self.buffer.split_off(start);
                assert(body@ =~= before.subrange(start as int, end as int));
                assert(rest@ =~= before.skip(end as int));
                self.buffer = rest;
                NextFrame::Body(body)
            },
        }
    }
}

/// The frame around a body, or the reason why there is no body.
pub fn write_message(body: Result<Vec<u8>, String>) -> (message: Result<Vec<u8>, WireError>)
    ensures
        match body {
            Ok(b) => message matches Ok(m) && m@ == framed(b@),
            Err(e) => message == Err::<Vec<u8>, WireError>(WireError::Json(e)),
        },
{
    match body {
        Err(e) => Err(WireError::Json(e)),
        Ok(b) => {
            let count = text::decimal_text(b.len() as u64);
            let head = text::concat3("Content-Length: ", count.as_str(), "\r\n\r\n");
            let mut message: Vec<u8> = Vec::new();
            message.extend_from_slice(head.as_str().as_bytes());
            message.extend_from_slice(b.as_slice());
            assert(message@ =~= framed(b@));
            Ok(message)
        },
    }
}

} // verus!
