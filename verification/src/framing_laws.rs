//! What holds of framing as a whole.

use vstd::prelude::*;

use crate::bytes;
use crate::error::WireErrorView;
use crate::framing;
use crate::model;
use crate::text;

verus! {

/// The decimal notation of a number is digits only, and they write that number.
pub proof fn lemma_decimal_digits(n: nat)
    ensures
        framing::all_digits(text::decimal(n)),
        framing::digits_value(text::decimal(n)) == n,
    decreases n,
{
    let s = text::decimal(n);
    if n < 10 {
        assert(s.drop_last() =~= Seq::<char>::empty());
        assert(framing::digits_value(s.drop_last()) == 0);
        assert(s.last() as int == 48 + n);
    } else {
        lemma_decimal_digits(n / 10);
        let head = text::decimal(n / 10);
        assert(s.drop_last() =~= head);
        assert(s.last() as int == 48 + n % 10);
        assert forall|i: int| 0 <= i < s.len() implies framing::is_digit(#[trigger] s[i]) by {
            if i < head.len() {
                assert(s[i] == head[i]);
            }
        }
    }
}

proof fn lemma_header_chars(n: nat)
    ensures
        ({
            let h = framing::header_text(n);
            let d = text::decimal(n);
            &&& d.len() > 0
            &&& h.len() == 20 + d.len()
            &&& vstd::utf8::is_ascii_chars(h)
            &&& forall|i: int| 0 <= i < 15 ==> #[trigger] h[i] == "Content-Length:"@[i]
            &&& "Content-Length:"@.len() == 15
            &&& h[15] == ' '
            &&& forall|i: int|
                16 <= i < 16 + d.len() ==> (#[trigger] h[i]) == d[i - 16] && framing::is_digit(h[i])
            &&& h[16int + d.len()] == '\r'
            &&& h[17int + d.len()] == '\n'
            &&& h[18int + d.len()] == '\r'
            &&& h[19int + d.len()] == '\n'
            &&& forall|i: int| 0 <= i < 17 + d.len() ==> #[trigger] h[i] != '\n'
        }),
{
    reveal_strlit("Content-Length: ");
    reveal_strlit("Content-Length:");
    reveal_strlit("\r\n\r\n");
    lemma_decimal_digits(n);
    let h = framing::header_text(n);
    let d = text::decimal(n);
    assert forall|i: int| 16 <= i < 16 + d.len() implies (#[trigger] h[i]) == d[i - 16]
        && framing::is_digit(h[i]) by {
        assert(framing::is_digit(d[i - 16]));
    }
    assert forall|i: int| 0 <= i < 15 implies #[trigger] h[i] == "Content-Length:"@[i] by {}
    assert forall|i: int| 0 <= i < h.len() implies '\0' <= #[trigger] h[i] <= '\u{7f}' by {
        if i < 16 {
            assert(h[i] == "Content-Length: "@[i]);
        } else if i < 16 + d.len() {
            assert(framing::is_digit(h[i]));
        } else {
            let j = i - 16 - d.len();
            assert(h[i] == "\r\n\r\n"@[j]);
            assert(j == 0 || j == 1 || j == 2 || j == 3);
        }
    }
    assert forall|i: int| 0 <= i < 17 + d.len() implies #[trigger] h[i] != '\n' by {
        if 16 <= i < 16 + d.len() {
            assert(framing::is_digit(h[i]));
        }
    }
}

/// The bytes of a run of ASCII characters decode to these characters.
proof fn lemma_ascii_run(bytes: Seq<u8>, chars: Seq<char>)
    requires
        vstd::utf8::is_ascii_chars(chars),
        bytes.len() == chars.len(),
        forall|i: int| 0 <= i < chars.len() ==> #[trigger] bytes[i] == chars[i] as u8,
    ensures
        vstd::utf8::valid_utf8(bytes),
        vstd::utf8::decode_utf8(bytes) == chars,
{
    vstd::utf8::is_ascii_chars_encode_utf8(chars);
    assert(bytes =~= vstd::utf8::encode_utf8(chars));
    vstd::utf8::encode_utf8_valid_utf8(chars);
    vstd::utf8::encode_utf8_decode_utf8(chars);
}

/// A frame that was written is read back: its body is found whatever follows the frame, and the
/// frame ends where the body does. Bodies longer than the reader's limit are left out.
pub proof fn law_written_frame_is_read_back(body: Seq<u8>, rest: Seq<u8>, eof: bool)
    requires
        body.len() <= framing::MAX_CONTENT_LENGTH,
    ensures
        framing::frame(framing::framed(body) + rest, eof) == (framing::FrameView::Body {
            start: framing::framed(body).len() - body.len(),
            end: framing::framed(body).len() as int,
        }),
        (framing::framed(body) + rest).subrange(
            framing::framed(body).len() - body.len(),
            framing::framed(body).len() as int,
        ) == body,
{
    let n = body.len();
    let h = framing::header_text(n);
    let d = text::decimal(n);
    let hb = vstd::utf8::encode_utf8(h);
    let buf = framing::framed(body) + rest;
    let k = d.len() as int;
    lemma_header_chars(n);
    lemma_decimal_digits(n);
    vstd::utf8::is_ascii_chars_encode_utf8(h);
    assert(forall|i: int| 0 <= i < h.len() ==> #[trigger] buf[i] == h[i] as u8);
    let is_newline = |b: u8| b == 10;

    // The first line: the count.
    let stop1 = 17 + k;
    let tail1 = buf.skip(0);
    assert forall|j: int| 0 <= j < stop1 implies !is_newline(#[trigger] tail1[j]) by {
        assert(tail1[j] == buf[j]);
        assert(h[j] != '\n');
        assert(h[j] as u8 == buf[j]);
        assert('\0' <= h[j] <= '\u{7f}');
    }
    assert(tail1[stop1] == buf[stop1] && h[stop1] as u8 == 10);
    model::lemma_first_index(tail1, is_newline, stop1);
    assert(framing::newline_from(buf, 0) == stop1);
    let next1 = stop1 + 1;
    let line1 = buf.subrange(0, next1);
    let chars1 = h.subrange(0, next1);
    assert forall|i: int| 0 <= i < chars1.len() implies '\0' <= #[trigger] chars1[i]
        <= '\u{7f}' by {
        assert(chars1[i] == h[i]);
    }
    lemma_ascii_run(line1, chars1);
    let is_end = |c: char| c == '\r' || c == '\n';
    assert forall|j: int| 16 + k <= j < chars1.len() implies is_end(#[trigger] chars1[j]) by {
        assert(chars1[j] == h[j]);
    }
    assert(chars1[15 + k] == h[15 + k]);
    assert(framing::is_digit(h[15 + k]));
    text::lemma_trim_end(chars1, is_end, 16 + k);
    let shown = chars1.take(16 + k);
    assert(framing::line_text(line1) == shown);
    let name = "Content-Length:"@;
    assert(name =~= shown.subrange(0, 15)) by {
        assert forall|i: int| 0 <= i < 15 implies name[i] == shown[i] by {
            assert(h[i] == name[i]);
        }
    }
    assert(name.is_prefix_of(shown));
    let after = shown.skip(15);
    let white = |c: char| text::white_space(c);
    assert(after.len() == 1 + k);
    assert(after[k] == h[15 + k]);
    text::lemma_trim_end(after, white, 1 + k);
    assert(after.take(1 + k) =~= after);
    assert(after[0] == h[15]);
    assert(after[1] == h[16]);
    assert(framing::is_digit(h[16]));
    assert forall|j: int| 0 <= j < 1 implies white(#[trigger] after[j]) by {}
    text::lemma_trim_start(after, white, 1);
    assert(after.skip(1) =~= d) by {
        assert forall|i: int| 0 <= i < k implies after.skip(1)[i] == d[i] by {
            assert(h[16 + i] == d[16 + i - 16]);
        }
    }
    assert(text::trimmed(after) == d);
    assert(framing::is_digit(d[0]));
    assert(framing::byte_count(d) == Some(n));

    // The second line: blank.
    let stop2 = 19 + k;
    let tail2 = buf.skip(next1);
    assert(tail2[0] == buf[18 + k]);
    assert(tail2[1] == buf[19 + k]);
    assert(h[18 + k] as u8 == 13 && h[19 + k] as u8 == 10);
    assert forall|j: int| 0 <= j < 1 implies !is_newline(#[trigger] tail2[j]) by {}
    model::lemma_first_index(tail2, is_newline, 1);
    assert(framing::newline_from(buf, next1) == stop2);
    let next2 = stop2 + 1;
    let line2 = buf.subrange(next1, next2);
    let chars2 = seq!['\r', '\n'];
    lemma_ascii_run(line2, chars2);
    assert forall|j: int| 0 <= j < chars2.len() implies is_end(#[trigger] chars2[j]) by {}
    text::lemma_trim_end(chars2, is_end, 0);
    assert(framing::line_text(line2).len() == 0);
    assert(framing::header(buf, next1, eof, Some(n)) == (framing::HeaderView::Done {
        length: n,
        body: next2,
    }));
    assert(framing::header(buf, 0, eof, None) == framing::header(buf, next1, eof, Some(n)));
    assert(buf.subrange(next2, next2 + n) =~= body);
}

/// The bodies of the frames at the front of `buf`, one after the other, up to the first that is
/// not complete or not well-formed.
pub open spec fn bodies(buf: Seq<u8>, eof: bool) -> Seq<Seq<u8>>
    decreases buf.len(),
{
    match framing::frame(buf, eof) {
        framing::FrameView::Body { start, end } => if 0 < end <= buf.len() {
            seq![buf.subrange(start, end)] + bodies(buf.skip(end), eof)
        } else {
            Seq::empty()
        },
        _ => Seq::empty(),
    }
}

/// The frames around `messages`, one after the other.
pub open spec fn stream(messages: Seq<Seq<u8>>) -> Seq<u8>
    decreases messages.len(),
{
    if messages.len() == 0 {
        Seq::empty()
    } else {
        framing::framed(messages[0]) + stream(messages.drop_first())
    }
}

/// Messages that were written one after the other are read back in order, whatever follows them.
/// Messages longer than the reader's limit are left out.
pub proof fn law_written_stream_is_read_back(messages: Seq<Seq<u8>>, rest: Seq<u8>, eof: bool)
    requires
        forall|i: int|
            0 <= i < messages.len() ==> (#[trigger] messages[i]).len()
                <= framing::MAX_CONTENT_LENGTH,
    ensures
        bodies(stream(messages) + rest, eof) == messages + bodies(rest, eof),
    decreases messages.len(),
{
    if messages.len() == 0 {
        assert(stream(messages) + rest =~= rest);
        assert(messages + bodies(rest, eof) =~= bodies(rest, eof));
    } else {
        let first = messages[0];
        let others = messages.drop_first();
        let after = stream(others) + rest;
        let whole = stream(messages) + rest;
        assert(whole =~= framing::framed(first) + after);
        law_written_frame_is_read_back(first, after, eof);
        lemma_header_chars(first.len());
        vstd::utf8::is_ascii_chars_encode_utf8(framing::header_text(first.len()));
        assert(framing::framed(first).len() > 0);
        assert(whole.skip(framing::framed(first).len() as int) =~= after);
        law_written_stream_is_read_back(others, rest, eof);
        assert(messages + bodies(rest, eof) =~= seq![first] + (others + bodies(rest, eof)));
    }
}

proof fn lemma_header_stable(
    buf: Seq<u8>,
    more: Seq<u8>,
    at: int,
    eof: bool,
    length: Option<nat>,
)
    requires
        0 <= at <= buf.len(),
        !(framing::header(buf, at, false, length) is More),
    ensures
        framing::header(buf + more, at, eof, length) == framing::header(buf, at, false, length),
    decreases buf.len() - at,
{
    let is_newline = |b: u8| b == 10;
    let longer = buf + more;
    let stop = framing::newline_from(buf, at);
    let tail = buf.skip(at);
    let long_tail = longer.skip(at);
    model::lemma_first_index_bounds(tail, is_newline);
    model::lemma_first_index_found(tail, is_newline);
    let i = model::first_index(tail, is_newline);
    assert(long_tail[i] == tail[i]);
    assert forall|j: int| 0 <= j < i implies !is_newline(#[trigger] long_tail[j]) by {
        assert(long_tail[j] == tail[j]);
    }
    model::lemma_first_index(long_tail, is_newline, i);
    assert(framing::newline_from(longer, at) == stop);
    let next = stop + 1;
    let line = buf.subrange(at, next);
    assert(longer.subrange(at, next) =~= line);
    if vstd::utf8::valid_utf8(line) {
        let shown = framing::line_text(line);
        if shown.len() > 0 {
            if "Content-Length:"@.is_prefix_of(shown) {
                let value = text::trimmed(shown.skip("Content-Length:"@.len() as int));
                match framing::byte_count(value) {
                    Some(n) => {
                        lemma_header_stable(buf, more, next, eof, Some(n));
                    },
                    None => {},
                }
            } else {
                lemma_header_stable(buf, more, next, eof, length);
            }
        }
    }
}

proof fn lemma_header_inside(buf: Seq<u8>, at: int, eof: bool, length: Option<nat>)
    requires
        0 <= at <= buf.len(),
    ensures
        framing::header(buf, at, eof, length) matches framing::HeaderView::Done { body, .. } ==> at
            <= body <= buf.len(),
        eof ==> !(framing::header(buf, at, eof, length) is More),
    decreases buf.len() - at,
{
    let stop = framing::newline_from(buf, at);
    model::lemma_first_index_bounds(buf.skip(at), |b: u8| b == 10);
    if at < buf.len() && (stop < buf.len() || eof) {
        let next = if stop < buf.len() {
            stop + 1
        } else {
            buf.len() as int
        };
        let line = buf.subrange(at, next);
        let shown = framing::line_text(line);
        let value = text::trimmed(shown.skip("Content-Length:"@.len() as int));
        match framing::byte_count(value) {
            Some(n) => lemma_header_inside(buf, next, eof, Some(n)),
            None => {},
        }
        lemma_header_inside(buf, next, eof, length);
    }
}

/// What the front of a stream came to is final: no byte that arrives later, and no end of the
/// stream, changes it.
pub proof fn law_frame_is_final(buf: Seq<u8>, more: Seq<u8>, eof: bool)
    requires
        !(framing::frame(buf, false) is More),
    ensures
        framing::frame(buf + more, eof) == framing::frame(buf, false),
{
    lemma_header_stable(buf, more, 0, eof, None);
    lemma_header_inside(buf, 0, false, None);
}

/// What remains of `buf` behind its complete frames.
pub open spec fn leftover(buf: Seq<u8>) -> Seq<u8>
    decreases buf.len(),
{
    match framing::frame(buf, false) {
        framing::FrameView::Body { start, end } => if 0 < end <= buf.len() {
            leftover(buf.skip(end))
        } else {
            buf
        },
        _ => buf,
    }
}

/// It makes no difference in what pieces the bytes of a stream arrive: reading the frames of what
/// is there, and then those of what remains together with what arrives later, gives the bodies
/// that reading all of it at once gives.
pub proof fn law_pieces_make_no_difference(first: Seq<u8>, second: Seq<u8>, eof: bool)
    ensures
        bodies(first + second, eof) == bodies(first, false) + bodies(
            leftover(first) + second,
            eof,
        ),
    decreases first.len(),
{
    let whole = first + second;
    match framing::frame(first, false) {
        framing::FrameView::Body { start, end } => {
            if 0 < end <= first.len() {
                law_frame_is_final(first, second, eof);
                lemma_header_inside(first, 0, false, None);
                let rest = first.skip(end);
                assert(whole.skip(end) =~= rest + second);
                assert(whole.subrange(start, end) =~= first.subrange(start, end));
                law_pieces_make_no_difference(rest, second, eof);
                let head = seq![first.subrange(start, end)];
                let tail = bodies(leftover(rest) + second, eof);
                assert(head + (bodies(rest, false) + tail) =~= (head + bodies(rest, false)) + tail);
            } else {
                assert(bodies(first, false) + bodies(whole, eof) =~= bodies(whole, eof));
            }
        },
        _ => {
            assert(bodies(first, false) + bodies(whole, eof) =~= bodies(whole, eof));
        },
    }
}

/// At the end of the stream every front is decided.
pub proof fn law_end_of_stream_decides(buf: Seq<u8>)
    ensures
        !(framing::frame(buf, true) is More),
{
    lemma_header_inside(buf, 0, true, None);
}

/// An end of the stream between two frames is told from one inside a frame: only the former is
/// `Eof`.
pub proof fn law_clean_end_only_between_frames(buf: Seq<u8>)
    ensures
        framing::frame(buf, true) == framing::FrameView::Fail(crate::error::WireErrorView::Eof)
            <==> buf.len() == 0,
{
    lemma_header_not_eof(buf, 0, None);
}

proof fn lemma_header_not_eof(buf: Seq<u8>, at: int, length: Option<nat>)
    requires
        0 <= at <= buf.len(),
    ensures
        framing::header(buf, at, true, length) == framing::HeaderView::Fail(
            crate::error::WireErrorView::Eof,
        ) <==> buf.len() == 0,
    decreases buf.len() - at,
{
    let stop = framing::newline_from(buf, at);
    model::lemma_first_index_bounds(buf.skip(at), |b: u8| b == 10);
    if at < buf.len() {
        let next = if stop < buf.len() {
            stop + 1
        } else {
            buf.len() as int
        };
        let line = buf.subrange(at, next);
        let shown = framing::line_text(line);
        let value = text::trimmed(shown.skip("Content-Length:"@.len() as int));
        match framing::byte_count(value) {
            Some(n) => lemma_header_not_eof(buf, next, Some(n)),
            None => {},
        }
        lemma_header_not_eof(buf, next, length);
    }
}

/// Whether `line` is one line with the line feed that ends it.
pub open spec fn is_line(line: Seq<u8>) -> bool {
    &&& line.len() > 0
    &&& line.last() == 10
    &&& forall|i: int| 0 <= i < line.len() - 1 ==> #[trigger] line[i] != 10
}

/// Whether a line of a header block ends the block.
pub open spec fn is_blank(line: Seq<u8>) -> bool {
    vstd::utf8::valid_utf8(line) && framing::line_text(line).len() == 0
}

/// What stands behind `Content-Length:` on a line that starts with it.
pub open spec fn length_field(line: Seq<u8>) -> Option<Seq<char>> {
    let shown = framing::line_text(line);
    if vstd::utf8::valid_utf8(line) && "Content-Length:"@.is_prefix_of(shown) {
        Some(text::trimmed(shown.skip("Content-Length:"@.len() as int)))
    } else {
        None
    }
}

/// What is wrong with a line of a header block, if anything is.
pub open spec fn fault(line: Seq<u8>) -> Option<WireErrorView> {
    if !vstd::utf8::valid_utf8(line) {
        Some(WireErrorView::Io(bytes::utf8_fault(line)))
    } else {
        match length_field(line) {
            Some(value) => match framing::byte_count(value) {
                Some(_) => None,
                None => Some(WireErrorView::InvalidContentLength(value)),
            },
            None => None,
        }
    }
}

/// Whether something is wrong with a line.
pub open spec fn is_bad() -> spec_fn(Seq<u8>) -> bool {
    |line: Seq<u8>| fault(line) is Some
}

/// The byte count that a line gives, if it gives one.
pub open spec fn length_of(line: Seq<u8>) -> Option<nat> {
    match length_field(line) {
        Some(value) => framing::byte_count(value),
        None => None,
    }
}

/// The byte count that the last line to give one gives.
pub open spec fn last_length(lines: Seq<Seq<u8>>) -> Option<nat>
    decreases lines.len(),
{
    if lines.len() == 0 {
        None
    } else {
        match length_of(lines.last()) {
            Some(n) => Some(n),
            None => last_length(lines.drop_last()),
        }
    }
}

/// The header block made of `lines` and a line without text: the first bad line is the error;
/// with none, the last byte count given counts, and a block that gives none is refused.
pub open spec fn block(lines: Seq<Seq<u8>>, body: int) -> framing::HeaderView {
    let bad = model::first_index(lines, is_bad());
    if bad < lines.len() {
        framing::HeaderView::Fail(fault(lines[bad])->0)
    } else {
        match last_length(lines) {
            Some(length) => framing::HeaderView::Done { length, body },
            None => framing::HeaderView::Fail(WireErrorView::MissingContentLength),
        }
    }
}

/// One line of a block is read.
proof fn lemma_header_line(
    front: Seq<u8>,
    line: Seq<u8>,
    rest: Seq<u8>,
    eof: bool,
    length: Option<nat>,
)
    requires
        is_line(line),
    ensures
        framing::header(front + line + rest, front.len() as int, eof, length) == if is_blank(line) {
            match length {
                Some(n) => framing::HeaderView::Done { length: n, body: (front + line).len() as int },
                None => framing::HeaderView::Fail(WireErrorView::MissingContentLength),
            }
        } else if fault(line) is Some {
            framing::HeaderView::Fail(fault(line)->0)
        } else {
            framing::header(
                front + line + rest,
                (front + line).len() as int,
                eof,
                match length_of(line) {
                    Some(n) => Some(n),
                    None => length,
                },
            )
        },
{
    let buf = front + line + rest;
    let at = front.len() as int;
    let is_newline = |b: u8| b == 10;
    let tail = buf.skip(at);
    let end = line.len() - 1;
    assert(tail[end] == line[end]);
    assert forall|j: int| 0 <= j < end implies !is_newline(#[trigger] tail[j]) by {
        assert(tail[j] == line[j]);
    }
    model::lemma_first_index(tail, is_newline, end);
    assert(framing::newline_from(buf, at) == at + end);
    assert(buf.subrange(at, at + end + 1) =~= line);
    reveal_strlit("Content-Length:");
}

/// Lines without a fault are read one behind the other.
proof fn lemma_header_lines(lines: Seq<Seq<u8>>, rest: Seq<u8>, eof: bool)
    requires
        forall|i: int|
            0 <= i < lines.len() ==> is_line(#[trigger] lines[i]) && !is_blank(lines[i]),
    ensures
        ({
            let buf = lines.flatten_alt() + rest;
            let bad = model::first_index(lines, is_bad());
            framing::header(buf, 0, eof, None) == if bad < lines.len() {
                framing::HeaderView::Fail(fault(lines[bad])->0)
            } else {
                framing::header(
                    buf,
                    lines.flatten_alt().len() as int,
                    eof,
                    last_length(lines),
                )
            }
        }),
    decreases lines.len(),
{
    if lines.len() > 0 {
        let before = lines.drop_last();
        let line = lines.last();
        let front = before.flatten_alt();
        assert forall|i: int| 0 <= i < before.len() implies is_line(#[trigger] before[i])
            && !is_blank(before[i]) by {
            assert(before[i] == lines[i]);
        }
        lemma_header_lines(before, line + rest, eof);
        assert(front + (line + rest) =~= lines.flatten_alt() + rest);
        assert(front + line + rest =~= lines.flatten_alt() + rest);
        assert(is_line(lines[lines.len() - 1]));
        lemma_header_line(front, line, rest, eof, last_length(before));
        let bad = model::first_index(before, is_bad());
        model::lemma_first_index_found(before, is_bad());
        model::lemma_first_index_bounds(before, is_bad());
        assert forall|j: int| 0 <= j < bad implies !is_bad()(#[trigger] lines[j]) by {
            assert(lines[j] == before[j]);
        }
        if bad < before.len() {
            model::lemma_first_index(lines, is_bad(), bad);
        } else if fault(line) is Some {
            model::lemma_first_index(lines, is_bad(), bad);
        } else {
            assert forall|j: int| 0 <= j < lines.len() implies !is_bad()(#[trigger] lines[j]) by {
                if j < before.len() {
                    assert(lines[j] == before[j]);
                }
            }
            model::lemma_first_index(lines, is_bad(), lines.len() as int);
        }
    }
}

/// A header block is read line by line: of its lines with text, the first with something wrong is
/// the error, whatever comes behind it; with none wrong, the last byte count given counts; all
/// other lines are ignored, and the body starts behind the line without text.
pub proof fn law_header_block(
    lines: Seq<Seq<u8>>,
    blank: Seq<u8>,
    rest: Seq<u8>,
    eof: bool,
)
    requires
        forall|i: int|
            0 <= i < lines.len() ==> is_line(#[trigger] lines[i]) && !is_blank(lines[i]),
        is_line(blank),
        is_blank(blank),
    ensures
        framing::header(lines.flatten() + blank + rest, 0, eof, None) == block(
            lines,
            (lines.flatten() + blank).len() as int,
        ),
{
    lines.lemma_flatten_and_flatten_alt_are_equivalent();
    assert(lines.flatten() + blank + rest =~= lines.flatten_alt() + (blank + rest));
    lemma_header_lines(lines, blank + rest, eof);
    lemma_header_line(lines.flatten(), blank, rest, eof, last_length(lines));
}

/// A bad line is an error as soon as it is there, though the block has not ended.
pub proof fn law_bad_line_is_refused_at_once(lines: Seq<Seq<u8>>, rest: Seq<u8>, eof: bool)
    requires
        forall|i: int|
            0 <= i < lines.len() ==> is_line(#[trigger] lines[i]) && !is_blank(lines[i]),
        model::first_index(lines, is_bad()) < lines.len(),
    ensures
        framing::header(lines.flatten() + rest, 0, eof, None) == framing::HeaderView::Fail(
            fault(lines[model::first_index(lines, is_bad())])->0,
        ),
{
    lines.lemma_flatten_and_flatten_alt_are_equivalent();
    lemma_header_lines(lines, rest, eof);
}

/// A header block that has not ended: more bytes are needed to tell, unless none will come; then
/// the stream ended inside the block, or between two frames if nothing came at all. Blocks with a
/// bad line are left out, as that is the error.
pub proof fn law_unfinished_header(lines: Seq<Seq<u8>>)
    requires
        forall|i: int|
            0 <= i < lines.len() ==> is_line(#[trigger] lines[i]) && !is_blank(lines[i]),
        forall|i: int| 0 <= i < lines.len() ==> fault(#[trigger] lines[i]) is None,
    ensures
        framing::header(lines.flatten(), 0, false, None) == framing::HeaderView::More,
        lines.len() > 0 ==> framing::header(lines.flatten(), 0, true, None)
            == framing::HeaderView::Fail(
            WireErrorView::Io("EOF in the middle of a DAP header"@),
        ),
        lines.len() == 0 ==> framing::header(lines.flatten(), 0, true, None)
            == framing::HeaderView::Fail(WireErrorView::Eof),
{
    lines.lemma_flatten_and_flatten_alt_are_equivalent();
    let buf = lines.flatten_alt();
    let none = Seq::<u8>::empty();
    assert(buf + none =~= buf);
    lemma_header_lines(lines, none, true);
    lemma_header_lines(lines, none, false);
    assert forall|i: int| 0 <= i < lines.len() implies !is_bad()(#[trigger] lines[i]) by {}
    model::lemma_first_index(lines, is_bad(), lines.len() as int);
    let end = buf.len() as int;
    assert(buf.skip(end) =~= none);
    assert(framing::newline_from(buf, end) == end);
    if lines.len() > 0 {
        assert(is_line(lines[lines.len() - 1]));
        assert(buf.len() > 0);
    }
}

/// A line that has not ended is not judged as long as more bytes may come.
pub proof fn law_unfinished_line_is_not_judged(line: Seq<u8>)
    requires
        forall|i: int| 0 <= i < line.len() ==> #[trigger] line[i] != 10,
    ensures
        framing::header(line, 0, false, None) == framing::HeaderView::More,
{
    let is_newline = |b: u8| b == 10;
    assert(line.skip(0) =~= line);
    assert forall|j: int| 0 <= j < line.len() implies !is_newline(#[trigger] line[j]) by {}
    model::lemma_first_index(line, is_newline, line.len() as int);
}

/// A frame is its header and as many bytes as that gives: the body starts where the header ends. A
/// body that is not all there needs more bytes, or ended early if none will come; and a header that
/// fails is the failure of the frame.
pub proof fn law_body_follows_its_header(
    buf: &[u8],
    eof: bool,
    head: framing::HeaderStep,
    step: framing::FrameStep,
)
    requires
        call_ensures(framing::read_header, (buf, eof), head),
        call_ensures(framing::read_message, (buf, eof), step),
    ensures
        head matches framing::HeaderStep::Done { length, body } ==> {
            &&& body + length <= buf@.len() ==> (step matches framing::FrameStep::Body {
                start,
                end,
            } && start == body && end == body + length)
            &&& body + length > buf@.len() && eof ==> (step matches framing::FrameStep::Fail(err)
                && (err matches crate::error::WireError::Io(reason) && reason@ == "early eof"@))
            &&& body + length > buf@.len() && !eof ==> step is More
        },
        head is More ==> step is More,
        head matches framing::HeaderStep::Fail(err) ==> (step matches framing::FrameStep::Fail(e)
            && e@ == err@),
{
}

/// A reader takes the frame at the front of what arrived, and leaves what follows; while there is
/// none, and when there is a failure, it takes nothing.
pub proof fn law_reader_takes_frames_off_the_front(
    fresh: framing::FrameReader,
    reader: &mut framing::FrameReader,
    eof: bool,
    arrived: &[u8],
    step: framing::FrameStep,
    next: framing::NextFrame,
    feeding: &mut framing::FrameReader,
    data: &[u8],
)
    requires
        call_ensures(framing::FrameReader::new, (), fresh),
        call_ensures(framing::FrameReader::feed, (feeding, data), ()),
        arrived@ == old(reader).buffer@,
        call_ensures(framing::read_message, (arrived, eof), step),
        call_ensures(framing::FrameReader::next_frame, (reader, eof), next),
    ensures
        fresh.buffer@.len() == 0,
        final(feeding).buffer@ == old(feeding).buffer@ + data@,
        step matches framing::FrameStep::Body { start, end } ==> (
        next matches framing::NextFrame::Body(body) && body@ == arrived@.subrange(
            start as int,
            end as int,
        ) && final(reader).buffer@ == arrived@.skip(end as int)),
        step is More ==> next is More && final(reader).buffer@ == arrived@,
        step matches framing::FrameStep::Fail(err) ==> (next matches framing::NextFrame::Fail(e)
            && e@ == err@) && final(reader).buffer@ == arrived@,
{
}

} // verus!
