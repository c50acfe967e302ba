//! What the functions on text give, in terms of the characters.

use vstd::prelude::*;

use crate::framing;
use crate::framing::{FrameReader, NextFrame};
use crate::framing_laws;
use crate::text;

verus! {

/// The number that decimal digits write.
pub open spec fn reads_as(digits: Seq<char>) -> int
    decreases digits.len(),
{
    if digits.len() == 0 {
        0
    } else {
        10 * reads_as(digits.drop_last()) + (digits.last() as int - 48)
    }
}

/// Whether `s` writes `n` in decimal: digits only, without a leading zero, that read as `n`.
pub open spec fn writes(s: Seq<char>, n: int) -> bool {
    &&& s.len() > 0
    &&& forall|i: int| 0 <= i < s.len() ==> 48 <= (#[trigger] s[i]) as int <= 57
    &&& s.len() > 1 ==> s[0] != '0'
    &&& reads_as(s) == n
}

proof fn lemma_decimal_writes(n: nat)
    ensures
        writes(text::decimal(n), n as int),
        n > 0 ==> text::decimal(n)[0] != '0',
    decreases n,
{
    let s = text::decimal(n);
    if n < 10 {
        assert(s.drop_last() =~= Seq::<char>::empty());
        assert(reads_as(s.drop_last()) == 0);
        assert(s.last() as int == 48 + n);
    } else {
        lemma_decimal_writes(n / 10);
        let head = text::decimal(n / 10);
        assert(s.drop_last() =~= head);
        assert(s.last() as int == 48 + n % 10);
        assert(s[0] == head[0]);
        assert forall|i: int| 0 <= i < s.len() implies 48 <= (#[trigger] s[i]) as int
            <= 57 by {
            if i < head.len() {
                assert(s[i] == head[i]);
            }
        }
    }
}

/// A number is written in decimal digits that read as it, without leading zeros, and with a minus
/// sign exactly when it is negative.
pub proof fn law_numbers_are_written_in_decimal(
    n: u64,
    m: i64,
    unsigned: String,
    signed: String,
)
    requires
        call_ensures(text::decimal_text, (n,), unsigned),
        call_ensures(text::signed_decimal_text, (m,), signed),
    ensures
        writes(unsigned@, n as int),
        m >= 0 ==> writes(signed@, m as int),
        m < 0 ==> signed@.len() > 0 && signed@[0] == '-' && writes(signed@.skip(1), -(m as int)),
        signed@ == text::signed_decimal(m as int),
{
    lemma_decimal_writes(n as nat);
    if m >= 0 {
        lemma_decimal_writes(m as nat);
    } else {
        lemma_decimal_writes((-m) as nat);
        assert(signed@.skip(1) =~= text::decimal((-m) as nat));
    }
}

/// Texts in a row are one text: the characters of each, in order.
pub proof fn law_texts_in_a_row(
    a: &str,
    b: &str,
    c: &str,
    d: &str,
    two: String,
    three: String,
    four: String,
)
    requires
        call_ensures(text::concat2, (a, b), two),
        call_ensures(text::concat3, (a, b, c), three),
        call_ensures(text::concat4, (a, b, c, d), four),
    ensures
        two@ == a@ + b@,
        three@ == two@ + c@,
        four@ == three@ + d@,
{
}

/// Texts are the same exactly when their characters are; the characters of a text are its own, in
/// order.
pub proof fn law_texts_are_compared_by_their_characters(
    a: &str,
    b: &str,
    same: bool,
    chars: Vec<char>,
)
    requires
        call_ensures(text::same_text, (a, b), same),
        call_ensures(text::chars_of, (a,), chars),
    ensures
        same <==> a@ == b@,
        chars@.len() == a@.len(),
        forall|i: int| 0 <= i < a@.len() ==> #[trigger] chars@[i] == a@[i],
{
}

/// Whether a text occurs in another: whether the characters of the one stand in the other in a
/// row, from some index on.
pub proof fn law_text_is_searched_for(hay: &str, needle: &str, found: bool)
    requires
        call_ensures(text::contains_text, (hay, needle), found),
    ensures
        found <==> exists|i: int|
            0 <= i && i + needle@.len() <= hay@.len() && #[trigger] hay@.subrange(
                i,
                i + needle@.len(),
            ) == needle@,
{
    if found {
        let i = choose|i: int| #[trigger] text::occurs_at(hay@, needle@, i);
        assert(hay@.subrange(i, i + needle@.len()) == needle@);
    } else {
        assert forall|i: int|
            0 <= i && i + needle@.len() <= hay@.len() implies #[trigger] hay@.subrange(
            i,
            i + needle@.len(),
        ) != needle@ by {
            assert(!text::occurs_at(hay@, needle@, i));
        }
    }
}

/// Whether `c` is a white space character: a tab, a line feed or the like, a space, or one of the
/// other spaces and separators of Unicode.
pub open spec fn is_space(c: char) -> bool {
    let v = c as int;
    v == 9 || v == 10 || v == 11 || v == 12 || v == 13 || v == 32 || v == 133 || v == 160 || v
        == 5760 || (8192 <= v && v <= 8202) || v == 8232 || v == 8233 || v == 8239 || v == 8287
        || v == 12288
}

proof fn lemma_space(c: char)
    ensures
        text::white_space(c) == is_space(c),
{
    assert(c as u32 as int == c as int);
}

/// White space is told by the character alone.
pub proof fn law_white_space_is_told(c: char, white: bool)
    requires
        call_ensures(text::is_white_space, (c,), white),
    ensures
        white <==> is_space(c),
{
}

/// Whether `kept` is `s` between `start` and `end`, with white space only around it and none at
/// its own ends.
pub open spec fn is_core(s: Seq<char>, kept: Seq<char>, start: int, end: int) -> bool {
    &&& 0 <= start <= end <= s.len()
    &&& kept == s.subrange(start, end)
    &&& forall|i: int| 0 <= i < start ==> is_space(#[trigger] s[i])
    &&& forall|i: int| end <= i < s.len() ==> is_space(#[trigger] s[i])
    &&& kept.len() > 0 ==> !is_space(kept[0]) && !is_space(kept.last())
}

proof fn lemma_end_of(s: Seq<char>, p: spec_fn(char) -> bool) -> (end: int)
    ensures
        0 <= end <= s.len(),
        forall|j: int| end <= j < s.len() ==> p(#[trigger] s[j]),
        end > 0 ==> !p(s[end - 1]),
    decreases s.len(),
{
    if s.len() > 0 && p(s.last()) {
        let end = lemma_end_of(s.drop_last(), p);
        assert forall|j: int| end <= j < s.len() implies p(#[trigger] s[j]) by {
            if j < s.len() - 1 {
                assert(s.drop_last()[j] == s[j]);
            }
        }
        if end > 0 {
            assert(s.drop_last()[end - 1] == s[end - 1]);
        }
        end
    } else {
        s.len() as int
    }
}

proof fn lemma_start_of(s: Seq<char>, p: spec_fn(char) -> bool) -> (start: int)
    ensures
        0 <= start <= s.len(),
        forall|j: int| 0 <= j < start ==> p(#[trigger] s[j]),
        start < s.len() ==> !p(s[start]),
    decreases s.len(),
{
    if s.len() > 0 && p(s[0]) {
        let rest = s.drop_first();
        let start = lemma_start_of(rest, p);
        assert forall|j: int| 0 <= j < start + 1 implies p(#[trigger] s[j]) by {
            if j > 0 {
                assert(rest[j - 1] == s[j]);
            }
        }
        if start < rest.len() {
            assert(rest[start] == s[start + 1]);
        }
        start + 1
    } else {
        0
    }
}

/// Trimming takes the white space off both ends and nothing else: what is left is the part of the
/// text between, which neither starts nor ends with white space.
pub proof fn law_trimming_takes_white_space_off_the_ends(s: &str, kept: String)
    requires
        call_ensures(text::trim_text, (s,), kept),
    ensures
        exists|start: int, end: int| #[trigger] is_core(s@, kept@, start, end),
        kept@ == text::trimmed(s@),
{
    let white = |c: char| text::white_space(c);
    let end = lemma_end_of(s@, white);
    text::lemma_trim_end(s@, white, end);
    let front = s@.take(end);
    let start = lemma_start_of(front, white);
    text::lemma_trim_start(front, white, start);
    assert(front.skip(start) =~= s@.subrange(start, end));
    assert forall|i: int| 0 <= i < start implies is_space(#[trigger] s@[i]) by {
        assert(front[i] == s@[i]);
        assert(white(front[i]));
        lemma_space(s@[i]);
    }
    assert forall|i: int| end <= i < s@.len() implies is_space(#[trigger] s@[i]) by {
        assert(white(s@[i]));
        lemma_space(s@[i]);
    }
    if kept@.len() > 0 {
        assert(kept@[0] == front[start]);
        assert(kept@.last() == s@[end - 1]);
        lemma_space(kept@[0]);
        lemma_space(kept@.last());
    }
    assert(is_core(s@, kept@, start, end));
}

/// The bounds of what trimming leaves of the characters from an index on.
pub proof fn law_trim_bounds(chars: &Vec<char>, from: usize, bounds: (usize, usize))
    requires
        call_ensures(text::trim_bounds, (chars, from), bounds),
    ensures
        from <= bounds.0 <= bounds.1 <= chars@.len(),
        chars@.subrange(bounds.0 as int, bounds.1 as int) == text::trimmed(chars@.skip(from as int)),
{
}

/// A list of texts is joined with the separator between each two: none gives the empty text, one
/// gives itself, and each further text comes behind the separator.
pub proof fn law_lists_are_joined(
    items: &Vec<String>,
    more: &Vec<String>,
    separator: &str,
    shorter: String,
    longer: String,
)
    requires
        more@.len() == items@.len() + 1,
        forall|i: int| 0 <= i < items@.len() ==> (#[trigger] more@[i])@ == items@[i]@,
        call_ensures(text::join_text, (items, separator), shorter),
        call_ensures(text::join_text, (more, separator), longer),
    ensures
        items@.len() == 0 ==> shorter@.len() == 0,
        items@.len() == 0 ==> longer@ == more@[0]@,
        items@.len() > 0 ==> longer@ == shorter@ + separator@ + more@.last()@,
{
    let all = crate::model::views(more@);
    assert(all.drop_last() =~= crate::model::views(items@));
    assert(all.last() == more@.last()@);
}

/// A body that is written stands behind a header that gives its length in bytes, and behind
/// nothing else; what could not be encoded is an error with the reason.
pub proof fn law_frame_is_header_and_body(
    body: Result<Vec<u8>, String>,
    message: Result<Vec<u8>, crate::error::WireError>,
)
    requires
        call_ensures(framing::write_message, (body,), message),
    ensures
        body matches Ok(b) ==> (message matches Ok(m) && exists|count: Seq<char>| #[trigger]
            writes(count, b@.len() as int) && m@ == vstd::utf8::encode_utf8(
                "Content-Length: "@ + count + "\r\n\r\n"@,
            ) + b@),
        body matches Err(reason) ==> message == Err::<Vec<u8>, crate::error::WireError>(
            crate::error::WireError::Json(reason),
        ),
{
    if let Ok(b) = body {
        lemma_decimal_writes(b@.len());
        assert(writes(text::decimal(b@.len()), b@.len() as int));
    }
}

/// What is written is read: whoever feeds a reader with a written frame gets its body, whatever
/// follows, and what follows is left to read. Bodies beyond the limit of 64 mebibytes are left out.
pub proof fn law_reader_gives_back_what_was_written(
    fresh: FrameReader,
    body: Vec<u8>,
    message: Vec<u8>,
    feeding: &mut FrameReader,
    more: &mut FrameReader,
    reading: &mut FrameReader,
    rest: &[u8],
    written: &[u8],
    eof: bool,
    next: NextFrame,
)
    requires
        body@.len() <= 67_108_864,
        call_ensures(FrameReader::new, (), fresh),
        call_ensures(framing::write_message, (Ok(body),), Ok(message)),
        written@ == message@,
        *old(feeding) == fresh,
        call_ensures(FrameReader::feed, (feeding, written), ()),
        *old(more) == *final(feeding),
        call_ensures(FrameReader::feed, (more, rest), ()),
        *old(reading) == *final(more),
        call_ensures(FrameReader::next_frame, (reading, eof), next),
    ensures
        next matches NextFrame::Body(read) && read@ == body@,
        final(reading).buffer@ == rest@,
{
    framing_laws::law_written_frame_is_read_back(body@, rest@, eof);
    let all = framing::framed(body@) + rest@;
    assert(old(reading).buffer@ =~= all);
    let end = framing::framed(body@).len() as int;
    assert(all.subrange(end - body@.len(), end) =~= body@);
    assert(all.skip(end) =~= rest@);
}

/// Whether `s` is digits only, at least one, and they read as `n`.
pub open spec fn counts(s: Seq<char>, n: int) -> bool {
    &&& s.len() > 0
    &&& forall|i: int| 0 <= i < s.len() ==> 48 <= (#[trigger] s[i]) as int <= 57
    &&& reads_as(s) == n
}

/// A byte count is a number in decimal, with or without a plus sign, of at most 64 mebibytes;
/// nothing else is one.
pub proof fn law_byte_counts(n: nat, s: Seq<char>)
    ensures
        n <= 67_108_864 ==> framing::byte_count(text::decimal(n)) == Some(n),
        n <= 67_108_864 ==> framing::byte_count(seq!['+'] + text::decimal(n)) == Some(n),
        n > 67_108_864 ==> framing::byte_count(text::decimal(n)) is None,
        framing::byte_count(s) matches Some(count) ==> count <= 67_108_864 && (counts(s, count as int)
            || (s.len() > 0 && s[0] == '+' && counts(s.skip(1), count as int))),
{
    framing_laws::lemma_decimal_digits(n);
    let d = text::decimal(n);
    let signed = seq!['+'] + d;
    assert(signed.drop_first() =~= d);
    assert(framing::is_digit(d[0]));
    if framing::byte_count(s) is Some {
        let digits = framing::unsigned_digits(s);
        if s[0] == '+' {
            assert(s.skip(1) =~= digits);
        }
        lemma_digits_read(digits);
        assert forall|i: int| 0 <= i < digits.len() implies 48 <= (#[trigger] digits[i]) as int
            <= 57 by {
            assert(framing::is_digit(digits[i]));
        }
        assert(counts(digits, framing::digits_value(digits) as int));
    }
}

proof fn lemma_digits_read(digits: Seq<char>)
    requires
        forall|i: int| 0 <= i < digits.len() ==> framing::is_digit(#[trigger] digits[i]),
    ensures
        framing::digits_value(digits) == reads_as(digits),
    decreases digits.len(),
{
    if digits.len() > 0 {
        let head = digits.drop_last();
        assert forall|i: int| 0 <= i < head.len() implies framing::is_digit(#[trigger] head[i]) by {
            assert(head[i] == digits[i]);
        }
        lemma_digits_read(head);
        assert(framing::is_digit(digits[digits.len() - 1]));
    }
}

} // verus!
