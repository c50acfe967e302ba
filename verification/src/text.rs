//! Text: decimal numbers, concatenation, comparison, trimming and search, on characters.

use vstd::prelude::*;

verus! {

/// The character of a decimal digit.
pub open spec fn digit_char(d: nat) -> char {
    (48 + d) as char
}

/// The decimal notation of a natural number, without leading zeros.
pub open spec fn decimal(n: nat) -> Seq<char>
    decreases n,
{
    if n < 10 {
        seq![digit_char(n)]
    } else {
        decimal(n / 10).push(digit_char(n % 10))
    }
}

/// The decimal notation of an integer: a minus sign before the digits of a negative one.
pub open spec fn signed_decimal(n: int) -> Seq<char> {
    if n < 0 {
        seq!['-'] + decimal((-n) as nat)
    } else {
        decimal(n as nat)
    }
}

fn digit_text(d: u64) -> (text: &'static str)
    requires
        d < 10,
    ensures
        text@ == seq![digit_char(d as nat)],
{
    proof {
        reveal_strlit("0");
        reveal_strlit("1");
        reveal_strlit("2");
        reveal_strlit("3");
        reveal_strlit("4");
        reveal_strlit("5");
        reveal_strlit("6");
        reveal_strlit("7");
        reveal_strlit("8");
        reveal_strlit("9");
    }
    let text: &'static str = match d {
        0 => "0",
        1 => "1",
        2 => "2",
        3 => "3",
        4 => "4",
        5 => "5",
        6 => "6",
        7 => "7",
        8 => "8",
        _ => "9",
    };
    assert(text@ =~= seq![digit_char(d as nat)]);
    text
}

/// The decimal notation of `n`.
pub fn decimal_text(n: u64) -> (text: String)
    ensures
        text@ == decimal(n as nat),
    decreases n,
{
    if n < 10 {
        digit_text(n).to_owned()
    } else {
        let head = decimal_text(n / 10);
        let ghost before = head@;
        let text = head.concat(digit_text(n % 10));
        proof {
            assert(text@ =~= before.push(digit_char((n % 10) as nat)));
        }
        text
    }
}

/// The decimal notation of a signed `n`.
pub fn signed_decimal_text(n: i64) -> (text: String)
    ensures
        text@ == signed_decimal(n as int),
{
    if n < 0 {
        proof {
            reveal_strlit("-");
        }
        let magnitude: u64 = if n == i64::MIN {
            9_223_372_036_854_775_808
        } else {
            (-n) as u64
        };
        let text = concat2("-", decimal_text(magnitude).as_str());
        assert("-"@ =~= seq!['-']);
        text
    } else {
        decimal_text(n as u64)
    }
}

/// `a` followed by `b`.
pub fn concat2(a: &str, b: &str) -> (text: String)
    ensures
        text@ == a@ + b@,
{
    a.to_owned().concat(b)
}

/// `a`, `b` and `c` in a row.
pub fn concat3(a: &str, b: &str, c: &str) -> (text: String)
    ensures
        text@ == a@ + b@ + c@,
{
    a.to_owned().concat(b).concat(c)
}

/// `a`, `b`, `c` and `d` in a row.
pub fn concat4(a: &str, b: &str, c: &str, d: &str) -> (text: String)
    ensures
        text@ == a@ + b@ + c@ + d@,
{
    a.to_owned().concat(b).concat(c).concat(d)
}

/// The characters of `s`.
pub fn chars_of(s: &str) -> (chars: Vec<char>)
    ensures
        chars@ == s@,
{
    let mut chars: Vec<char> = Vec::new();
    for c in it: s.chars()
        invariant
            it.seq() == s@,
            chars@ == s@.take(it.index() as int),
    {
        proof {
            assert(s@.take(it.index() as int + 1) =~= s@.take(it.index() as int).push(c));
        }
        chars.push(c);
    }
    proof {
        assert(s@.take(s@.len() as int) =~= s@);
    }
    chars
}

/// Whether two strings hold the same characters.
pub fn same_text(a: &str, b: &str) -> (same: bool)
    ensures
        same == (a@ == b@),
{
    let x = a.as_bytes();
    let y = b.as_bytes();
    proof {
        vstd::utf8::encode_utf8_decode_utf8(a@);
        vstd::utf8::encode_utf8_decode_utf8(b@);
    }
    if x.len() != y.len() {
        return false;
    }
    let mut i: usize = 0;
    while i < x.len()
        invariant
            i <= x@.len(),
            x@.len() == y@.len(),
            x@ == vstd::utf8::encode_utf8(a@),
            y@ == vstd::utf8::encode_utf8(b@),
            forall|j: int| 0 <= j < i ==> x@[j] == y@[j],
        decreases x@.len() - i,
    {
        if x[i] != y[i] {
            return false;
        }
        i += 1;
    }
    assert(x@ =~= y@);
    true
}

/// Whether `c` has the Unicode property `White_Space`.
pub open spec fn white_space(c: char) -> bool {
    ||| 0x09 <= c as u32 <= 0x0d
    ||| c as u32 == 0x20
    ||| c as u32 == 0x85
    ||| c as u32 == 0xa0
    ||| c as u32 == 0x1680
    ||| 0x2000 <= c as u32 <= 0x200a
    ||| 0x2028 <= c as u32 <= 0x2029
    ||| c as u32 == 0x202f
    ||| c as u32 == 0x205f
    ||| c as u32 == 0x3000
}

/// `s` without the characters at its end that satisfy `p`.
pub open spec fn trim_end_by(s: Seq<char>, p: spec_fn(char) -> bool) -> Seq<char>
    decreases s.len(),
{
    if s.len() > 0 && p(s.last()) {
        trim_end_by(s.drop_last(), p)
    } else {
        s
    }
}

/// `s` without the characters at its start that satisfy `p`.
pub open spec fn trim_start_by(s: Seq<char>, p: spec_fn(char) -> bool) -> Seq<char>
    decreases s.len(),
{
    if s.len() > 0 && p(s[0]) {
        trim_start_by(s.drop_first(), p)
    } else {
        s
    }
}

/// `s` without the white space at either end.
pub open spec fn trimmed(s: Seq<char>) -> Seq<char> {
    trim_start_by(trim_end_by(s, |c: char| white_space(c)), |c: char| white_space(c))
}

/// Cutting `s` after `end` is trimming its end, when all behind satisfies `p` and the last kept
/// character does not.
pub proof fn lemma_trim_end(s: Seq<char>, p: spec_fn(char) -> bool, end: int)
    requires
        0 <= end <= s.len(),
        forall|j: int| end <= j < s.len() ==> p(#[trigger] s[j]),
        end > 0 ==> !p(s[end - 1]),
    ensures
        trim_end_by(s, p) == s.take(end),
    decreases s.len(),
{
    if end < s.len() {
        assert(p(s[s.len() - 1]));
        let shorter = s.drop_last();
        assert forall|j: int| end <= j < shorter.len() implies p(#[trigger] shorter[j]) by {
            assert(shorter[j] == s[j]);
        }
        lemma_trim_end(shorter, p, end);
        assert(shorter.take(end) =~= s.take(end));
    } else {
        assert(s.take(end) =~= s);
    }
}

/// Cutting `s` before `start` is trimming its start, when all before satisfies `p` and the first
/// kept character does not.
pub proof fn lemma_trim_start(s: Seq<char>, p: spec_fn(char) -> bool, start: int)
    requires
        0 <= start <= s.len(),
        forall|j: int| 0 <= j < start ==> p(#[trigger] s[j]),
        start < s.len() ==> !p(s[start]),
    ensures
        trim_start_by(s, p) == s.skip(start),
    decreases s.len(),
{
    if start > 0 {
        assert(p(s[0]));
        let rest = s.drop_first();
        assert forall|j: int| 0 <= j < start - 1 implies p(#[trigger] rest[j]) by {
            assert(rest[j] == s[j + 1]);
        }
        lemma_trim_start(rest, p, start - 1);
        assert(rest.skip(start - 1) =~= s.skip(start));
    } else {
        assert(s.skip(0) =~= s);
    }
}

/// Whether `c` is white space.
pub fn is_white_space(c: char) -> (white: bool)
    ensures
        white == white_space(c),
{
    let v: u32 = c as u32;
    (0x09 <= v && v <= 0x0d) || v == 0x20 || v == 0x85 || v == 0xa0 || v == 0x1680 || (0x2000 <= v
        && v <= 0x200a) || (0x2028 <= v && v <= 0x2029) || v == 0x202f || v == 0x205f || v == 0x3000
}

/// The bounds of what trimming white space leaves of `chars[from..]`.
pub fn trim_bounds(chars: &Vec<char>, from: usize) -> (bounds: (usize, usize))
    requires
        from <= chars@.len(),
    ensures
        from <= bounds.0 <= bounds.1 <= chars@.len(),
        trimmed(chars@.skip(from as int)) == chars@.subrange(bounds.0 as int, bounds.1 as int),
{
    let ghost white = |c: char| white_space(c);
    let ghost s = chars@.skip(from as int);
    let mut end: usize = chars.len();
    while end > from && is_white_space(chars[end - 1])
        invariant
            from <= end <= chars@.len(),
            forall|j: int| end <= j < chars@.len() ==> white_space(#[trigger] chars@[j]),
        decreases end,
    {
        end -= 1;
    }
    let ghost kept = chars@.subrange(from as int, end as int);
    proof {
        assert forall|j: int| end - from <= j < s.len() implies white(#[trigger] s[j]) by {
            assert(s[j] == chars@[j + from]);
        }
        lemma_trim_end(s, white, end - from);
        assert(s.take(end - from) =~= kept);
    }
    let mut start: usize = from;
    while start < end && is_white_space(chars[start])
        invariant
            from <= start <= end <= chars@.len(),
            forall|j: int| from <= j < start ==> white_space(#[trigger] chars@[j]),
        decreases end - start,
    {
        start += 1;
    }
    proof {
        assert forall|j: int| 0 <= j < start - from implies white(#[trigger] kept[j]) by {
            assert(kept[j] == chars@[j + from]);
        }
        lemma_trim_start(kept, white, start - from);
        assert(kept.skip(start - from) =~= chars@.subrange(start as int, end as int));
    }
    (start, end)
}

/// `s` without the white space at either end.
pub fn trim_text(s: &str) -> (text: String)
    ensures
        text@ == trimmed(s@),
{
    let chars = chars_of(s);
    let (start, end) = trim_bounds(&chars, 0);
    assert(chars@.skip(0) =~= s@);
    s.substring_char(start, end).to_owned()
}

/// Whether `needle` starts at index `i` of `hay`.
pub open spec fn occurs_at(hay: Seq<char>, needle: Seq<char>, i: int) -> bool {
    0 <= i && i + needle.len() <= hay.len() && hay.subrange(i, i + needle.len()) == needle
}

/// Whether `needle` occurs in `hay` as a run of characters.
pub open spec fn occurs_in(hay: Seq<char>, needle: Seq<char>) -> bool {
    exists|i: int| #[trigger] occurs_at(hay, needle, i)
}

fn matches_at(hay: &Vec<char>, needle: &Vec<char>, i: usize) -> (found: bool)
    requires
        i + needle@.len() <= hay@.len(),
    ensures
        found == occurs_at(hay@, needle@, i as int),
{
    let total: usize = hay.len();
    let mut j: usize = 0;
    while j < needle.len()
        invariant
            total == hay@.len(),
            i + needle@.len() <= hay@.len(),
            j <= needle@.len(),
            forall|k: int| 0 <= k < j ==> hay@[i + k] == #[trigger] needle@[k],
        decreases needle@.len() - j,
    {
        if hay[i + j] != needle[j] {
            assert(hay@.subrange(i as int, i + needle@.len())[j as int] != needle@[j as int]);
            return false;
        }
        j += 1;
    }
    assert(hay@.subrange(i as int, i + needle@.len()) =~= needle@);
    true
}

/// Whether `needle` occurs in `hay`.
pub fn contains_text(hay: &str, needle: &str) -> (found: bool)
    ensures
        found == occurs_in(hay@, needle@),
{
    let h = chars_of(hay);
    let n = chars_of(needle);
    if n.len() > h.len() {
        return false;
    }
    let last: usize = h.len() - n.len();
    let mut i: usize = 0;
    while i <= last
        invariant
            h@ == hay@,
            n@ == needle@,
            last == h@.len() - n@.len(),
            last < usize::MAX ==> i <= last + 1,
            forall|k: int| 0 <= k < i ==> !#[trigger] occurs_at(h@, n@, k),
        decreases last + 1 - i,
    {
        if matches_at(&h, &n, i) {
            return true;
        }
        if i == last {
            return false;
        }
        i += 1;
    }
    false
}

/// `items` in a row, with `separator` between each two.
pub open spec fn joined(items: Seq<Seq<char>>, separator: Seq<char>) -> Seq<char>
    decreases items.len(),
{
    if items.len() == 0 {
        Seq::empty()
    } else if items.len() == 1 {
        items[0]
    } else {
        joined(items.drop_last(), separator) + separator + items.last()
    }
}

/// `items` in a row, with `separator` between each two.
pub fn join_text(items: &Vec<String>, separator: &str) -> (text: String)
    ensures
        text@ == joined(crate::model::views(items@), separator@),
{
    let ghost all = crate::model::views(items@);
    let mut text = String::new();
    let mut i: usize = 0;
    while i < items.len()
        invariant
            i <= items@.len(),
            all == crate::model::views(items@),
            text@ == joined(all.take(i as int), separator@),
        decreases items@.len() - i,
    {
        proof {
            assert(all.take(i + 1).drop_last() =~= all.take(i as int));
            assert(all.take(i + 1).last() == items@[i as int]@);
        }
        if i > 0 {
            text.append(separator);
        }
        text.append(items[i].as_str());
        proof {
            if i == 0 {
                assert(text@ =~= all[0]);
            }
        }
        i += 1;
    }
    assert(all.take(items@.len() as int) =~= all);
    text
}

} // verus!
