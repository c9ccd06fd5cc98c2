//! Scanning text: finding a run of characters, cutting a text into fields.

use vstd::prelude::*;
use vstd::string::StrSliceExecFns;

use crate::text::push_char;

verus! {

/// Whether `needle` stands in `hay` at the position `at`.
pub open spec fn stands_at(hay: Seq<char>, needle: Seq<char>, at: int) -> bool {
    0 <= at && at + needle.len() <= hay.len() && hay.subrange(at, at + needle.len()) == needle
}

/// The first position at or after `from` at which `needle` stands in `hay`.
pub open spec fn first_occurrence(hay: Seq<char>, needle: Seq<char>, from: int) -> Option<int>
    decreases hay.len() - from,
{
    if from < 0 || from + needle.len() > hay.len() {
        None
    } else if stands_at(hay, needle, from) {
        Some(from)
    } else if from >= hay.len() {
        None
    } else {
        first_occurrence(hay, needle, from + 1)
    }
}

/// The first position at or after `from` at which `text` holds `a` or `b`;
/// the length of `text` where it holds neither from there on.
pub open spec fn first_of_two(text: Seq<char>, a: char, b: char, from: int) -> int
    decreases text.len() - from,
{
    if from < 0 || from >= text.len() {
        text.len() as int
    } else if text[from] == a || text[from] == b {
        from
    } else {
        first_of_two(text, a, b, from + 1)
    }
}

/// The fields of `text` between its separators, in order: every separator
/// ends a field and opens the next. A text without a separator is one
/// field; the empty text is one empty field.
pub open spec fn fields(text: Seq<char>, separator: char) -> Seq<Seq<char>>
    decreases text.len(),
{
    if text.len() == 0 {
        seq![Seq::empty()]
    } else {
        let before = fields(text.drop_last(), separator);
        if text.last() == separator {
            before.push(Seq::empty())
        } else {
            before.update(before.len() - 1, before.last().push(text.last()))
        }
    }
}

/// `text` without the run of `c` at its start.
pub open spec fn without_leading(text: Seq<char>, c: char) -> Seq<char>
    decreases text.len(),
{
    if text.len() > 0 && text[0] == c {
        without_leading(text.skip(1), c)
    } else {
        text
    }
}

/// `text` without the run of `c` at its end.
pub open spec fn without_trailing(text: Seq<char>, c: char) -> Seq<char>
    decreases text.len(),
{
    if text.len() > 0 && text.last() == c {
        without_trailing(text.drop_last(), c)
    } else {
        text
    }
}

/// `text` without the runs of `c` at its start and at its end.
pub open spec fn stripped(text: Seq<char>, c: char) -> Seq<char> {
    without_trailing(without_leading(text, c), c)
}

/// Whether `c` is a decimal digit.
pub open spec fn is_digit(c: char) -> bool {
    '0' <= c <= '9'
}

/// The value of a run of decimal digits; 0 for the empty run.
pub open spec fn digits_value(digits: Seq<char>) -> nat
    decreases digits.len(),
{
    if digits.len() == 0 {
        0
    } else {
        (digits_value(digits.drop_last()) * 10 + (digits.last() as nat - '0' as nat)) as nat
    }
}

/// Whether `text` is a run of at least one decimal digit.
pub open spec fn is_number(text: Seq<char>) -> bool {
    text.len() > 0 && forall|i: int| 0 <= i < text.len() ==> is_digit(#[trigger] text[i])
}

/// The non-negative whole number that `text` denotes in decimal notation: a
/// run of digits, after a plus sign or without a sign. `None` for any other
/// text and for a number above `max`.
pub open spec fn unsigned_of(text: Seq<char>, max: nat) -> Option<nat> {
    let digits = if text.len() > 0 && text[0] == '+' {
        text.skip(1)
    } else {
        text
    };
    if is_number(digits) && digits_value(digits) <= max {
        Some(digits_value(digits))
    } else {
        None
    }
}

/// The whole number that `text` denotes in decimal notation: a run of
/// digits after a plus sign, after a minus sign or without a sign. `None`
/// for any other text and for a number outside `min ..= max`.
pub open spec fn signed_of(text: Seq<char>, min: int, max: int) -> Option<int> {
    if text.len() > 0 && text[0] == '-' {
        if is_number(text.skip(1)) && -digits_value(text.skip(1)) >= min {
            Some(-digits_value(text.skip(1)))
        } else {
            None
        }
    } else if max >= 0 {
        match unsigned_of(text, max as nat) {
            Some(value) => Some(value as int),
            None => None,
        }
    } else {
        None
    }
}

/// The characters of a string.
pub fn to_chars(s: &str) -> (chars: Vec<char>)
    ensures
        chars@ == s@,
{
    let len = s.unicode_len();
    let mut chars: Vec<char> = Vec::new();
    let mut at: usize = 0;
    while at < len
        invariant
            len == s@.len(),
            at <= len,
            chars@ == s@.take(at as int),
        decreases len - at,
    {
        chars.push(s.get_char(at));
        assert(s@.take(at as int).push(s@[at as int]) =~= s@.take(at + 1));
        at += 1;
    }
    assert(s@.take(len as int) =~= s@);
    chars
}

/// The string of the characters `chars[from..to]`.
pub fn to_string(chars: &Vec<char>, from: usize, to: usize) -> (s: String)
    requires
        from <= to <= chars@.len(),
    ensures
        s@ == chars@.subrange(from as int, to as int),
{
    let mut s = String::new();
    let mut at = from;
    while at < to
        invariant
            from <= at <= to <= chars@.len(),
            s@ == chars@.subrange(from as int, at as int),
        decreases to - at,
    {
        push_char(&mut s, chars[at]);
        assert(chars@.subrange(from as int, at as int).push(chars@[at as int]) =~= chars@.subrange(
            from as int,
            at + 1,
        ));
        at += 1;
    }
    s
}

/// Whether `needle` stands in `hay` at `at`.
fn matches_at(hay: &Vec<char>, needle: &Vec<char>, at: usize) -> (matches: bool)
    requires
        at + needle@.len() <= hay@.len(),
    ensures
        matches == stands_at(hay@, needle@, at as int),
{
    let hay_len = hay.len();
    let mut k: usize = 0;
    while k < needle.len()
        invariant
            hay_len == hay@.len(),
            at + needle@.len() <= hay@.len(),
            k <= needle@.len(),
            hay@.subrange(at as int, at + k) == needle@.take(k as int),
        decreases needle@.len() - k,
    {
        if hay[at + k] != needle[k] {
            assert(hay@.subrange(at as int, at + needle@.len())[k as int] != needle@[k as int]);
            return false;
        }
        assert(hay@.subrange(at as int, at + k).push(hay@[at + k]) =~= hay@.subrange(
            at as int,
            at + k + 1,
        ));
        assert(needle@.take(k as int).push(needle@[k as int]) =~= needle@.take(k + 1));
        k += 1;
    }
    assert(needle@.take(needle@.len() as int) =~= needle@);
    true
}

/// The first position at which `needle` stands in `hay`.
pub fn find(hay: &Vec<char>, needle: &Vec<char>) -> (found: Option<usize>)
    ensures
        match found {
            Some(at) => first_occurrence(hay@, needle@, 0) == Some(at as int) && at
                + needle@.len() <= hay@.len() <= usize::MAX,
            None => first_occurrence(hay@, needle@, 0) is None,
        },
{
    if needle.len() > hay.len() {
        return None;
    }
    let last = hay.len() - needle.len();
    let mut at: usize = 0;
    loop
        invariant
            last + needle@.len() == hay@.len() <= usize::MAX,
            at <= last,
            first_occurrence(hay@, needle@, 0) == first_occurrence(hay@, needle@, at as int),
        decreases last - at,
    {
        if matches_at(hay, needle, at) {
            return Some(at);
        }
        if at == last {
            return None;
        }
        at += 1;
    }
}

/// The fields of `text` between its separators.
pub fn split(text: &Vec<char>, separator: char) -> (parts: Vec<Vec<char>>)
    ensures
        parts@.map_values(|part: Vec<char>| part@) == fields(text@, separator),
{
    let mut parts: Vec<Vec<char>> = Vec::new();
    let mut field: Vec<char> = Vec::new();
    let mut at: usize = 0;
    while at < text.len()
        invariant
            at <= text@.len(),
            parts@.map_values(|part: Vec<char>| part@).push(field@) == fields(
                text@.take(at as int),
                separator,
            ),
        decreases text@.len() - at,
    {
        let ghost before = parts@.map_values(|part: Vec<char>| part@).push(field@);
        assert(text@.take(at + 1).drop_last() =~= text@.take(at as int));
        if text[at] == separator {
            parts.push(field);
            field = Vec::new();
            assert(parts@.map_values(|part: Vec<char>| part@).push(field@) =~= before.push(
                Seq::empty(),
            ));
        } else {
            field.push(text[at]);
            assert(parts@.map_values(|part: Vec<char>| part@).push(field@) =~= before.update(
                before.len() - 1,
                before.last().push(text@[at as int]),
            ));
        }
        at += 1;
    }
    assert(text@.take(at as int) =~= text@);
    let ghost before = parts@.map_values(|part: Vec<char>| part@).push(field@);
    parts.push(field);
    assert(parts@.map_values(|part: Vec<char>| part@) =~= before);
    parts
}

/// The first position at or after `from` at which `text` holds `a` or `b`,
/// or the length of `text`.
pub fn find_either(text: &Vec<char>, a: char, b: char, from: usize) -> (at: usize)
    requires
        from <= text@.len(),
    ensures
        at == first_of_two(text@, a, b, from as int),
        from <= at <= text@.len(),
{
    let mut at = from;
    while at < text.len()
        invariant
            from <= at <= text@.len(),
            first_of_two(text@, a, b, from as int) == first_of_two(text@, a, b, at as int),
        decreases text@.len() - at,
    {
        if text[at] == a || text[at] == b {
            return at;
        }
        at += 1;
    }
    at
}

/// The value of the run of digits `text[from..]`, if it is one and the value
/// is at most `max`.
fn parse_digits(text: &Vec<char>, from: usize, max: u64) -> (value: Option<u64>)
    requires
        from <= text@.len(),
    ensures
        value matches Some(v) ==> is_number(text@.skip(from as int)) && v == digits_value(
            text@.skip(from as int),
        ) && v <= max,
        value is None ==> !(is_number(text@.skip(from as int)) && digits_value(
            text@.skip(from as int),
        ) <= max),
{
    let ghost digits = text@.skip(from as int);
    if from == text.len() {
        return None;
    }
    let mut value: u64 = 0;
    let mut at = from;
    assert(digits.take(0) =~= Seq::empty());
    while at < text.len()
        invariant
            from <= at <= text@.len(),
            digits == text@.skip(from as int),
            forall|i: int| 0 <= i < at - from ==> is_digit(#[trigger] digits[i]),
            value == digits_value(digits.take(at - from)),
            value <= max,
        decreases text@.len() - at,
    {
        let c = text[at];
        assert(digits[at - from] == c);
        if c < '0' || c > '9' {
            return None;
        }
        let digit: u64 = (c as u32 - '0' as u32) as u64;
        assert(digits.take(at - from + 1).drop_last() =~= digits.take(at - from));
        assert(digits.take(at - from + 1).last() == c);
        let grown: u128 = value as u128 * 10 + digit as u128;
        assert(digits_value(digits.take(at - from + 1)) == grown);
        if grown > max as u128 {
            proof {
                if is_number(digits) {
                    lemma_digits_grow(digits, at - from + 1, digits.len() as int);
                    assert(digits.take(digits.len() as int) =~= digits);
                }
            }
            return None;
        }
        value = grown as u64;
        at += 1;
    }
    assert(digits.take(at - from) =~= digits);
    Some(value)
}

/// The value of a run of digits is at least the value of every run that it
/// starts with.
proof fn lemma_digits_grow(digits: Seq<char>, shorter: int, longer: int)
    requires
        0 <= shorter <= longer <= digits.len(),
        forall|i: int| 0 <= i < longer ==> is_digit(#[trigger] digits[i]),
    ensures
        digits_value(digits.take(shorter)) <= digits_value(digits.take(longer)),
    decreases longer - shorter,
{
    if shorter < longer {
        lemma_digits_grow(digits, shorter, longer - 1);
        assert(digits.take(longer).drop_last() =~= digits.take(longer - 1));
        assert(digits.take(longer).last() == digits[longer - 1]);
    }
}

/// Reads a non-negative whole number of at most `max`.
pub fn parse_unsigned(text: &Vec<char>, max: u64) -> (value: Option<u64>)
    ensures
        match value {
            Some(v) => unsigned_of(text@, max as nat) == Some(v as nat),
            None => unsigned_of(text@, max as nat) is None,
        },
{
    let from: usize = if text.len() > 0 && text[0] == '+' {
        1
    } else {
        0
    };
    assert(text@.skip(0) =~= text@);
    parse_digits(text, from, max)
}

/// Reads a whole number within `min ..= max`.
pub fn parse_signed(text: &Vec<char>, min: i64, max: i64) -> (value: Option<i64>)
    requires
        min <= 0 <= max,
        min > i64::MIN,
    ensures
        match value {
            Some(v) => signed_of(text@, min as int, max as int) == Some(v as int),
            None => signed_of(text@, min as int, max as int) is None,
        },
{
    if text.len() > 0 && text[0] == '-' {
        match parse_digits(text, 1, (-min) as u64) {
            Some(magnitude) => Some(-(magnitude as i64)),
            None => None,
        }
    } else {
        match parse_unsigned(text, max as u64) {
            Some(value) => Some(value as i64),
            None => None,
        }
    }
}

/// Where `text` without the runs of `c` at its start and at its end
/// begins and ends.
pub fn strip(text: &Vec<char>, c: char) -> (range: (usize, usize))
    ensures
        range.0 <= range.1 <= text@.len(),
        text@.subrange(range.0 as int, range.1 as int) == stripped(text@, c),
{
    let mut lo: usize = 0;
    assert(text@.skip(0) =~= text@);
    while lo < text.len() && text[lo] == c
        invariant
            lo <= text@.len(),
            without_leading(text@, c) == without_leading(text@.skip(lo as int), c),
        decreases text@.len() - lo,
    {
        assert(text@.skip(lo as int).skip(1) =~= text@.skip(lo + 1));
        lo += 1;
    }
    assert(without_leading(text@, c) == text@.skip(lo as int));
    let ghost rest = text@.skip(lo as int);
    let mut hi: usize = text.len();
    assert(rest.take(hi - lo) =~= rest);
    while hi > lo && text[hi - 1] == c
        invariant
            lo <= hi <= text@.len(),
            rest == text@.skip(lo as int),
            without_trailing(rest, c) == without_trailing(rest.take(hi - lo), c),
        decreases hi,
    {
        assert(rest.take(hi - lo).drop_last() =~= rest.take(hi - lo - 1));
        hi -= 1;
    }
    assert(rest.take(hi - lo) =~= text@.subrange(lo as int, hi as int));
    (lo, hi)
}

} // verus!
