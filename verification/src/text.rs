//! The string operations of the standard library that the engine relies on.

use vstd::prelude::*;
use vstd::string::StringExecFns;

verus! {

/// The lowercase form of a string, as `str::to_lowercase` computes it from
/// the Unicode case mappings.
pub uninterp spec fn lowercased(s: Seq<char>) -> Seq<char>;

/// A string without its leading and trailing whitespace, as `str::trim`
/// computes it from the Unicode property `White_Space`.
pub uninterp spec fn trimmed(s: Seq<char>) -> Seq<char>;

/// Whether `needle` occurs in `hay` as a run of consecutive characters.
pub open spec fn occurs_in(needle: Seq<char>, hay: Seq<char>) -> bool {
    exists|at: int|
        0 <= at <= hay.len() - needle.len() && #[trigger] hay.subrange(at, at + needle.len())
            == needle
}

/// `text` with every occurrence of the character `from` replaced by `to`.
pub open spec fn replaced(text: Seq<char>, from: char, to: Seq<char>) -> Seq<char>
    decreases text.len(),
{
    if text.len() == 0 {
        Seq::empty()
    } else {
        replaced(text.drop_last(), from, to) + (if text.last() == from {
            to
        } else {
            seq![text.last()]
        })
    }
}

/// The decimal digit `d` as a character.
pub open spec fn digit_char(d: nat) -> char {
    if d == 0 {
        '0'
    } else if d == 1 {
        '1'
    } else if d == 2 {
        '2'
    } else if d == 3 {
        '3'
    } else if d == 4 {
        '4'
    } else if d == 5 {
        '5'
    } else if d == 6 {
        '6'
    } else if d == 7 {
        '7'
    } else if d == 8 {
        '8'
    } else {
        '9'
    }
}

/// A number in decimal notation, without leading zeros.
pub open spec fn decimal(n: nat) -> Seq<char>
    decreases n,
{
    if n < 10 {
        seq![digit_char(n)]
    } else {
        decimal(n / 10).push(digit_char(n % 10))
    }
}

/// A number in decimal notation, with a minus sign if it is negative.
pub open spec fn signed_decimal(i: int) -> Seq<char> {
    if i < 0 {
        seq!['-'] + decimal((-i) as nat)
    } else {
        decimal(i as nat)
    }
}

/// Whether two strings hold the same characters.
///
/// Calls `==` on `str`, which compares the two strings character by
/// character.
#[verifier::external_body]
pub(crate) fn str_eq(a: &str, b: &str) -> (same: bool)
    ensures
        same == (a@ == b@),
{
    a == b
}

/// The lowercase form of `s`.
///
/// Calls `str::to_lowercase`. The contract only names the result: it is a
/// function of the characters of `s` alone.
#[verifier::external_body]
pub(crate) fn lowercase(s: &str) -> (lowered: String)
    ensures
        lowered@ == lowercased(s@),
{
    s.to_lowercase()
}

/// Whether `needle` occurs in `hay`.
///
/// Calls `str::contains` with a string pattern, which returns `true` exactly
/// when the pattern matches a sub-slice of the string.
#[verifier::external_body]
pub(crate) fn str_contains(hay: &str, needle: &str) -> (found: bool)
    ensures
        found == occurs_in(needle@, hay@),
{
    hay.contains(needle)
}

/// `text` with every `from` replaced by `to`.
///
/// Calls `str::replace` with a character pattern, which replaces each
/// occurrence of the character by the given string and keeps all else.
#[verifier::external_body]
pub(crate) fn replace_char(text: &str, from: char, to: &str) -> (out: String)
    ensures
        out@ == replaced(text@, from, to@),
{
    text.replace(from, to)
}

/// `s` without its leading and trailing whitespace.
///
/// Calls `str::trim`. The contract only names the result: it is a function
/// of the characters of `s` alone.
#[verifier::external_body]
pub(crate) fn trim(s: &str) -> (out: String)
    ensures
        out@ == trimmed(s@),
{
    String::from(s.trim())
}

/// Appends `c` to `s`.
///
/// Calls `String::push`, which appends the character to the end of the
/// string.
#[verifier::external_body]
pub(crate) fn push_char(s: &mut String, c: char)
    ensures
        final(s)@ == old(s)@.push(c),
{
    s.push(c)
}

/// The last component of a path, if it has one.
///
/// Calls `Path::file_name`. How a path is split into components depends on
/// the platform, so nothing is claimed of the result.
#[verifier::external_body]
pub(crate) fn path_file_name(path: &str) -> (name: Option<String>) {
    match std::path::Path::new(path).file_name() {
        Some(name) => Some(name.to_string_lossy().into_owned()),
        None => None,
    }
}

/// The one-character string of a decimal digit.
fn digit_str(d: u64) -> (s: &'static str)
    requires
        d < 10,
    ensures
        s@ == seq![digit_char(d as nat)],
{
    proof {
        reveal_strlit("0");
        reveal_strlit("1");
        reveal_strlit("2");
        reveal_strlit("3");
        reveal_strlit("4");
        reveal_strlit("5");
        reveal_strlit("6");
        reveal_strlit("7");
        reveal_strlit("8");
        reveal_strlit("9");
    }
    let s = if d == 0 {
        "0"
    } else if d == 1 {
        "1"
    } else if d == 2 {
        "2"
    } else if d == 3 {
        "3"
    } else if d == 4 {
        "4"
    } else if d == 5 {
        "5"
    } else if d == 6 {
        "6"
    } else if d == 7 {
        "7"
    } else if d == 8 {
        "8"
    } else {
        "9"
    };
    assert(s@ =~= seq![digit_char(d as nat)]);
    s
}

/// Appends `n` in decimal notation to `buf`.
pub fn push_decimal(buf: &mut String, n: u64)
    ensures
        final(buf)@ == old(buf)@ + decimal(n as nat),
    decreases n,
{
    if n >= 10 {
        push_decimal(buf, n / 10);
    }
    buf.append(digit_str(n % 10));
    assert(buf@ =~= old(buf)@ + decimal(n as nat));
}

/// Appends `i` in decimal notation to `buf`, with a minus sign if it is
/// negative.
pub fn push_signed_decimal(buf: &mut String, i: i64)
    ensures
        final(buf)@ == old(buf)@ + signed_decimal(i as int),
{
    if i < 0 {
        proof {
            reveal_strlit("-");
        }
        assert("-"@ =~= seq!['-']);
        buf.append("-");
        let magnitude: u64 = if i == i64::MIN {
            9_223_372_036_854_775_808
        } else {
            (-i) as u64
        };
        push_decimal(buf, magnitude);
        assert(buf@ =~= old(buf)@ + signed_decimal(i as int));
    } else {
        push_decimal(buf, i as u64);
    }
}

} // verus!
