//! Conversions between strings, sequences of characters and numbers.

use vstd::prelude::*;

verus! {

/// `String::push` of the standard library: the string grows by exactly the
/// given character at its end.
pub assume_specification[ String::push ](s: &mut String, ch: char)
    ensures
        final(s)@ == old(s)@.push(ch),
;

/// Collects the characters of `text` in order.
pub fn chars_of(text: &str) -> (out: Vec<char>)
    ensures
        out@ == text@,
{
    broadcast use vstd::string::group_string_axioms;

    let mut out: Vec<char> = Vec::new();
    for c in it: text.chars()
        invariant
            it.seq() == text@,
            out@ == it.seq().take(it.index() as int),
    {
        out.push(c);
    }
    out
}

/// Builds the string whose characters are `chars`, in order.
pub fn string_of(chars: &Vec<char>) -> (out: String)
    ensures
        out@ == chars@,
{
    let mut out = String::new();
    let mut i: usize = 0;
    while i < chars.len()
        invariant
            i <= chars.len(),
            out@ == chars@.take(i as int),
        decreases chars.len() - i,
    {
        out.push(chars[i]);
        i += 1;
    }
    out
}

/// The first `count` characters of `text`, or all of it where it has fewer.
pub open spec fn spec_prefix(text: Seq<char>, count: nat) -> Seq<char> {
    if text.len() <= count {
        text
    } else {
        text.take(count as int)
    }
}

/// Cuts `text` down to its first `count` characters. Characters are counted,
/// not bytes, so a multi-byte character is never cut in two.
pub fn prefix(text: &str, count: usize) -> (out: String)
    ensures
        out@ == spec_prefix(text@, count as nat),
        text@.len() <= count ==> out@ == text@,
        out@.len() <= count,
{
    let chars = chars_of(text);
    let end: usize = if chars.len() <= count { chars.len() } else { count };
    let mut out = String::new();
    let mut i: usize = 0;
    while i < end
        invariant
            i <= end <= chars.len(),
            out@ == chars@.take(i as int),
        decreases end - i,
    {
        out.push(chars[i]);
        i += 1;
    }
    out
}

/// The character that writes the digit `d`.
pub open spec fn spec_digit(d: nat) -> char
    recommends
        d < 10,
{
    (48 + d) as u8 as char
}

/// The decimal numeral of `n`: no sign, no leading zero, `"0"` for zero.
pub open spec fn spec_decimal(n: nat) -> Seq<char>
    decreases n,
{
    if n < 10 {
        seq![spec_digit(n)]
    } else {
        spec_decimal(n / 10).push(spec_digit(n % 10))
    }
}

fn digit(d: u64) -> (c: char)
    requires
        d < 10,
    ensures
        c == spec_digit(d as nat),
{
    let code: u8 = 48u8 + (d as u8);
    code as char
}

fn push_decimal(out: &mut String, n: u64)
    ensures
        final(out)@ == old(out)@ + spec_decimal(n as nat),
    decreases n,
{
    if n < 10 {
        out.push(digit(n));
    } else {
        push_decimal(out, n / 10);
        out.push(digit(n % 10));
    }
}

/// Writes `n` as a decimal numeral.
pub fn decimal(n: u64) -> (out: String)
    ensures
        out@ == spec_decimal(n as nat),
{
    let mut out = String::new();
    push_decimal(&mut out, n);
    out
}

/// The decimal numeral of `n`, with a minus sign before it where `n` is negative.
pub open spec fn spec_signed_decimal(n: int) -> Seq<char> {
    if n < 0 {
        seq!['-'] + spec_decimal((-n) as nat)
    } else {
        spec_decimal(n as nat)
    }
}

/// Writes `n` as a decimal numeral, with a minus sign where it is negative.
pub fn signed_decimal(n: i64) -> (out: String)
    ensures
        out@ == spec_signed_decimal(n as int),
{
    let mut out = String::new();
    if n < 0 {
        out.push('-');
        let magnitude: u64 = if n == i64::MIN {
            9223372036854775808u64
        } else {
            (-n) as u64
        };
        push_decimal(&mut out, magnitude);
    } else {
        push_decimal(&mut out, n as u64);
    }
    out
}

/// Whether `text` ends with `suffix`.
pub open spec fn spec_ends_with(text: Seq<char>, suffix: Seq<char>) -> bool {
    suffix.len() <= text.len() && text.subrange(text.len() - suffix.len(), text.len() as int)
        == suffix
}

/// Whether `needle` stands at place `at` of `text`.
pub open spec fn spec_occurs_at(text: Seq<char>, needle: Seq<char>, at: int) -> bool {
    0 <= at && at + needle.len() <= text.len() && text.subrange(at, at + needle.len()) == needle
}

/// Whether `needle` stands somewhere in `text`.
pub open spec fn spec_contains(text: Seq<char>, needle: Seq<char>) -> bool {
    exists|at: int| spec_occurs_at(text, needle, at)
}

fn occurs_at(text: &Vec<char>, needle: &Vec<char>, at: usize) -> (found: bool)
    requires
        at + needle@.len() <= text@.len(),
    ensures
        found == spec_occurs_at(text@, needle@, at as int),
{
    let len: usize = text.len();
    let mut j: usize = 0;
    while j < needle.len()
        invariant
            j <= needle@.len(),
            len == text@.len(),
            at + needle@.len() <= len,
            forall|k: int| 0 <= k < j ==> text@[at + k] == needle@[k],
        decreases needle.len() - j,
    {
        if text[at + j] != needle[j] {
            return false;
        }
        j += 1;
    }
    assert(text@.subrange(at as int, at + needle@.len()) =~= needle@);
    true
}

/// Tells whether `text` ends with `suffix`, character by character.
pub fn ends_with(text: &str, suffix: &str) -> (yes: bool)
    ensures
        yes == spec_ends_with(text@, suffix@),
{
    let all = chars_of(text);
    let end = chars_of(suffix);
    if end.len() > all.len() {
        false
    } else {
        occurs_at(&all, &end, all.len() - end.len())
    }
}

/// Tells whether `needle` stands somewhere in `text`, character by character.
/// The empty text stands everywhere.
pub fn contains(text: &str, needle: &str) -> (yes: bool)
    ensures
        yes == spec_contains(text@, needle@),
{
    let all = chars_of(text);
    let sought = chars_of(needle);
    if sought.len() > all.len() {
        return false;
    }
    if sought.len() == 0 {
        assert(all@.subrange(0, 0) =~= sought@);
        assert(spec_occurs_at(all@, sought@, 0));
        return true;
    }
    let last: usize = all.len() - sought.len();
    let mut at: usize = 0;
    while at <= last
        invariant
            at <= last + 1,
            all@ == text@,
            sought@ == needle@,
            sought@.len() > 0,
            last + sought@.len() == all@.len(),
            all@.len() <= usize::MAX,
            forall|k: int| 0 <= k < at ==> !spec_occurs_at(all@, sought@, k),
        decreases last + 1 - at,
    {
        if occurs_at(&all, &sought, at) {
            return true;
        }
        at += 1;
    }
    false
}

/// The lower-case form that `str::to_lowercase` gives a text.
pub uninterp spec fn lowercase_of(text: Seq<char>) -> Seq<char>;

/// `str::to_lowercase` of the standard library: the text with each character
/// replaced by its lower-case form under Unicode's rules, which depend on the
/// text alone.
#[verifier::external_body]
pub(crate) fn to_lowercase(text: &str) -> (lowered: String)
    ensures
        lowered@ == lowercase_of(text@),
{
    text.to_lowercase()
}

} // verus!
