//! The few pieces of text formatting that reports and refusals need.

use vstd::prelude::*;
use vstd::string::{StrSliceExecFns, StringExecFns};

verus! {

/// `String::push` puts one character behind the text.
pub assume_specification[ std::string::String::push ](
    text: &mut std::string::String,
    c: char,
)
    ensures
        final(text)@ == old(text)@.push(c),
;

/// What `{:?}` prints for a string slice: the text between double quotes, with the characters
/// escaped that the standard library does not print as they are.
pub uninterp spec fn quoted(text: Seq<char>) -> Seq<char>;

/// Runs `<str as std::fmt::Debug>::fmt`, which is what `{:?}` calls. Its result depends on the
/// text alone; which characters it escapes is left to the standard library.
#[verifier::external_body]
pub(crate) fn quote(text: &str) -> (res: String)
    ensures
        res@ == quoted(text@),
{
    format!("{text:?}")
}

/// The digit character of a number below ten.
pub open spec fn digit(d: nat) -> char {
    ('0' as nat + d) as char
}

/// The decimal digits of `n`, most significant first and without leading zeros.
pub open spec fn decimal(n: nat) -> Seq<char>
    decreases n,
{
    if n < 10 {
        seq![digit(n)]
    } else {
        decimal(n / 10).push(digit(n % 10))
    }
}

fn digit_char(d: u64) -> (res: char)
    requires
        d < 10,
    ensures
        res == digit(d as nat),
{
    match d {
        0 => '0',
        1 => '1',
        2 => '2',
        3 => '3',
        4 => '4',
        5 => '5',
        6 => '6',
        7 => '7',
        8 => '8',
        _ => '9',
    }
}

/// Writes `n` in decimal behind `out`.
pub(crate) fn push_decimal(out: &mut String, n: u64)
    ensures
        final(out)@ == old(out)@ + decimal(n as nat),
    decreases n,
{
    if n >= 10 {
        push_decimal(out, n / 10);
    }
    out.push(digit_char(n % 10));
}

/// The characters of a text, one after the other.
pub(crate) fn chars_of(text: &str) -> (res: Vec<char>)
    ensures
        res@ == text@,
{
    let mut out: Vec<char> = Vec::new();
    for c in it: text.chars()
        invariant
            it.seq() == text@,
            out@ == text@.take(it.index()),
    {
        out.push(c);
        assert(out@ == text@.take(it.index() + 1));
    }
    assert(out@ == text@);
    out
}

/// Whether `prefix` stands in `chars` at position `from`.
pub(crate) fn stands_at(chars: &Vec<char>, from: usize, prefix: &str) -> (res: bool)
    requires
        from <= chars@.len(),
    ensures
        res == prefix@.is_prefix_of(chars@.skip(from as int)),
{
    let prefix_chars = chars_of(prefix);
    let len: usize = chars.len();
    if prefix_chars.len() > len - from {
        return false;
    }
    let mut i: usize = 0;
    while i < prefix_chars.len()
        invariant
            prefix_chars@ == prefix@,
            from + prefix@.len() <= chars@.len() <= usize::MAX,
            i <= prefix@.len(),
            forall|k: int| 0 <= k < i ==> prefix@[k] == chars@[from + k],
        decreases prefix@.len() - i,
    {
        if prefix_chars[i] != chars[from + i] {
            assert(chars@.skip(from as int)[i as int] == chars@[from + i]);
            return false;
        }
        i = i + 1;
    }
    assert(prefix@ == chars@.skip(from as int).subrange(0, prefix@.len() as int));
    true
}

/// Whether two texts are the same.
pub(crate) fn same_text(a: &str, b: &str) -> (res: bool)
    ensures
        res == (a@ == b@),
{
    let chars = chars_of(a);
    assert(chars@.skip(0) == a@);
    let begins = stands_at(&chars, 0, b);
    let same = begins && chars.len() == b.unicode_len();
    assert(same ==> a@ == b@);
    same
}

/// The texts of several lines.
pub open spec fn texts(lines: Seq<String>) -> Seq<Seq<char>> {
    lines.map_values(|line: String| line@)
}

/// Puts one more line behind `lines`.
pub(crate) fn push_line(lines: &mut Vec<String>, line: String)
    ensures
        texts(final(lines)@) == texts(old(lines)@).push(line@),
{
    lines.push(line);
    assert(texts(lines@) == texts(old(lines)@).push(line@));
}

/// One text behind the other.
pub(crate) fn joined(a: &str, b: &str) -> (res: String)
    ensures
        res@ == a@ + b@,
{
    let mut out = a.to_owned();
    out.append(b);
    out
}

/// The number that a row of decimal digits stands for.
pub open spec fn number_of(digits: Seq<char>) -> int
    decreases digits.len(),
{
    if digits.len() == 0 {
        0
    } else {
        10 * number_of(digits.drop_last()) + (digits.last() as int - '0' as int)
    }
}

/// A decimal text reads back as the number it was made from. It holds digits only, and begins with
/// a zero only for the number zero.
pub proof fn law_decimal_reads_back(n: nat)
    ensures
        number_of(decimal(n)) == n,
        decimal(n).len() > 0,
        forall|i: int| 0 <= i < decimal(n).len() ==> '0' <= #[trigger] decimal(n)[i] <= '9',
        decimal(n)[0] == '0' ==> n == 0,
    decreases n,
{
    if n >= 10 {
        law_decimal_reads_back(n / 10);
        assert(decimal(n).drop_last() == decimal(n / 10));
        assert(decimal(n)[0] == decimal(n / 10)[0]);
    } else {
        assert(decimal(n).drop_last() == Seq::<char>::empty());
        assert(number_of(Seq::<char>::empty()) == 0);
    }
}

/// The texts of several lines are the lines' own, one for one.
pub proof fn law_texts_are_the_lines(lines: Seq<String>, i: int)
    ensures
        texts(lines).len() == lines.len(),
        0 <= i < lines.len() ==> texts(lines)[i] == lines[i]@,
{
}

/// The text of an optional string.
pub open spec fn text_of(line: Option<String>) -> Option<Seq<char>> {
    match line {
        Some(line) => Some(line@),
        None => None,
    }
}

/// An optional string has a text exactly if it is there, and the text is its own.
pub proof fn law_text_of_is_the_line(line: Option<String>)
    ensures
        text_of(line) is Some <==> line is Some,
        line matches Some(line) ==> text_of(Some(line)) == Some(line@),
{
}

} // verus!
