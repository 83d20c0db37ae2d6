//! Text helpers shared by the decoder, the probe and the command renderer:
//! decimal numbers, joining and splitting of character sequences.
use vstd::prelude::*;
use vstd::string::*;
use vstd::utf8::{decode_utf8, valid_utf8};

verus! {

/// Calls `String::from_utf8` of std. Trusted: the bytes become a string exactly when
/// they are valid UTF-8, and the string then holds the characters that they encode.
#[verifier::external_body]
pub(crate) fn text_of_bytes(bytes: Vec<u8>) -> (text: Option<String>)
    ensures
        text is Some <==> valid_utf8(bytes@),
        text matches Some(t) ==> t@ == decode_utf8(bytes@),
{
    String::from_utf8(bytes).ok()
}

/// `String::push` of std appends one character to the end of the string.
pub assume_specification[ std::string::String::push ](s: &mut std::string::String, c: char)
    ensures
        final(s)@ == old(s)@.push(c),
;

/// The character that stands for the decimal digit `d`.
pub open spec fn digit_char(d: nat) -> char
    recommends
        d < 10,
{
    (d + 48) as char
}

/// The value of a decimal digit character.
pub open spec fn digit_value(c: char) -> nat
    recommends
        is_digit(c),
{
    (c as nat - 48) as nat
}

/// True of the ten ASCII digits.
pub open spec fn is_digit(c: char) -> bool {
    '0' <= c <= '9'
}

/// The decimal notation of `n`, without sign or leading zeros.
pub open spec fn decimal(n: nat) -> Seq<char>
    decreases n,
{
    if n < 10 {
        seq![digit_char(n)]
    } else {
        decimal(n / 10).push(digit_char(n % 10))
    }
}

/// The decimal notation of an index.
pub open spec fn decimal_of(n: usize) -> Seq<char> {
    decimal(n as nat)
}

/// Appends the decimal notation of `n` to `out`.
pub fn push_decimal(out: &mut String, n: usize)
    ensures
        final(out)@ == old(out)@ + decimal(n as nat),
    decreases n,
{
    if n >= 10 {
        push_decimal(out, n / 10);
    }
    let d: u8 = (n % 10) as u8;
    let c: char = (d + 48u8) as char;
    out.push(c);
    proof {
        if n < 10 {
            assert(old(out)@.push(c) =~= old(out)@ + decimal(n as nat));
        } else {
            assert((old(out)@ + decimal((n / 10) as nat)).push(c) =~= old(out)@ + decimal(
                n as nat,
            ));
        }
    }
}

/// The decimal notation of `n` as a string.
pub fn decimal_string(n: usize) -> (out: String)
    ensures
        out@ == decimal_of(n),
{
    let mut out = String::new();
    push_decimal(&mut out, n);
    assert(Seq::<char>::empty() + decimal(n as nat) =~= decimal(n as nat));
    out
}

/// True when every character of `s` is an ASCII digit.
pub open spec fn all_digits(s: Seq<char>) -> bool {
    forall|i: int| 0 <= i < s.len() ==> is_digit(#[trigger] s[i])
}

/// The number that a sequence of decimal digits denotes; 0 for the empty sequence.
pub open spec fn digits_value(s: Seq<char>) -> nat
    decreases s.len(),
{
    if s.len() == 0 {
        0
    } else {
        digits_value(s.drop_last()) * 10 + digit_value(s.last())
    }
}

/// The digits of an unsigned number: the text without one leading `+`.
pub open spec fn unsigned_digits(s: Seq<char>) -> Seq<char> {
    if s.len() > 0 && s[0] == '+' {
        s.skip(1)
    } else {
        s
    }
}

/// What an unsigned decimal number in a `usize` reads as: an optional `+`, then one
/// or more ASCII digits whose value fits. Anything else is no number.
pub open spec fn parse_usize_spec(s: Seq<char>) -> Option<usize> {
    let digits = unsigned_digits(s);
    if digits.len() > 0 && all_digits(digits) && digits_value(digits) <= usize::MAX {
        Some(digits_value(digits) as usize)
    } else {
        None
    }
}

/// The value of a prefix of a digit sequence never exceeds the value of a longer prefix.
pub proof fn lemma_digits_value_monotonic(s: Seq<char>, i: int, j: int)
    requires
        0 <= i <= j <= s.len(),
    ensures
        digits_value(s.take(i)) <= digits_value(s.take(j)),
    decreases j - i,
{
    if i < j {
        lemma_digits_value_monotonic(s, i, j - 1);
        assert(s.take(j).drop_last() =~= s.take(j - 1));
    }
}

/// Reads an unsigned decimal number.
pub fn parse_usize(s: &str) -> (result: Option<usize>)
    ensures
        result == parse_usize_spec(s@),
{
    let len = s.unicode_len();
    if len == 0 {
        return None;
    }
    let start: usize = if s.get_char(0) == '+' {
        1
    } else {
        0
    };
    if start == len {
        return None;
    }
    let ghost digits = unsigned_digits(s@);
    assert(digits =~= s@.skip(start as int));
    let mut value: usize = 0;
    let mut i: usize = start;
    while i < len
        invariant
            start <= i <= len,
            len == s@.len(),
            digits == s@.skip(start as int),
            digits == unsigned_digits(s@),
            all_digits(digits.take(i - start)),
            value == digits_value(digits.take(i - start)),
        decreases len - i,
    {
        let c = s.get_char(i);
        assert(digits[i - start] == c);
        if !('0' <= c && c <= '9') {
            assert(!is_digit(digits[i - start]));
            return None;
        }
        let d: usize = (c as u32 - 48) as usize;
        assert(digits.take(i - start + 1).drop_last() =~= digits.take(i - start));
        assert(digits.take(i - start + 1).last() == c);
        if value > (usize::MAX - d) / 10 {
            proof {
                lemma_digits_value_monotonic(digits, i - start + 1, digits.len() as int);
                assert(digits.take(digits.len() as int) =~= digits);
                assert(digits_value(digits.take(i - start + 1)) == value * 10 + d);
            }
            return None;
        }
        value = value * 10 + d;
        i += 1;
    }
    assert(digits.take(i - start) =~= digits);
    Some(value)
}

/// Comparison of string slices in std compares their characters.
pub assume_specification[ <str as PartialEq>::eq ](a: &str, b: &str) -> (same: bool)
    ensures
        same == (a@ == b@),
;

/// True when the two slices hold the same characters.
pub fn same_text(a: &str, b: &str) -> (same: bool)
    ensures
        same == (a@ == b@),
{
    *a == *b
}

/// Appends a string to a list of strings.
pub fn push_string(list: &mut Vec<String>, text: String)
    ensures
        final(list).deep_view() == old(list).deep_view().push(text@),
{
    list.push(text);
    assert(list.deep_view() =~= old(list).deep_view().push(text@));
}

/// A copy of an optional string.
pub fn clone_optional(text: &Option<String>) -> (copy: Option<String>)
    ensures
        copy.deep_view() == text.deep_view(),
{
    match text {
        Some(t) => Some(t.clone()),
        None => None,
    }
}

/// A copy of a list of strings.
pub fn clone_strings(list: &Vec<String>) -> (copy: Vec<String>)
    ensures
        copy.deep_view() == list.deep_view(),
{
    let mut copy: Vec<String> = Vec::new();
    let mut i: usize = 0;
    while i < list.len()
        invariant
            i <= list.len(),
            copy.len() == i,
            forall|k: int| 0 <= k < i ==> copy[k]@ == list[k]@,
        decreases list.len() - i,
    {
        copy.push(list[i].clone());
        i += 1;
    }
    assert(copy.deep_view() =~= list.deep_view());
    copy
}

/// A copy of an optional list of strings.
pub fn clone_optional_strings(list: &Option<Vec<String>>) -> (copy: Option<Vec<String>>)
    ensures
        copy.deep_view() == list.deep_view(),
{
    match list {
        Some(l) => Some(clone_strings(l)),
        None => None,
    }
}

/// The parts joined into one text, with `sep` between neighbours.
pub open spec fn join(parts: Seq<Seq<char>>, sep: Seq<char>) -> Seq<char>
    decreases parts.len(),
{
    if parts.len() == 0 {
        Seq::empty()
    } else if parts.len() == 1 {
        parts[0]
    } else {
        join(parts.drop_last(), sep) + sep + parts.last()
    }
}

/// Joins the strings of `parts`, with `sep` between neighbours.
pub fn join_strings(parts: &Vec<String>, sep: &str) -> (out: String)
    ensures
        out@ == join(parts.deep_view(), sep@),
{
    let mut out = String::new();
    let ghost texts = parts.deep_view();
    let mut i: usize = 0;
    while i < parts.len()
        invariant
            i <= parts.len(),
            texts == parts.deep_view(),
            out@ == join(texts.take(i as int), sep@),
        decreases parts.len() - i,
    {
        proof {
            assert(texts.take(i + 1).drop_last() =~= texts.take(i as int));
            assert(texts.take(i + 1).last() == parts[i as int]@);
        }
        if i > 0 {
            out.append(sep);
        }
        out.append(parts[i].as_str());
        proof {
            if i == 0 {
                assert(out@ =~= parts[0]@);
            }
        }
        i += 1;
    }
    assert(texts.take(i as int) =~= texts);
    out
}

/// The index of the first `c` at or after `from`; the length of the text when there
/// is none.
pub open spec fn index_from(text: Seq<char>, c: char, from: int) -> int
    decreases text.len() - from,
{
    if from < 0 || from >= text.len() {
        text.len() as int
    } else if text[from] == c {
        from
    } else {
        index_from(text, c, from + 1)
    }
}

/// The line that runs from `from` to `end`: where a newline ends it, a carriage
/// return before that newline is no part of it.
pub open spec fn line_text(text: Seq<char>, from: int, end: int) -> Seq<char> {
    if end < text.len() && from < end && text[end - 1] == '\r' {
        text.subrange(from, end - 1)
    } else {
        text.subrange(from, end)
    }
}

/// The lines of the text from `from` on.
pub open spec fn lines_from(text: Seq<char>, from: int) -> Seq<Seq<char>>
    decreases text.len() - from,
{
    if from < 0 || from >= text.len() {
        Seq::empty()
    } else {
        let end = index_from(text, '\n', from);
        if from <= end < text.len() {
            seq![line_text(text, from, end)] + lines_from(text, end + 1)
        } else {
            seq![line_text(text, from, end)]
        }
    }
}

/// The lines of a text. A line ends at a newline, or at a carriage return and a
/// newline, or with the text; a text that ends in a newline has no empty last line.
pub open spec fn lines(text: Seq<char>) -> Seq<Seq<char>> {
    lines_from(text, 0)
}

/// The second of the fields that single spaces part the line into.
pub open spec fn second_field(line: Seq<char>) -> Option<Seq<char>> {
    let first = index_from(line, ' ', 0);
    if first < line.len() {
        Some(line.subrange(first + 1, index_from(line, ' ', first + 1)))
    } else {
        None
    }
}

fn scan(text: &str, c: char, from: usize) -> (at: usize)
    requires
        from <= text@.len(),
    ensures
        at == index_from(text@, c, from as int),
        from <= at <= text@.len(),
{
    let len = text.unicode_len();
    let mut at: usize = from;
    while at < len
        invariant
            from <= at <= len,
            len == text@.len(),
            index_from(text@, c, from as int) == index_from(text@, c, at as int),
        decreases len - at,
    {
        if text.get_char(at) == c {
            return at;
        }
        at += 1;
    }
    at
}

/// Splits a text into its lines.
pub fn split_lines(text: &str) -> (list: Vec<String>)
    ensures
        list.deep_view() == lines(text@),
{
    let len = text.unicode_len();
    let mut list: Vec<String> = Vec::new();
    let mut from: usize = 0;
    assert(list.deep_view() =~= Seq::empty());
    while from < len
        invariant
            from <= len,
            len == text@.len(),
            lines(text@) == list.deep_view() + lines_from(text@, from as int),
        decreases len - from,
    {
        let end = scan(text, '\n', from);
        let stop: usize = if end < len && from < end && text.get_char(end - 1) == '\r' {
            end - 1
        } else {
            end
        };
        let line = text.substring_char(from, stop);
        let ghost before = list.deep_view();
        list.push(String::from_str(line));
        proof {
            let line = line_text(text@, from as int, end as int);
            assert(list.deep_view() =~= before.push(line));
            if end < len {
                assert(before + (seq![line] + lines_from(text@, end + 1)) =~= before.push(line)
                    + lines_from(text@, end + 1));
            } else {
                assert(before + seq![line] =~= before.push(line) + lines_from(text@, len as int));
            }
        }
        if end < len {
            from = end + 1;
        } else {
            from = len;
        }
    }
    assert(list.deep_view() + Seq::<Seq<char>>::empty() =~= list.deep_view());
    list
}

/// The second of the fields that single spaces part the line into.
pub fn second_field_of(line: &str) -> (field: Option<String>)
    ensures
        field.deep_view() == second_field(line@),
{
    let len = line.unicode_len();
    let first = scan(line, ' ', 0);
    if first < len {
        let end = scan(line, ' ', first + 1);
        Some(String::from_str(line.substring_char(first + 1, end)))
    } else {
        None
    }
}

} // verus!
