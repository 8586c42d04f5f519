//! Text building blocks: characters of a string, decimal numbers, joining.

use vstd::prelude::*;
use vstd::string::*;

verus! {

/// The character that stands for a decimal digit.
pub open spec fn digit_char(d: nat) -> char {
    if d == 0 {
        '0'
    } else if d == 1 {
        '1'
    } else if d == 2 {
        '2'
    } else if d == 3 {
        '3'
    } else if d == 4 {
        '4'
    } else if d == 5 {
        '5'
    } else if d == 6 {
        '6'
    } else if d == 7 {
        '7'
    } else if d == 8 {
        '8'
    } else {
        '9'
    }
}

/// The decimal numeral of `n`: no sign, no leading zero, `"0"` for zero.
pub open spec fn decimal(n: nat) -> Seq<char>
    decreases n,
{
    if n < 10 {
        seq![digit_char(n)]
    } else {
        decimal(n / 10).push(digit_char(n % 10))
    }
}

/// `items` written one after the other with `sep` between neighbours.
pub open spec fn joined(items: Seq<Seq<char>>, sep: Seq<char>) -> Seq<char>
    decreases items.len(),
{
    if items.len() == 0 {
        Seq::empty()
    } else if items.len() == 1 {
        items[0]
    } else {
        joined(items.drop_last(), sep) + sep + items.last()
    }
}

/// Each of `items` with `before` in front of it and `after` behind it, one
/// after the other.
pub open spec fn wrapped(items: Seq<Seq<char>>, before: Seq<char>, after: Seq<char>) -> Seq<char>
    decreases items.len(),
{
    if items.len() == 0 {
        Seq::empty()
    } else {
        wrapped(items.drop_last(), before, after) + before + items.last() + after
    }
}

/// `s` with every occurrence of `from` replaced by `to`.
pub open spec fn replaced(s: Seq<char>, from: char, to: char) -> Seq<char> {
    Seq::new(
        s.len(),
        |i: int|
            if s[i] == from {
                to
            } else {
                s[i]
            },
    )
}

/// Where the line that starts at `from` ends: the index of the next line
/// feed at or after `from`, or the length of `s` where there is none.
pub open spec fn line_end(s: Seq<char>, from: nat) -> nat
    decreases s.len() - from,
{
    if from >= s.len() {
        s.len()
    } else if s[from as int] == '\n' {
        from
    } else {
        line_end(s, from + 1)
    }
}

/// The text of the line `s[from..end]`, where `end` is its end as given by
/// [`line_end`]. A carriage return directly before the line feed belongs to
/// the line break; a last line without a line feed is taken as it is.
pub open spec fn line_text(s: Seq<char>, from: nat, end: nat) -> Seq<char> {
    if from < end < s.len() && s[end - 1] == '\r' {
        s.subrange(from as int, end - 1)
    } else {
        s.subrange(from as int, end as int)
    }
}

/// The lines of `s` from index `from` on.
pub open spec fn lines_from(s: Seq<char>, from: nat) -> Seq<Seq<char>>
    decreases s.len() + 1 - from,
    via lines_from_terminates
{
    if from >= s.len() {
        Seq::empty()
    } else {
        let end = line_end(s, from);
        seq![line_text(s, from, end)] + lines_from(s, end + 1)
    }
}

#[via_fn]
proof fn lines_from_terminates(s: Seq<char>, from: nat) {
    if from < s.len() {
        lemma_line_end_bounds(s, from);
    }
}

/// The lines of `s`: the pieces between line feeds, each without its line
/// break. A line feed at the very end starts no further line, so the empty
/// string has no lines and `"a\n"` has one.
pub open spec fn lines(s: Seq<char>) -> Seq<Seq<char>> {
    lines_from(s, 0)
}

/// A line ends at or after its start and within the string.
pub proof fn lemma_line_end_bounds(s: Seq<char>, from: nat)
    requires
        from <= s.len(),
    ensures
        from <= line_end(s, from) <= s.len(),
        line_end(s, from) < s.len() ==> s[line_end(s, from) as int] == '\n',
        forall|k: int| from <= k < line_end(s, from) ==> s[k] != '\n',
    decreases s.len() - from,
{
    if from < s.len() && s[from as int] != '\n' {
        lemma_line_end_bounds(s, from + 1);
    }
}

/// `String::push`: the string afterwards is the string before with `c`
/// appended as its last character.
#[verifier::external_body]
pub(crate) fn push_char(s: &mut String, c: char)
    ensures
        final(s)@ == old(s)@.push(c),
{
    s.push(c)
}

/// The characters of `s`, in order.
pub fn chars_of(s: &str) -> (chars: Vec<char>)
    ensures
        chars@ == s@,
{
    let mut chars: Vec<char> = Vec::new();
    for c in it: s.chars()
        invariant
            it.seq() == s@,
            chars@ == it.seq().take(it.index()),
    {
        chars.push(c);
    }
    chars
}

/// Appends the characters `chars[from..to]` to `out`.
pub fn push_chars(out: &mut String, chars: &Vec<char>, from: usize, to: usize)
    requires
        from <= to <= chars@.len(),
    ensures
        final(out)@ == old(out)@ + chars@.subrange(from as int, to as int),
{
    let mut i: usize = from;
    while i < to
        invariant
            from <= i <= to <= chars@.len(),
            out@ == old(out)@ + chars@.subrange(from as int, i as int),
        decreases to - i,
    {
        push_char(out, chars[i]);
        i += 1;
    }
}

/// The lines of `text` as strings.
pub fn split_lines(text: &str) -> (out: Vec<String>)
    ensures
        out.deep_view() == lines(text@),
{
    let chars = chars_of(text);
    let n = chars.len();
    let mut out: Vec<String> = Vec::new();
    let mut start: usize = 0;
    while start < n
        invariant
            n == chars@.len(),
            chars@ == text@,
            start <= n,
            out.deep_view() + lines_from(text@, start as nat) == lines(text@),
        decreases n - start,
    {
        let mut end: usize = start;
        while end < n && chars[end] != '\n'
            invariant
                n == chars@.len(),
                chars@ == text@,
                start <= end <= n,
                line_end(text@, end as nat) == line_end(text@, start as nat),
            decreases n - end,
        {
            end += 1;
        }
        let stop: usize = if start < end && end < n && chars[end - 1] == '\r' {
            end - 1
        } else {
            end
        };
        let mut line = String::new();
        push_chars(&mut line, &chars, start, stop);
        assert(line@ == line_text(text@, start as nat, end as nat));
        assert(lines_from(text@, start as nat) == seq![line@] + lines_from(
            text@,
            (end + 1) as nat,
        ));
        out.push(line);
        if end < n {
            start = end + 1;
        } else {
            start = n;
        }
    }
    out
}

fn digit_of(d: u128) -> (c: char)
    requires
        d < 10,
    ensures
        c == digit_char(d as nat),
{
    if d == 0 {
        '0'
    } else if d == 1 {
        '1'
    } else if d == 2 {
        '2'
    } else if d == 3 {
        '3'
    } else if d == 4 {
        '4'
    } else if d == 5 {
        '5'
    } else if d == 6 {
        '6'
    } else if d == 7 {
        '7'
    } else if d == 8 {
        '8'
    } else {
        '9'
    }
}

/// The numeral of the digits still to be written in front: nothing once
/// they are used up.
spec fn leading(rest: nat) -> Seq<char> {
    if rest == 0 {
        Seq::empty()
    } else {
        decimal(rest)
    }
}

/// Appends the decimal numeral of `n` to `out`.
pub fn push_decimal(out: &mut String, n: u128)
    ensures
        final(out)@ == old(out)@ + decimal(n as nat),
{
    let mut digits: Vec<char> = Vec::new();
    digits.push(digit_of(n % 10));
    let mut rest: u128 = n / 10;
    while rest > 0
        invariant
            digits@.len() >= 1,
            leading(rest as nat) + digits@.reverse() == decimal(n as nat),
        decreases rest,
    {
        digits.push(digit_of(rest % 10));
        rest = rest / 10;
    }
    let mut i: usize = digits.len();
    let ghost numeral = digits@.reverse();
    while i > 0
        invariant
            i <= digits@.len(),
            numeral == digits@.reverse(),
            out@ == old(out)@ + numeral.take(digits@.len() - i),
        decreases i,
    {
        i -= 1;
        push_char(out, digits[i]);
    }
}

/// A copy of `s` in which every `from` has become `to`.
pub fn replace_char(s: &str, from: char, to: char) -> (out: String)
    ensures
        out@ == replaced(s@, from, to),
{
    let mut out = String::new();
    for c in it: s.chars()
        invariant
            it.seq() == s@,
            out@ == replaced(s@, from, to).take(it.index()),
    {
        if c == from {
            push_char(&mut out, to);
        } else {
            push_char(&mut out, c);
        }
    }
    out
}

/// The strings of `items` written one after the other with `sep` between
/// neighbours.
pub fn join(items: &Vec<String>, sep: &str) -> (out: String)
    ensures
        out@ == joined(items.deep_view(), sep@),
{
    let mut out = String::new();
    let mut i: usize = 0;
    while i < items.len()
        invariant
            i <= items@.len(),
            out@ == joined(items.deep_view().take(i as int), sep@),
        decreases items@.len() - i,
    {
        let ghost done = items.deep_view().take(i as int);
        let ghost next = items.deep_view().take(i + 1);
        assert(next.drop_last() =~= done);
        if i > 0 {
            out.append(sep);
        }
        out.append(items[i].as_str());
        i += 1;
    }
    assert(items.deep_view().take(items@.len() as int) =~= items.deep_view());
    out
}

/// Appends each of `items` to `out`, with `before` in front of it and
/// `after` behind it.
pub fn push_wrapped(out: &mut String, items: &Vec<String>, before: &str, after: &str)
    ensures
        final(out)@ == old(out)@ + wrapped(items.deep_view(), before@, after@),
{
    let mut i: usize = 0;
    while i < items.len()
        invariant
            i <= items@.len(),
            out@ == old(out)@ + wrapped(items.deep_view().take(i as int), before@, after@),
        decreases items@.len() - i,
    {
        let ghost done = items.deep_view().take(i as int);
        let ghost next = items.deep_view().take(i + 1);
        assert(next.drop_last() =~= done);
        out.append(before);
        out.append(items[i].as_str());
        out.append(after);
        i += 1;
    }
    assert(items.deep_view().take(items@.len() as int) =~= items.deep_view());
}

/// A copy of `items`.
pub fn clone_strings(items: &Vec<String>) -> (out: Vec<String>)
    ensures
        out.deep_view() == items.deep_view(),
{
    let mut out: Vec<String> = Vec::new();
    let mut i: usize = 0;
    while i < items.len()
        invariant
            i <= items@.len(),
            out@.len() == i,
            forall|k: int| 0 <= k < i ==> out@[k]@ == items@[k]@,
        decreases items@.len() - i,
    {
        out.push(items[i].clone());
        i += 1;
    }
    out
}

/// Whether `s` reads exactly `literal`.
pub fn is_text(s: &String, literal: &str) -> (same: bool)
    ensures
        same == (s@ == literal@),
{
    let other = String::from_str(literal);
    *s == other
}

} // verus!
