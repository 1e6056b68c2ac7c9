//! Character classes and the small string operations the compiler is built
//! from, each with its meaning stated over sequences of characters.

use vstd::prelude::*;
use vstd::string::*;

verus! {

/// Whether `c` has the Unicode `Alphabetic` property.
pub uninterp spec fn char_is_alphabetic(c: char) -> bool;

/// Whether `c` is alphabetic or numeric in the sense of Unicode.
pub uninterp spec fn char_is_alphanumeric(c: char) -> bool;

/// Whether `c` has the Unicode `White_Space` property.
pub uninterp spec fn char_is_whitespace(c: char) -> bool;

/// The text that `Debug` formatting gives for a string: the string in double
/// quotes, with quotes, backslashes and unprintable characters escaped.
pub uninterp spec fn debug_quoted(s: Seq<char>) -> Seq<char>;

/// `char::is_alphabetic` decides the Unicode `Alphabetic` property of its
/// argument; the answer depends on the character alone.
pub assume_specification[ char::is_alphabetic ](c: char) -> (b: bool)
    ensures
        b == char_is_alphabetic(c),
;

/// `char::is_alphanumeric` decides whether its argument is a Unicode letter
/// or number; the answer depends on the character alone.
pub assume_specification[ char::is_alphanumeric ](c: char) -> (b: bool)
    ensures
        b == char_is_alphanumeric(c),
;

/// `char::is_whitespace` decides the Unicode `White_Space` property of its
/// argument; the answer depends on the character alone.
pub assume_specification[ char::is_whitespace ](c: char) -> (b: bool)
    ensures
        b == char_is_whitespace(c),
;

/// `String::push` appends one character to the end of the string.
pub assume_specification[ std::string::String::push ](s: &mut std::string::String, c: char)
    ensures
        final(s)@ == old(s)@.push(c),
;

/// Formats a string with `{:?}`: the result is the `Debug` text of `s`,
/// which depends on the characters of `s` alone.
#[verifier::external_body]
pub(crate) fn debug_quote(s: &str) -> (r: String)
    ensures
        r@ == debug_quoted(s@),
{
    format!("{:?}", s)
}

/// `x + 1`, or `x` where that cannot be held.
pub open spec fn bump(x: usize) -> usize {
    if x < usize::MAX {
        (x + 1) as usize
    } else {
        x
    }
}

/// An ASCII decimal digit.
pub open spec fn is_digit(c: char) -> bool {
    '0' <= c <= '9'
}

/// A character that may continue a name: a letter, a number or `_`.
pub open spec fn is_word_char(c: char) -> bool {
    char_is_alphanumeric(c) || c == '_'
}

/// The character at `i`, or NUL where `i` is outside the text.
pub open spec fn char_at(chars: Seq<char>, i: int) -> char {
    if 0 <= i < chars.len() {
        chars[i]
    } else {
        '\0'
    }
}

/// The character that writes the digit `d`.
pub open spec fn digit_char(d: nat) -> char
    recommends
        d < 10,
{
    (d + 48) as char
}

/// The decimal notation of `n`, without leading zeros.
pub open spec fn decimal(n: nat) -> Seq<char>
    decreases n,
{
    if n < 10 {
        seq![digit_char(n)]
    } else {
        decimal(n / 10).push(digit_char(n % 10))
    }
}

/// The texts of `parts`, with `sep` between each two neighbours.
pub open spec fn join(parts: Seq<Seq<char>>, sep: Seq<char>) -> Seq<char>
    decreases parts.len(),
{
    if parts.len() == 0 {
        Seq::empty()
    } else if parts.len() == 1 {
        parts[0]
    } else {
        join(parts.drop_last(), sep) + sep + parts.last()
    }
}

/// The views of a sequence of strings.
pub open spec fn string_views(parts: Seq<String>) -> Seq<Seq<char>> {
    Seq::new(parts.len(), |i: int| parts[i]@)
}

/// `count` copies of `unit`, one after the other.
pub open spec fn repeated(unit: Seq<char>, count: nat) -> Seq<char>
    decreases count,
{
    if count == 0 {
        Seq::empty()
    } else {
        repeated(unit, (count - 1) as nat) + unit
    }
}

/// `s` with every occurrence of `from` replaced by `to`.
pub open spec fn replaced(s: Seq<char>, from: char, to: Seq<char>) -> Seq<char>
    decreases s.len(),
{
    if s.len() == 0 {
        Seq::empty()
    } else if s.last() == from {
        replaced(s.drop_last(), from, to) + to
    } else {
        replaced(s.drop_last(), from, to).push(s.last())
    }
}

/// What a backslash followed by `c` stands for inside a string that is quoted
/// with `quote`.
pub open spec fn unescaped(c: char, quote: char) -> Seq<char> {
    if c == 'n' {
        seq!['\n']
    } else if c == 't' {
        seq!['\t']
    } else if c == 'r' {
        seq!['\r']
    } else if c == '\\' || c == '{' || c == '}' || c == quote {
        seq![c]
    } else {
        seq!['\\', c]
    }
}

/// The first index at or after `from` whose character is no white space.
pub open spec fn skip_whitespace_from(chars: Seq<char>, from: int) -> int
    decreases chars.len() - from,
{
    if 0 <= from < chars.len() && char_is_whitespace(chars[from]) {
        skip_whitespace_from(chars, from + 1)
    } else {
        from
    }
}

/// The end of `chars[from..to]` once trailing white space is cut off.
pub open spec fn trim_end_to(chars: Seq<char>, from: int, to: int) -> int
    decreases to - from,
{
    if from < to <= chars.len() && char_is_whitespace(chars[to - 1]) {
        trim_end_to(chars, from, to - 1)
    } else {
        to
    }
}

/// `s` without the white space at its start and at its end.
pub open spec fn trimmed(s: Seq<char>) -> Seq<char> {
    let start = skip_whitespace_from(s, 0);
    let end = trim_end_to(s, start, s.len() as int);
    s.subrange(start, end)
}

/// The length of a vector can be held in a `usize`.
pub proof fn lemma_length_fits<T>(v: &Vec<T>)
    ensures
        v@.len() <= usize::MAX,
{
    assert(v@.len() == v.len());
}

pub fn increment(x: usize) -> (r: usize)
    ensures
        r == bump(x),
{
    if x < usize::MAX {
        x + 1
    } else {
        x
    }
}

pub fn is_ascii_digit(c: char) -> (b: bool)
    ensures
        b == is_digit(c),
{
    c >= '0' && c <= '9'
}

pub fn is_name_char(c: char) -> (b: bool)
    ensures
        b == is_word_char(c),
{
    c.is_alphanumeric() || c == '_'
}

/// Appends what a backslash followed by `c` stands for.
pub fn push_unescaped(out: &mut String, c: char, quote: char)
    ensures
        final(out)@ == old(out)@ + unescaped(c, quote),
{
    if c == 'n' {
        out.push('\n');
    } else if c == 't' {
        out.push('\t');
    } else if c == 'r' {
        out.push('\r');
    } else if c == '\\' || c == '{' || c == '}' || c == quote {
        out.push(c);
    } else {
        out.push('\\');
        out.push(c);
    }
    assert(out@ =~= old(out)@ + unescaped(c, quote));
}

/// The characters of `s`, in order.
pub fn to_chars(s: &str) -> (v: Vec<char>)
    ensures
        v@ == s@,
{
    let mut v: Vec<char> = Vec::new();
    for c in it: s.chars()
        invariant
            v@ == it.seq().take(it.index()),
    {
        v.push(c);
    }
    v
}

/// Appends `chars[from..to]` to `out`.
pub fn push_range(out: &mut String, chars: &Vec<char>, from: usize, to: usize)
    requires
        from <= to <= chars@.len(),
    ensures
        final(out)@ == old(out)@ + chars@.subrange(from as int, to as int),
{
    let mut i = from;
    while i < to
        invariant
            from <= i <= to <= chars@.len(),
            out@ == old(out)@ + chars@.subrange(from as int, i as int),
        decreases to - i,
    {
        out.push(chars[i]);
        i += 1;
        assert(out@ =~= old(out)@ + chars@.subrange(from as int, i as int));
    }
}

/// The string that holds `chars[from..to]`.
pub fn string_of_range(chars: &Vec<char>, from: usize, to: usize) -> (r: String)
    requires
        from <= to <= chars@.len(),
    ensures
        r@ == chars@.subrange(from as int, to as int),
{
    let mut r = String::new();
    push_range(&mut r, chars, from, to);
    assert(r@ =~= chars@.subrange(from as int, to as int));
    r
}

/// Whether `s` is exactly the text `lit`.
pub fn is_text(s: &String, lit: &str) -> (b: bool)
    ensures
        b == (s@ == lit@),
{
    let other = String::from_str(lit);
    *s == other
}

/// Whether the character `c` occurs in `s`.
pub fn has_char(s: &str, c: char) -> (b: bool)
    ensures
        b == s@.contains(c),
{
    let chars = to_chars(s);
    let mut i: usize = 0;
    while i < chars.len()
        invariant
            i <= chars@.len(),
            chars@ == s@,
            forall|j: int| 0 <= j < i ==> chars@[j] != c,
        decreases chars@.len() - i,
    {
        if chars[i] == c {
            return true;
        }
        i += 1;
    }
    false
}

fn digit_of(d: usize) -> (c: char)
    requires
        d < 10,
    ensures
        c == digit_char(d as nat),
{
    if d == 0 {
        '0'
    } else if d == 1 {
        '1'
    } else if d == 2 {
        '2'
    } else if d == 3 {
        '3'
    } else if d == 4 {
        '4'
    } else if d == 5 {
        '5'
    } else if d == 6 {
        '6'
    } else if d == 7 {
        '7'
    } else if d == 8 {
        '8'
    } else {
        '9'
    }
}

/// Appends the decimal notation of `n` to `out`.
pub fn push_decimal(out: &mut String, n: usize)
    ensures
        final(out)@ == old(out)@ + decimal(n as nat),
    decreases n,
{
    if n >= 10 {
        push_decimal(out, n / 10);
    }
    out.push(digit_of(n % 10));
    assert(out@ =~= old(out)@ + decimal(n as nat));
}

/// Joins `parts` with `sep` between each two neighbours.
pub fn join_strings(parts: &Vec<String>, sep: &str) -> (r: String)
    ensures
        r@ == join(string_views(parts@), sep@),
{
    let mut r = String::new();
    let mut i: usize = 0;
    while i < parts.len()
        invariant
            i <= parts@.len(),
            r@ == join(string_views(parts@).take(i as int), sep@),
        decreases parts@.len() - i,
    {
        let ghost views = string_views(parts@);
        proof {
            assert(views.take(i + 1).drop_last() =~= views.take(i as int));
            assert(views.take(i + 1).last() == parts@[i as int]@);
        }
        if i > 0 {
            r.append(sep);
        }
        r.append(parts[i].as_str());
        i += 1;
        assert(r@ =~= join(views.take(i as int), sep@));
    }
    assert(string_views(parts@).take(i as int) =~= string_views(parts@));
    r
}

/// Appends `count` copies of `unit` to `out`.
pub fn push_repeated(out: &mut String, unit: &str, count: usize)
    ensures
        final(out)@ == old(out)@ + repeated(unit@, count as nat),
{
    let mut i: usize = 0;
    assert(out@ =~= old(out)@ + repeated(unit@, 0));
    while i < count
        invariant
            i <= count,
            out@ == old(out)@ + repeated(unit@, i as nat),
        decreases count - i,
    {
        out.append(unit);
        i += 1;
        assert(out@ =~= old(out)@ + repeated(unit@, i as nat));
    }
}

/// Appends `s` to `out`, with every `from` in it replaced by `to`.
pub fn push_replaced(out: &mut String, s: &str, from: char, to: &str)
    ensures
        final(out)@ == old(out)@ + replaced(s@, from, to@),
{
    let chars = to_chars(s);
    let mut i: usize = 0;
    assert(out@ =~= old(out)@ + replaced(chars@.take(0), from, to@));
    while i < chars.len()
        invariant
            i <= chars@.len(),
            chars@ == s@,
            out@ == old(out)@ + replaced(chars@.take(i as int), from, to@),
        decreases chars@.len() - i,
    {
        proof {
            assert(chars@.take(i + 1).drop_last() =~= chars@.take(i as int));
        }
        if chars[i] == from {
            out.append(to);
        } else {
            out.push(chars[i]);
        }
        i += 1;
        assert(out@ =~= old(out)@ + replaced(chars@.take(i as int), from, to@));
    }
    assert(chars@.take(i as int) =~= chars@);
}

/// `s` without the white space at its start and at its end.
pub fn trim_string(s: &String) -> (r: String)
    ensures
        r@ == trimmed(s@),
{
    let chars = to_chars(s.as_str());
    let mut start: usize = 0;
    while start < chars.len() && chars[start].is_whitespace()
        invariant
            start <= chars@.len(),
            skip_whitespace_from(chars@, start as int) == skip_whitespace_from(chars@, 0),
        decreases chars@.len() - start,
    {
        start += 1;
    }
    let mut end: usize = chars.len();
    while start < end && chars[end - 1].is_whitespace()
        invariant
            start <= end <= chars@.len(),
            trim_end_to(chars@, start as int, end as int) == trim_end_to(
                chars@,
                start as int,
                chars@.len() as int,
            ),
        decreases end - start,
    {
        end -= 1;
    }
    string_of_range(&chars, start, end)
}

} // verus!
