//! Number literals, held exactly as decimal digits.

use vstd::prelude::*;
use vstd::string::*;
use crate::text::{is_ascii_digit, is_digit, push_range, string_of_range, to_chars};

verus! {

/// A non-negative decimal number: the digits before the point, without
/// needless leading zeros, and the digits after it, without trailing zeros.
/// Two numbers are equal exactly when they denote the same value.
#[derive(Debug, PartialEq, Eq)]
pub struct Number {
    whole: String,
    frac: String,
}

/// What a [`Number`] holds: its whole digits and its fraction digits.
pub ghost struct NumberView {
    pub whole: Seq<char>,
    pub frac: Seq<char>,
}

/// Every character of `s` is a decimal digit.
pub open spec fn all_digits(s: Seq<char>) -> bool {
    forall|i: int| 0 <= i < s.len() ==> is_digit(#[trigger] s[i])
}

/// A character that belongs to a number literal: a digit or a point.
pub open spec fn is_number_char(c: char) -> bool {
    is_digit(c) || c == '.'
}

/// The end of the run of digits and points that starts at `pos`.
pub open spec fn number_end(chars: Seq<char>, pos: int) -> int
    decreases chars.len() - pos,
{
    if 0 <= pos < chars.len() && is_number_char(chars[pos]) {
        number_end(chars, pos + 1)
    } else {
        pos
    }
}

/// The index of the first `.` in `s`, or the length of `s` if it has none.
pub open spec fn point_index(s: Seq<char>) -> int
    decreases s.len(),
{
    if s.len() == 0 {
        0
    } else if s[0] == '.' {
        0
    } else {
        1 + point_index(s.drop_first())
    }
}

/// The part of a literal before its first `.`.
pub open spec fn whole_part(s: Seq<char>) -> Seq<char> {
    s.subrange(0, point_index(s))
}

/// The part of a literal after its first `.`; empty if it has none.
pub open spec fn frac_part(s: Seq<char>) -> Seq<char> {
    if point_index(s) < s.len() {
        s.subrange(point_index(s) + 1, s.len() as int)
    } else {
        Seq::empty()
    }
}

/// `s` is a number literal: digits with at most one `.` among them, and at
/// least one digit.
pub open spec fn is_literal(s: Seq<char>) -> bool {
    &&& all_digits(whole_part(s))
    &&& all_digits(frac_part(s))
    &&& whole_part(s).len() + frac_part(s).len() > 0
}

/// The digits `s` without leading zeros, keeping one digit; `0` for none.
pub open spec fn without_leading_zeros(s: Seq<char>) -> Seq<char>
    decreases s.len(),
{
    if s.len() == 0 {
        seq!['0']
    } else if s.len() > 1 && s[0] == '0' {
        without_leading_zeros(s.drop_first())
    } else {
        s
    }
}

/// The digits `s` without trailing zeros.
pub open spec fn without_trailing_zeros(s: Seq<char>) -> Seq<char>
    decreases s.len(),
{
    if s.len() > 0 && s.last() == '0' {
        without_trailing_zeros(s.drop_last())
    } else {
        s
    }
}

/// The number that the literal `s` denotes.
pub open spec fn literal_value(s: Seq<char>) -> NumberView {
    NumberView {
        whole: without_leading_zeros(whole_part(s)),
        frac: without_trailing_zeros(frac_part(s)),
    }
}

impl NumberView {
    /// The number zero.
    pub open spec fn zero() -> NumberView {
        NumberView { whole: seq!['0'], frac: Seq::empty() }
    }

    /// The representation is the shortest one of its value.
    pub open spec fn canonical(self) -> bool {
        &&& self.whole.len() >= 1
        &&& all_digits(self.whole)
        &&& (self.whole.len() == 1 || self.whole[0] != '0')
        &&& all_digits(self.frac)
        &&& (self.frac.len() == 0 || self.frac.last() != '0')
    }

    /// The value has no fractional part.
    pub open spec fn is_integral(self) -> bool {
        self.frac.len() == 0
    }

    /// The number as it is written in generated code: the whole digits, and
    /// for a value that is not integral, a point and the fraction digits.
    pub open spec fn rendered(self) -> Seq<char> {
        if self.frac.len() == 0 {
            self.whole
        } else {
            self.whole + seq!['.'] + self.frac
        }
    }

    /// The number as it is written in diagnostics: always with a point and at
    /// least one digit after it.
    pub open spec fn debug_rendered(self) -> Seq<char> {
        if self.frac.len() == 0 {
            self.whole + seq!['.', '0']
        } else {
            self.whole + seq!['.'] + self.frac
        }
    }
}

/// Stripping leading zeros from digits leaves canonical whole digits.
pub proof fn lemma_without_leading_zeros(s: Seq<char>)
    requires
        all_digits(s),
    ensures
        all_digits(without_leading_zeros(s)),
        without_leading_zeros(s).len() >= 1,
        without_leading_zeros(s).len() == 1 || without_leading_zeros(s)[0] != '0',
    decreases s.len(),
{
    if s.len() > 1 && s[0] == '0' {
        let rest = s.drop_first();
        assert forall|i: int| 0 <= i < rest.len() implies is_digit(#[trigger] rest[i]) by {
            assert(rest[i] == s[i + 1]);
        }
        lemma_without_leading_zeros(rest);
    }
}

/// Stripping trailing zeros from digits leaves canonical fraction digits.
pub proof fn lemma_without_trailing_zeros(s: Seq<char>)
    requires
        all_digits(s),
    ensures
        all_digits(without_trailing_zeros(s)),
        without_trailing_zeros(s).len() == 0 || without_trailing_zeros(s).last() != '0',
    decreases s.len(),
{
    if s.len() > 0 && s.last() == '0' {
        let rest = s.drop_last();
        assert forall|i: int| 0 <= i < rest.len() implies is_digit(#[trigger] rest[i]) by {
            assert(rest[i] == s[i]);
        }
        lemma_without_trailing_zeros(rest);
    }
}

/// The value of a literal is canonical.
pub proof fn lemma_literal_value_canonical(s: Seq<char>)
    requires
        is_literal(s),
    ensures
        literal_value(s).canonical(),
{
    lemma_without_leading_zeros(whole_part(s));
    lemma_without_trailing_zeros(frac_part(s));
}

/// An integral number is written without a decimal point; any other number
/// as its whole digits, a point, and its fraction digits.
pub proof fn lemma_rendering(n: NumberView)
    requires
        n.canonical(),
    ensures
        n.is_integral() ==> !n.rendered().contains('.'),
        !n.is_integral() ==> n.rendered() == n.whole + seq!['.'] + n.frac,
{
    if n.is_integral() {
        assert forall|i: int| 0 <= i < n.rendered().len() implies n.rendered()[i] != '.' by {
            assert(is_digit(n.whole[i]));
        }
    }
}

proof fn lemma_point_index_bounds(s: Seq<char>)
    ensures
        0 <= point_index(s) <= s.len(),
        point_index(s) < s.len() ==> s[point_index(s)] == '.',
        forall|i: int| 0 <= i < point_index(s) ==> s[i] != '.',
    decreases s.len(),
{
    if s.len() > 0 && s[0] != '.' {
        let rest = s.drop_first();
        lemma_point_index_bounds(rest);
        assert forall|i: int| 0 <= i < point_index(s) implies s[i] != '.' by {
            if i > 0 {
                assert(rest[i - 1] == s[i]);
            }
        }
    }
}

proof fn lemma_point_index_first(s: Seq<char>, k: int)
    requires
        0 <= k <= s.len(),
        forall|i: int| 0 <= i < k ==> s[i] != '.',
        k < s.len() ==> s[k] == '.',
    ensures
        point_index(s) == k,
{
    lemma_point_index_bounds(s);
}

impl Number {
    /// The digits this number holds.
    pub closed spec fn view(&self) -> NumberView {
        NumberView { whole: self.whole@, frac: self.frac@ }
    }

    #[verifier::type_invariant]
    spec fn well_formed(&self) -> bool {
        self.view().canonical()
    }

    /// The number zero.
    pub fn zero() -> (n: Number)
        ensures
            n@ == NumberView::zero(),
    {
        let mut whole = String::new();
        whole.push('0');
        assert(whole@ =~= seq!['0']);
        Number { whole, frac: String::new() }
    }

    /// Reads `chars[from..to]` as a number literal; `None` where the text is
    /// no literal.
    pub fn parse_range(chars: &Vec<char>, from: usize, to: usize) -> (r: Option<Number>)
        requires
            from <= to <= chars@.len(),
        ensures
            match r {
                Some(n) => is_literal(chars@.subrange(from as int, to as int)) && n@
                    == literal_value(chars@.subrange(from as int, to as int)),
                None => !is_literal(chars@.subrange(from as int, to as int)),
            },
    {
        let ghost s = chars@.subrange(from as int, to as int);
        // the first point
        let mut dot = from;
        while dot < to && chars[dot] != '.'
            invariant
                from <= dot <= to <= chars@.len(),
                s == chars@.subrange(from as int, to as int),
                forall|i: int| 0 <= i < dot - from ==> s[i] != '.',
            decreases to - dot,
        {
            dot += 1;
        }
        proof {
            lemma_point_index_first(s, dot - from);
        }
        // both parts hold digits only
        let mut i = from;
        while i < dot
            invariant
                from <= i <= dot <= to <= chars@.len(),
                s == chars@.subrange(from as int, to as int),
                point_index(s) == dot - from,
                forall|j: int| 0 <= j < i - from ==> is_digit(s[j]),
            decreases dot - i,
        {
            if !is_ascii_digit(chars[i]) {
                proof {
                    assert(whole_part(s)[i - from] == chars@[i as int]);
                    assert(!is_digit(whole_part(s)[i - from]));
                }
                return None;
            }
            i += 1;
        }
        assert(all_digits(whole_part(s)));
        let frac_from = if dot < to {
            dot + 1
        } else {
            to
        };
        assert(frac_part(s) =~= chars@.subrange(frac_from as int, to as int));
        let mut j = frac_from;
        while j < to
            invariant
                from <= frac_from <= j <= to <= chars@.len(),
                s == chars@.subrange(from as int, to as int),
                frac_part(s) == chars@.subrange(frac_from as int, to as int),
                forall|k: int| 0 <= k < j - frac_from ==> is_digit(frac_part(s)[k]),
            decreases to - j,
        {
            if !is_ascii_digit(chars[j]) {
                proof {
                    assert(frac_part(s)[j - frac_from] == chars@[j as int]);
                    assert(!is_digit(frac_part(s)[j - frac_from]));
                }
                return None;
            }
            j += 1;
        }
        assert(all_digits(frac_part(s)));
        if dot - from + (to - frac_from) == 0 {
            return None;
        }
        assert(whole_part(s) =~= chars@.subrange(from as int, dot as int));
        // the shortest whole digits
        let mut first = from;
        while first < dot && dot - first > 1 && chars[first] == '0'
            invariant
                from <= first <= dot <= chars@.len(),
                without_leading_zeros(chars@.subrange(first as int, dot as int))
                    == without_leading_zeros(whole_part(s)),
            decreases dot - first,
        {
            proof {
                assert(chars@.subrange(first as int, dot as int).drop_first() =~= chars@.subrange(
                    first + 1,
                    dot as int,
                ));
            }
            first += 1;
        }
        let mut whole = String::new();
        if first == dot {
            whole.push('0');
            assert(whole@ =~= seq!['0']);
        } else {
            push_range(&mut whole, chars, first, dot);
            assert(whole@ =~= chars@.subrange(first as int, dot as int));
        }
        // the shortest fraction digits
        let mut last = to;
        while frac_from < last && chars[last - 1] == '0'
            invariant
                frac_from <= last <= to <= chars@.len(),
                without_trailing_zeros(chars@.subrange(frac_from as int, last as int))
                    == without_trailing_zeros(frac_part(s)),
            decreases last - frac_from,
        {
            proof {
                assert(chars@.subrange(frac_from as int, last as int).drop_last()
                    =~= chars@.subrange(frac_from as int, last - 1));
            }
            last -= 1;
        }
        let frac = string_of_range(chars, frac_from, last);
        proof {
            lemma_literal_value_canonical(s);
        }
        Some(Number { whole, frac })
    }

    /// Reads `text` as a number literal: digits with at most one `.` among
    /// them. `None` where the text is no literal.
    pub fn from_literal(text: &str) -> (r: Option<Number>)
        ensures
            match r {
                Some(n) => is_literal(text@) && n@ == literal_value(text@),
                None => !is_literal(text@),
            },
    {
        let chars = to_chars(text);
        assert(chars@.subrange(0, chars@.len() as int) =~= text@);
        Number::parse_range(&chars, 0, chars.len())
    }

    /// Whether the value has no fractional part.
    pub fn is_integral(&self) -> (b: bool)
        ensures
            b == self@.is_integral(),
            self@.canonical(),
    {
        proof {
            use_type_invariant(self);
        }
        self.frac.as_str().unicode_len() == 0
    }

    /// The number as it is written in generated code.
    pub fn to_text(&self) -> (r: String)
        ensures
            r@ == self@.rendered(),
            self@.canonical(),
            self@.is_integral() ==> !r@.contains('.'),
    {
        proof {
            use_type_invariant(self);
            lemma_rendering(self@);
        }
        let mut r = self.whole.clone();
        if self.frac.as_str().unicode_len() > 0 {
            r.push('.');
            r.append(self.frac.as_str());
            assert(r@ =~= self@.rendered());
        }
        r
    }

    /// The number as it is written in diagnostics.
    pub fn to_debug_text(&self) -> (r: String)
        ensures
            r@ == self@.debug_rendered(),
    {
        let mut r = self.whole.clone();
        r.push('.');
        if self.frac.as_str().unicode_len() > 0 {
            r.append(self.frac.as_str());
        } else {
            r.push('0');
        }
        assert(r@ =~= self@.debug_rendered());
        r
    }
}

impl Clone for Number {
    fn clone(&self) -> (r: Self)
        ensures
            r@ == self@,
    {
        proof {
            use_type_invariant(self);
        }
        Number { whole: self.whole.clone(), frac: self.frac.clone() }
    }
}

} // verus!
