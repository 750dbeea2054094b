//! Steps: the ordered points of the tutorial.

use std::cmp::Ordering;
use vstd::prelude::*;

use crate::decimal::{
    all_digits, digit_char, digit_value, digits_value, is_digit, lemma_numeral_digits,
    lemma_numeral_value, numeral, parse_number, push_numeral, read_number,
};
use crate::error::DirectiveError;
use crate::text::{chars_of, push_char};

verus! {

/// A point in the tutorial: the start, before any numbered step, or a
/// numbered step such as `3` or `3.B`.
///
/// The derived order is the one of [`Step::precedes`]: the start first, then
/// by number, a step without a letter before those with one, letters in
/// alphabetical order.
#[derive(Clone, Copy, Debug, PartialEq, Eq, PartialOrd, Ord, Hash)]
pub enum Step {
    /// Before any numbered step.
    Start,
    /// The step of a number, or one of the steps `A` to `Z` that come
    /// after it and before the next number.
    Numbered { major: u64, minor: Option<char> },
}

/// `c` is one of `A` to `Z`.
pub open spec fn is_upper(c: char) -> bool {
    'A' <= c && c <= 'Z'
}

/// `s` ends in a dot and a capital letter.
pub open spec fn has_minor(s: Seq<char>) -> bool {
    s.len() >= 2 && s[s.len() - 2] == '.' && is_upper(s[s.len() - 1])
}

/// The step that `s` writes, if it writes one: nothing at all for the
/// start, a number, or a number followed by a dot and a capital letter.
pub open spec fn read_step(s: Seq<char>) -> Option<Step> {
    if s.len() == 0 {
        Some(Step::Start)
    } else if has_minor(s) {
        match read_number(s.take(s.len() - 2)) {
            Some(major) => Some(Step::Numbered { major, minor: Some(s.last()) }),
            None => None,
        }
    } else {
        match read_number(s) {
            Some(major) => Some(Step::Numbered { major, minor: None }),
            None => None,
        }
    }
}

/// `s` without the zeros that stand before its last digit or its first
/// digit other than zero.
pub open spec fn strip_zeros(s: Seq<char>) -> Seq<char>
    decreases s.len(),
{
    if s.len() > 1 && s[0] == '0' {
        strip_zeros(s.drop_first())
    } else {
        s
    }
}

/// The canonical way to write the step that `s` writes: the number without
/// leading zeros, and `start` for the empty text.
pub open spec fn canonical(s: Seq<char>) -> Seq<char> {
    if s.len() == 0 {
        "start"@
    } else if has_minor(s) {
        strip_zeros(s.take(s.len() - 2)) + s.skip(s.len() - 2)
    } else {
        strip_zeros(s)
    }
}

/// Among the steps of one number, the first comes before the second: no
/// letter before any letter, and letters in alphabetical order.
pub open spec fn minor_precedes(m: Option<char>, n: Option<char>) -> bool {
    match (m, n) {
        (None, Some(_)) => true,
        (Some(x), Some(y)) => x < y,
        _ => false,
    }
}

impl Step {
    /// The letter, if there is one, is a capital letter.
    pub open spec fn wf(self) -> bool {
        match self {
            Step::Start => true,
            Step::Numbered { major, minor } => minor matches Some(c) ==> is_upper(c),
        }
    }

    /// The canonical text of the step: `start`, `3`, `3.B`.
    pub open spec fn token(self) -> Seq<char> {
        match self {
            Step::Start => "start"@,
            Step::Numbered { major, minor: None } => numeral(major as nat),
            Step::Numbered { major, minor: Some(c) } => numeral(major as nat) + seq!['.', c],
        }
    }

    /// `self` comes before `other` in the tutorial.
    pub open spec fn precedes(self, other: Step) -> bool {
        match (self, other) {
            (Step::Start, Step::Start) => false,
            (Step::Start, Step::Numbered { .. }) => true,
            (Step::Numbered { .. }, Step::Start) => false,
            (Step::Numbered { major: a, minor: m }, Step::Numbered { major: b, minor: n }) => {
                a < b || (a == b && minor_precedes(m, n))
            },
        }
    }

    /// Reads a step from its text: the empty text is the start, and a
    /// numbered step is written as `3` or `3.B`. Any other text, and a
    /// number beyond 64 bits, is refused.
    pub fn parse(s: &str) -> (r: Result<Step, DirectiveError>)
        ensures
            r == match read_step(s@) {
                Some(step) => Ok::<Step, DirectiveError>(step),
                None => Err(DirectiveError::InvalidStep),
            },
            r matches Ok(step) ==> step.wf(),
    {
        let v = chars_of(s);
        let n = v.len();
        if n == 0 {
            return Ok(Step::Start);
        }
        if n >= 2 && v[n - 2] == '.' && 'A' <= v[n - 1] && v[n - 1] <= 'Z' {
            assert(v@.subrange(0, n - 2) =~= s@.take(n - 2));
            match parse_number(&v, 0, n - 2) {
                Some(major) => Ok(Step::Numbered { major, minor: Some(v[n - 1]) }),
                None => Err(DirectiveError::InvalidStep),
            }
        } else {
            assert(v@.subrange(0, n as int) =~= s@);
            match parse_number(&v, 0, n) {
                Some(major) => Ok(Step::Numbered { major, minor: None }),
                None => Err(DirectiveError::InvalidStep),
            }
        }
    }

    /// Whether this is the start, before any numbered step.
    pub fn is_start(&self) -> (r: bool)
        ensures
            r == (*self == Step::Start),
    {
        match self {
            Step::Start => true,
            Step::Numbered { .. } => false,
        }
    }

    /// Writes the step in its canonical form.
    pub fn format(&self) -> (r: String)
        ensures
            r@ == self.token(),
    {
        match self {
            Step::Start => "start".to_owned(),
            Step::Numbered { major, minor } => {
                let mut r = String::new();
                push_numeral(&mut r, *major);
                match minor {
                    Some(c) => {
                        push_char(&mut r, '.');
                        push_char(&mut r, *c);
                        assert(r@ =~= numeral(*major as nat) + seq!['.', *c]);
                    },
                    None => {
                        assert(r@ =~= numeral(*major as nat));
                    },
                }
                r
            },
        }
    }

    /// Orders two steps: `Less` where `self` comes first.
    pub fn compare(&self, other: &Step) -> (r: Ordering)
        ensures
            r is Less <==> self.precedes(*other),
            r is Equal <==> *self == *other,
            r is Greater <==> other.precedes(*self),
    {
        match (self, other) {
            (Step::Start, Step::Start) => Ordering::Equal,
            (Step::Start, Step::Numbered { .. }) => Ordering::Less,
            (Step::Numbered { .. }, Step::Start) => Ordering::Greater,
            (Step::Numbered { major: a, minor: m }, Step::Numbered { major: b, minor: n }) => {
                if *a < *b {
                    Ordering::Less
                } else if *a > *b {
                    Ordering::Greater
                } else {
                    match (m, n) {
                        (None, None) => Ordering::Equal,
                        (None, Some(_)) => Ordering::Less,
                        (Some(_), None) => Ordering::Greater,
                        (Some(x), Some(y)) => {
                            if *x < *y {
                                Ordering::Less
                            } else if *x > *y {
                                Ordering::Greater
                            } else {
                                Ordering::Equal
                            }
                        },
                    }
                }
            },
        }
    }
}

/// A zero in front does not change what a run of digits is worth.
pub proof fn lemma_leading_zero(s: Seq<char>)
    requires
        s.len() >= 1,
        s[0] == '0',
    ensures
        digits_value(s) == digits_value(s.drop_first()),
    decreases s.len(),
{
    if s.len() == 1 {
        assert(s.drop_last() =~= Seq::<char>::empty());
        assert(s.drop_first() =~= Seq::<char>::empty());
    } else {
        lemma_leading_zero(s.drop_last());
        assert(s.drop_last().drop_first() =~= s.drop_first().drop_last());
    }
}

/// A run of digits that does not begin with a needless zero is the numeral
/// of its own value.
pub proof fn lemma_numeral_of_plain_digits(s: Seq<char>)
    requires
        s.len() >= 1,
        all_digits(s),
        s.len() == 1 || s[0] != '0',
    ensures
        numeral(digits_value(s)) == s,
        s[0] != '0' ==> digits_value(s) >= 1,
        s.len() >= 2 ==> digits_value(s) >= 10,
    decreases s.len(),
{
    let c = s.last();
    assert(is_digit(c));
    assert(digit_char(digit_value(c)) == c);
    if s.len() == 1 {
        assert(s.drop_last() =~= Seq::<char>::empty());
        assert(digits_value(s.drop_last()) == 0);
        assert(numeral(digits_value(s)) =~= s);
    } else {
        let front = s.drop_last();
        assert(front[0] == s[0]);
        lemma_numeral_of_plain_digits(front);
        let v = digits_value(s);
        assert(v == digits_value(front) * 10 + digit_value(c));
        assert(v / 10 == digits_value(front));
        assert(v % 10 == digit_value(c));
        assert(numeral(v) =~= front.push(c));
        assert(front.push(c) =~= s);
    }
}

/// Writing the value of a run of digits gives the run without its leading
/// zeros.
pub proof fn lemma_numeral_of_digits(s: Seq<char>)
    requires
        s.len() >= 1,
        all_digits(s),
    ensures
        numeral(digits_value(s)) == strip_zeros(s),
    decreases s.len(),
{
    if s.len() > 1 && s[0] == '0' {
        lemma_leading_zero(s);
        lemma_numeral_of_digits(s.drop_first());
    } else {
        lemma_numeral_of_plain_digits(s);
    }
}

/// Reading a step and writing it again gives the canonical form of the
/// text that was read, for every text that writes a step.
pub proof fn lemma_format_of_parse(s: Seq<char>)
    requires
        read_step(s) is Some,
    ensures
        read_step(s)->0.wf(),
        read_step(s)->0.token() == canonical(s),
{
    if s.len() == 0 {
    } else if has_minor(s) {
        let digits = s.take(s.len() - 2);
        lemma_numeral_of_digits(digits);
        assert(s.skip(s.len() - 2) =~= seq!['.', s.last()]);
    } else {
        lemma_numeral_of_digits(s);
    }
}

/// Writing a numbered step and reading the text gives the step back.
pub proof fn lemma_parse_of_format(step: Step)
    requires
        step.wf(),
        step != Step::Start,
    ensures
        read_step(step.token()) == Some(step),
{
    match step {
        Step::Start => {},
        Step::Numbered { major, minor } => {
            let digits = numeral(major as nat);
            lemma_numeral_digits(major as nat);
            lemma_numeral_value(major as nat);
            match minor {
                None => {
                    assert(is_digit(digits[digits.len() - 1]));
                },
                Some(c) => {
                    let s = step.token();
                    assert(s.take(s.len() - 2) =~= digits);
                },
            }
        },
    }
}

/// No step comes before itself.
pub proof fn lemma_order_irreflexive(a: Step)
    ensures
        !a.precedes(a),
{
}

/// Of two different steps exactly one comes before the other.
pub proof fn lemma_order_total(a: Step, b: Step)
    ensures
        a != b ==> (a.precedes(b) <==> !b.precedes(a)),
        a == b ==> !a.precedes(b) && !b.precedes(a),
{
}

/// Coming before is transitive.
pub proof fn lemma_order_transitive(a: Step, b: Step, c: Step)
    requires
        a.precedes(b),
        b.precedes(c),
    ensures
        a.precedes(c),
{
}

/// The start comes before every numbered step.
pub proof fn lemma_start_first(a: Step)
    ensures
        a != Step::Start ==> Step::Start.precedes(a),
        !a.precedes(Step::Start),
{
}

} // verus!
