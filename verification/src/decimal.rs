//! Decimal numerals: the value of a run of digits and the numeral of a value.

use vstd::prelude::*;

use crate::text::{chars_of, push_char};

verus! {

/// `c` is one of `0` to `9`.
pub open spec fn is_digit(c: char) -> bool {
    '0' <= c && c <= '9'
}

/// The value of the digit `c`.
pub open spec fn digit_value(c: char) -> nat
    recommends
        is_digit(c),
{
    if is_digit(c) {
        (c as u32 - '0' as u32) as nat
    } else {
        0
    }
}

/// The digit whose value is `d`.
pub open spec fn digit_char(d: nat) -> char
    recommends
        d < 10,
{
    (d + '0' as u32) as char
}

/// Every character of `s` is a digit.
pub open spec fn all_digits(s: Seq<char>) -> bool {
    forall|i: int| 0 <= i < s.len() ==> is_digit(#[trigger] s[i])
}

/// The number that the digits of `s` write in base ten; zero for no digits.
pub open spec fn digits_value(s: Seq<char>) -> nat
    decreases s.len(),
{
    if s.len() == 0 {
        0
    } else {
        digits_value(s.drop_last()) * 10 + digit_value(s.last())
    }
}

/// The numeral of `n`: its digits in base ten, without leading zeros.
pub open spec fn numeral(n: nat) -> Seq<char>
    decreases n,
{
    if n < 10 {
        seq![digit_char(n)]
    } else {
        numeral(n / 10).push(digit_char(n % 10))
    }
}

/// A numeral consists of digits, at least one of them.
pub proof fn lemma_numeral_digits(n: nat)
    ensures
        numeral(n).len() >= 1,
        all_digits(numeral(n)),
    decreases n,
{
    if n >= 10 {
        lemma_numeral_digits(n / 10);
    }
}

/// Reading a numeral gives back the number it was written for.
pub proof fn lemma_numeral_value(n: nat)
    ensures
        digits_value(numeral(n)) == n,
    decreases n,
{
    if n < 10 {
        assert(numeral(n).drop_last() =~= Seq::<char>::empty());
        assert(digits_value(numeral(n).drop_last()) == 0);
    } else {
        lemma_numeral_value(n / 10);
        assert(numeral(n).drop_last() =~= numeral(n / 10));
    }
}

/// A run of digits is worth at least as much as any of its prefixes.
pub proof fn lemma_prefix_value(s: Seq<char>, k: int)
    requires
        0 <= k <= s.len(),
    ensures
        digits_value(s.take(k)) <= digits_value(s),
    decreases s.len(),
{
    if k == s.len() {
        assert(s.take(k) =~= s);
    } else {
        lemma_prefix_value(s.drop_last(), k);
        assert(s.drop_last().take(k) =~= s.take(k));
    }
}

/// What a run of characters reads as: its value if it is one digit or more
/// and the value fits in 64 bits, and nothing otherwise.
pub open spec fn read_number(s: Seq<char>) -> Option<u64> {
    if s.len() > 0 && all_digits(s) && digits_value(s) <= u64::MAX {
        Some(digits_value(s) as u64)
    } else {
        None
    }
}

/// Reads the characters `v[from..to]` as a decimal number.
pub fn parse_number(v: &Vec<char>, from: usize, to: usize) -> (r: Option<u64>)
    requires
        from <= to <= v.len(),
    ensures
        r == read_number(v@.subrange(from as int, to as int)),
{
    let ghost run = v@.subrange(from as int, to as int);
    if from == to {
        return None;
    }
    let mut acc: u64 = 0;
    let mut i: usize = from;
    while i < to
        invariant
            from <= i <= to <= v.len(),
            run == v@.subrange(from as int, to as int),
            all_digits(run.take(i - from)),
            acc == digits_value(run.take(i - from)),
        decreases to - i,
    {
        let c = v[i];
        let ghost next = run.take(i - from + 1);
        proof {
            assert(next.drop_last() =~= run.take(i - from));
            assert(next.last() == c);
            lemma_prefix_value(run, i - from + 1);
        }
        if c < '0' || c > '9' {
            assert(!is_digit(run[i - from]));
            return None;
        }
        let d: u64 = (c as u32 - '0' as u32) as u64;
        if acc > (u64::MAX - d) / 10 {
            return None;
        }
        acc = acc * 10 + d;
        i += 1;
    }
    assert(run.take(to - from) =~= run);
    Some(acc)
}

/// Appends the numeral of `n` to `s`.
pub fn push_numeral(s: &mut String, n: u64)
    ensures
        final(s)@ == old(s)@ + numeral(n as nat),
    decreases n,
{
    if n >= 10 {
        push_numeral(s, n / 10);
    }
    let d: u8 = (n % 10) as u8;
    let c: char = (d + 48u8) as char;
    assert(c == digit_char((n % 10) as nat));
    push_char(s, c);
    proof {
        if n < 10 {
            assert(old(s)@.push(c) =~= old(s)@ + numeral(n as nat));
        } else {
            assert((old(s)@ + numeral((n / 10) as nat)).push(c) =~= old(s)@ + numeral(n as nat));
        }
    }
}

/// What a text reads as where a size of this machine is wanted: its value
/// if it is one digit or more and the value is such a size.
pub open spec fn read_size(s: Seq<char>) -> Option<nat> {
    match read_number(s) {
        Some(n) => if n <= usize::MAX {
            Some(n as nat)
        } else {
            None
        },
        None => None,
    }
}

/// Reads a text as a size.
pub fn parse_size(s: &str) -> (r: Option<usize>)
    ensures
        match r {
            Some(n) => read_size(s@) == Some(n as nat),
            None => read_size(s@) is None,
        },
{
    let v = chars_of(s);
    assert(v@.subrange(0, v.len() as int) =~= s@);
    match parse_number(&v, 0, v.len()) {
        Some(n) => if n <= usize::MAX as u64 {
            Some(n as usize)
        } else {
            None
        },
        None => None,
    }
}

} // verus!
