//! Canonical decimal rendering and parsing of counter values.
//!
//! The cache stores every counter as a string of decimal digits, so both
//! the aggregator (which writes values) and the broadcaster (which reads
//! them back) share this codec.

use vstd::prelude::*;

verus! {

/// The digit character for `d`; meaningful for `d < 10`.
pub open spec fn digit_char(d: nat) -> char {
    if d == 0 {
        '0'
    } else if d == 1 {
        '1'
    } else if d == 2 {
        '2'
    } else if d == 3 {
        '3'
    } else if d == 4 {
        '4'
    } else if d == 5 {
        '5'
    } else if d == 6 {
        '6'
    } else if d == 7 {
        '7'
    } else if d == 8 {
        '8'
    } else {
        '9'
    }
}

/// The canonical decimal rendering of `n`: no leading zeroes, and the
/// single digit `0` for zero.
pub open spec fn decimal_rep(n: nat) -> Seq<char>
    decreases n,
{
    if n < 10 {
        seq![digit_char(n)]
    } else {
        decimal_rep(n / 10).push(digit_char(n % 10))
    }
}

/// Whether `c` is a decimal digit.
pub open spec fn is_digit_char(c: char) -> bool {
    48 <= c as int <= 57
}

/// The numeric value of a digit character; meaningful when `is_digit_char(c)`.
pub open spec fn digit_val(c: char) -> nat {
    (c as int - 48) as nat
}

/// Whether every character of `s` is a decimal digit.
pub open spec fn all_digits(s: Seq<char>) -> bool {
    forall|i: int| 0 <= i < s.len() ==> is_digit_char(#[trigger] s[i])
}

/// The number denoted by a digit string, most significant digit first.
pub open spec fn digits_value(s: Seq<char>) -> nat
    decreases s.len(),
{
    if s.len() == 0 {
        0
    } else {
        digits_value(s.drop_last()) * 10 + digit_val(s.last())
    }
}

fn digit_str(d: usize) -> (s: &'static str)
    requires
        d < 10,
    ensures
        s@ =~= seq![digit_char(d as nat)],
{
    proof {
        reveal_strlit("0");
        reveal_strlit("1");
        reveal_strlit("2");
        reveal_strlit("3");
        reveal_strlit("4");
        reveal_strlit("5");
        reveal_strlit("6");
        reveal_strlit("7");
        reveal_strlit("8");
        reveal_strlit("9");
    }
    if d == 0 {
        "0"
    } else if d == 1 {
        "1"
    } else if d == 2 {
        "2"
    } else if d == 3 {
        "3"
    } else if d == 4 {
        "4"
    } else if d == 5 {
        "5"
    } else if d == 6 {
        "6"
    } else if d == 7 {
        "7"
    } else if d == 8 {
        "8"
    } else {
        "9"
    }
}

/// Renders `n` as its canonical decimal string.
pub fn to_decimal(n: usize) -> (s: String)
    ensures
        s@ == decimal_rep(n as nat),
    decreases n,
{
    if n < 10 {
        String::from_str(digit_str(n))
    } else {
        let mut s = to_decimal(n / 10);
        s.append(digit_str(n % 10));
        proof {
            assert(s@ =~= decimal_rep(n as nat));
        }
        s
    }
}

/// Parses a decimal digit string back into a count.  Returns `None` when
/// the string is empty, contains a non-digit, or denotes a number that
/// does not fit in `usize`.
pub fn parse_count(s: &str) -> (r: Option<usize>)
    ensures
        match r {
            Some(n) => s@.len() > 0 && all_digits(s@) && digits_value(s@) == n,
            None => s@.len() == 0 || !all_digits(s@) || digits_value(s@) > usize::MAX,
        },
{
    let len = s.unicode_len();
    if len == 0 {
        return None;
    }
    let mut acc: usize = 0;
    let mut i: usize = 0;
    while i < len
        invariant
            0 <= i <= len,
            len == s@.len(),
            all_digits(s@.take(i as int)),
            acc == digits_value(s@.take(i as int)),
        decreases len - i,
    {
        let c = s.get_char(i);
        let u = c as u32;
        if u < 48 || u > 57 {
            proof {
                assert(!is_digit_char(s@[i as int]));
            }
            return None;
        }
        let d = (u - 48) as usize;
        if acc > (usize::MAX - d) / 10 {
            proof {
                lemma_digits_value_overflow(s@, i as int, acc as nat, d as nat);
            }
            return None;
        }
        proof {
            assert(acc * 10 + d <= usize::MAX) by (nonlinear_arith)
                requires
                    acc <= (usize::MAX - d) / 10,
                    d <= usize::MAX,
            {}
            assert(s@.take(i + 1).drop_last() =~= s@.take(i as int));
            assert(s@.take(i + 1).last() == s@[i as int]);
        }
        acc = acc * 10 + d;
        i = i + 1;
    }
    proof {
        assert(s@.take(len as int) =~= s@);
    }
    Some(acc)
}

/// A value already larger than every extension can still denote stays too
/// large: appending digits only increases a digit string's value.
proof fn lemma_digits_value_overflow(s: Seq<char>, i: int, acc: nat, d: nat)
    requires
        0 <= i < s.len(),
        acc == digits_value(s.take(i)),
        d == digit_val(s[i]),
        acc > (usize::MAX - d) / 10,
        d <= 9,
    ensures
        digits_value(s) > usize::MAX,
{
    assert(acc * 10 + d > usize::MAX) by (nonlinear_arith)
        requires
            acc > (usize::MAX - d) / 10,
            d <= 9,
    {}
    assert(s.take(i + 1).drop_last() =~= s.take(i));
    assert(s.take(i + 1).last() == s[i]);
    assert(digits_value(s.take(i + 1)) == acc * 10 + d);
    lemma_digits_value_prefix_le(s, i + 1);
}

/// The value of a digit string is at least the value of any prefix.
proof fn lemma_digits_value_prefix_le(s: Seq<char>, i: int)
    requires
        0 <= i <= s.len(),
    ensures
        digits_value(s.take(i)) <= digits_value(s),
    decreases s.len() - i,
{
    if i < s.len() {
        assert(s.take(i + 1).drop_last() =~= s.take(i));
        assert(digits_value(s.take(i + 1)) == digits_value(s.take(i)) * 10 + digit_val(
            s.take(i + 1).last(),
        ));
        assert(digits_value(s.take(i)) <= digits_value(s.take(i)) * 10) by (nonlinear_arith) {}
        lemma_digits_value_prefix_le(s, i + 1);
    } else {
        assert(s.take(i) =~= s);
    }
}

/// Rendering and parsing are inverse: the canonical decimal string of `n`
/// is non-empty, made of digits, free of leading zeroes, and denotes `n`.
pub proof fn lemma_decimal_round_trip(n: nat)
    ensures
        decimal_rep(n).len() > 0,
        all_digits(decimal_rep(n)),
        digits_value(decimal_rep(n)) == n,
        n > 0 ==> decimal_rep(n)[0] != '0',
    decreases n,
{
    if n < 10 {
        assert(decimal_rep(n) =~= seq![digit_char(n)]);
        assert(digits_value(decimal_rep(n)) == digits_value(
            decimal_rep(n).drop_last(),
        ) * 10 + digit_val(digit_char(n)));
        assert(decimal_rep(n).drop_last() =~= Seq::<char>::empty());
    } else {
        lemma_decimal_round_trip(n / 10);
        let prefix = decimal_rep(n / 10);
        assert(decimal_rep(n) == prefix.push(digit_char(n % 10)));
        assert(decimal_rep(n).drop_last() =~= prefix);
        assert(digits_value(decimal_rep(n)) == digits_value(prefix) * 10 + digit_val(
            digit_char(n % 10),
        ));
        assert(digit_val(digit_char(n % 10)) == n % 10);
        assert((n / 10) * 10 + n % 10 == n) by (nonlinear_arith) {}
        assert(forall|i: int|
            0 <= i < decimal_rep(n).len() ==> is_digit_char(#[trigger] decimal_rep(n)[i]));
    }
}

} // verus!
