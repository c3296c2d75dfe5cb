//! Decimal rendering of unsigned integers, with the digits stated as a
//! sequence of characters.

use vstd::prelude::*;
use vstd::string::StringExecFns;

verus! {

/// The character of a decimal digit `d` (`d < 10`).
pub open spec fn digit_char(d: nat) -> char {
    if d == 0 {
        '0'
    } else if d == 1 {
        '1'
    } else if d == 2 {
        '2'
    } else if d == 3 {
        '3'
    } else if d == 4 {
        '4'
    } else if d == 5 {
        '5'
    } else if d == 6 {
        '6'
    } else if d == 7 {
        '7'
    } else if d == 8 {
        '8'
    } else {
        '9'
    }
}

/// The decimal digits of `n`, most significant first, with no leading
/// zeros (zero itself is the single digit `0`).
pub open spec fn decimal_digits(n: nat) -> Seq<char>
    decreases n,
{
    if n < 10 {
        seq![digit_char(n)]
    } else {
        decimal_digits(n / 10).push(digit_char(n % 10))
    }
}

/// A one-character string holding the digit `d`.
pub(crate) fn digit_str(d: u64) -> (s: &'static str)
    requires
        d < 10,
    ensures
        s@ == seq![digit_char(d as nat)],
{
    if d == 0 {
        proof {
            reveal_strlit("0");
        }
        "0"
    } else if d == 1 {
        proof {
            reveal_strlit("1");
        }
        "1"
    } else if d == 2 {
        proof {
            reveal_strlit("2");
        }
        "2"
    } else if d == 3 {
        proof {
            reveal_strlit("3");
        }
        "3"
    } else if d == 4 {
        proof {
            reveal_strlit("4");
        }
        "4"
    } else if d == 5 {
        proof {
            reveal_strlit("5");
        }
        "5"
    } else if d == 6 {
        proof {
            reveal_strlit("6");
        }
        "6"
    } else if d == 7 {
        proof {
            reveal_strlit("7");
        }
        "7"
    } else if d == 8 {
        proof {
            reveal_strlit("8");
        }
        "8"
    } else {
        proof {
            reveal_strlit("9");
        }
        "9"
    }
}

/// Appends the decimal digits of `n` to `s`.
pub(crate) fn push_decimal(s: &mut String, n: u64)
    ensures
        final(s)@ == old(s)@ + decimal_digits(n as nat),
    decreases n,
{
    if n >= 10 {
        push_decimal(s, n / 10);
    }
    s.append(digit_str(n % 10));
}


/// Whether `c` is one of the characters `0` to `9`.
pub open spec fn is_digit(c: char) -> bool {
    48 <= (c as int) <= 57
}

/// The value of a digit character.
pub open spec fn digit_value(c: char) -> int {
    (c as int) - 48
}

/// The number that a string of digit characters denotes in decimal.
pub open spec fn digits_value(s: Seq<char>) -> int
    decreases s.len(),
{
    if s.len() == 0 {
        0
    } else {
        digits_value(s.drop_last()) * 10 + digit_value(s.last())
    }
}

/// `digit_char(d)` is the digit character whose value is `d`.
pub proof fn lemma_digit_char_denotes(d: nat)
    requires
        d < 10,
    ensures
        is_digit(digit_char(d)),
        digit_value(digit_char(d)) == d,
{
}

/// The decimal digits of `n` are digit characters, start with a nonzero
/// digit unless `n` is zero, and read back as `n`.
pub proof fn lemma_decimal_digits_denote(n: nat)
    ensures
        decimal_digits(n).len() > 0,
        forall|i: int| 0 <= i < decimal_digits(n).len() ==> is_digit(#[trigger] decimal_digits(n)[i]),
        n > 0 ==> decimal_digits(n)[0] != '0',
        digits_value(decimal_digits(n)) == n,
    decreases n,
{
    lemma_digit_char_denotes(n % 10);
    if n >= 10 {
        let w = decimal_digits(n / 10);
        lemma_decimal_digits_denote(n / 10);
        let v = w.push(digit_char(n % 10));
        assert(decimal_digits(n) == v);
        assert(v.drop_last() =~= w);
        assert forall|i: int| 0 <= i < v.len() implies is_digit(#[trigger] v[i]) by {
            if i < w.len() {
                assert(v[i] == w[i]);
            }
        }
        assert(v[0] == w[0]);
        assert(v.last() == digit_char(n % 10));
        assert(digits_value(v) == digits_value(w) * 10 + digit_value(digit_char(n % 10)));
        assert(n == (n / 10) * 10 + n % 10);
    } else {
        let v = seq![digit_char(n)];
        assert(decimal_digits(n) == v);
        assert(v.drop_last() =~= Seq::<char>::empty());
        assert(digits_value(v) == digits_value(v.drop_last()) * 10 + digit_value(v.last()));
        assert(digits_value(Seq::<char>::empty()) == 0);
    }
}

} // verus!
