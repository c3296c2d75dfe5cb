//! Compact token counts: `500`, `13.7K`, `1.2M`.

use vstd::prelude::*;
use vstd::string::StringExecFns;
use crate::decimal::{
    decimal_digits, digit_char, digit_str, digit_value, digits_value, is_digit, push_decimal,
    lemma_decimal_digits_denote, lemma_digit_char_denotes,
};

verus! {

/// Tokens in one tenth of a thousand.
pub const KILO_TENTH: u64 = 100;

/// Tokens in one tenth of a million.
pub const MEGA_TENTH: u64 = 100_000;

/// `r` tenths of the unit are a nearest reading of `t` tokens, when one
/// tenth of the unit is `tenth` tokens: `t` lies within half a tenth of
/// `r` tenths. Apart from an exact half tenth there is one such `r`; at an
/// exact half tenth both neighbours are nearest.
pub open spec fn is_nearest_tenths(t: nat, tenth: nat, r: nat) -> bool {
    &&& tenth * (2 * r) <= 2 * t + tenth
    &&& 2 * t <= tenth * (2 * r) + tenth
}

/// A count of tenths `r` in compact form: the whole part, then a point and
/// the tenths digit unless that digit is zero.
pub open spec fn tenths_text(r: nat) -> Seq<char> {
    if r % 10 == 0 {
        decimal_digits(r / 10)
    } else {
        decimal_digits(r / 10) + seq!['.', digit_char(r % 10)]
    }
}

/// `s` is a compact reading of `t` tokens: millions with one decimal and
/// `M` from a million up, thousands with one decimal and `K` from a
/// thousand up, the plain count below that. The decimal is a nearest tenth,
/// and it is left out when it is zero. At an exact half tenth either
/// neighbouring tenth may be shown.
pub open spec fn shows_tokens(t: nat, s: Seq<char>) -> bool {
    if t >= 1_000_000 {
        exists|r: nat| #[trigger]
            is_nearest_tenths(t, MEGA_TENTH as nat, r) && s == tenths_text(r).push('M')
    } else if t >= 1000 {
        exists|r: nat| #[trigger]
            is_nearest_tenths(t, KILO_TENTH as nat, r) && s == tenths_text(r).push('K')
    } else {
        s == decimal_digits(t)
    }
}

/// Off an exact half tenth, the nearest reading is unique: two nearest
/// counts of tenths of `t` are equal unless `t` lies exactly half way
/// between two tenths.
pub proof fn lemma_nearest_tenths_unique_off_ties(t: nat, tenth: nat, r1: nat, r2: nat)
    requires
        tenth > 0,
        is_nearest_tenths(t, tenth, r1),
        is_nearest_tenths(t, tenth, r2),
        (2 * t + tenth) % (2 * tenth) != 0,
    ensures
        r1 == r2,
{
    if r1 != r2 {
        let lo: nat = if r1 < r2 { r1 } else { r2 };
        let hi: nat = if r1 < r2 { r2 } else { r1 };
        assert(2 * t + tenth == (2 * tenth) * (lo + 1)) by (nonlinear_arith)
            requires
                lo < hi,
                tenth > 0,
                tenth * (2 * hi) <= 2 * t + tenth,
                2 * t <= tenth * (2 * lo) + tenth,
        ;
        vstd::arithmetic::div_mod::lemma_mod_multiples_basic((lo + 1) as int, (2 * tenth) as int);
        assert((lo + 1) * (2 * tenth) == (2 * tenth) * (lo + 1)) by (nonlinear_arith);
    }
}

/// A nearest count of tenths of `t`, picking the even one at an exact half
/// tenth, as Rust's `{:.1}` formatting does at a tie that it holds exactly.
fn round_to_tenths(t: u64, tenth: u64) -> (r: u64)
    requires
        KILO_TENTH <= tenth <= MEGA_TENTH,
    ensures
        is_nearest_tenths(t as nat, tenth as nat, r as nat),
{
    let q: u64 = t / tenth;
    let m: u64 = t % tenth;
    assert(t == tenth * q + m && m < tenth) by (nonlinear_arith)
        requires
            tenth > 0,
            q == t / tenth,
            m == t % tenth,
    ;
    assert(tenth * (2 * q) == 2 * (tenth * q)) by (nonlinear_arith);
    assert(tenth * (2 * (q + 1)) == 2 * (tenth * q) + 2 * tenth) by (nonlinear_arith);
    let twice_rem: u64 = 2 * (t % tenth);
    assert(q < u64::MAX) by (nonlinear_arith)
        requires
            q == t / tenth,
            tenth >= 100,
    ;
    if twice_rem > tenth || (twice_rem == tenth && q % 2 == 1) {
        q + 1
    } else {
        q
    }
}

/// Appends `tenths_text(r)` to `s`.
fn push_tenths(s: &mut String, r: u64)
    ensures
        final(s)@ == old(s)@ + tenths_text(r as nat),
{
    push_decimal(s, r / 10);
    let d: u64 = r % 10;
    if d != 0 {
        let ghost mid = s@;
        proof {
            reveal_strlit(".");
        }
        s.append(".");
        s.append(digit_str(d));
        assert(s@ == mid + seq!['.', digit_char(d as nat)]);
    }
}

/// Formats a token count compactly: `500`, `1K`, `13.7K`, `1.2M`.
pub fn format_tokens(tokens: u64) -> (s: String)
    ensures
        shows_tokens(tokens as nat, s@),
{
    let mut s = String::new();
    if tokens >= 1_000_000 {
        let r: u64 = round_to_tenths(tokens, MEGA_TENTH);
        push_tenths(&mut s, r);
        proof {
            reveal_strlit("M");
        }
        s.append("M");
        assert(is_nearest_tenths(tokens as nat, MEGA_TENTH as nat, r as nat) && s@ == tenths_text(
            r as nat,
        ).push('M'));
    } else if tokens >= 1000 {
        let r: u64 = round_to_tenths(tokens, KILO_TENTH);
        push_tenths(&mut s, r);
        proof {
            reveal_strlit("K");
        }
        s.append("K");
        assert(is_nearest_tenths(tokens as nat, KILO_TENTH as nat, r as nat) && s@ == tenths_text(
            r as nat,
        ).push('K'));
    } else {
        push_decimal(&mut s, tokens);
    }
    s
}


/// Whether every character of `w` is a digit.
pub open spec fn all_digits(w: Seq<char>) -> bool {
    forall|i: int| 0 <= i < w.len() ==> is_digit(#[trigger] w[i])
}

/// Whether `w` is a number written with at most one decimal: digits, or
/// digits, a point and one nonzero digit.
pub open spec fn is_compact_number(w: Seq<char>) -> bool {
    ||| w.len() > 0 && all_digits(w)
    ||| {
        &&& w.len() >= 3
        &&& w[w.len() - 2] == '.'
        &&& all_digits(w.subrange(0, w.len() - 2))
        &&& is_digit(w.last())
        &&& w.last() != '0'
    }
}

/// The number of tenths that a compact number `w` denotes.
pub open spec fn denoted_tenths(w: Seq<char>) -> int {
    if w.len() >= 2 && w[w.len() - 2] == '.' {
        digits_value(w.subrange(0, w.len() - 2)) * 10 + digit_value(w.last())
    } else {
        digits_value(w) * 10
    }
}

/// `tenths_text(r)` is a number with at most one decimal that denotes
/// exactly `r` tenths.
pub proof fn lemma_tenths_text_denotes(r: nat)
    ensures
        is_compact_number(tenths_text(r)),
        denoted_tenths(tenths_text(r)) == r,
{
    let w = decimal_digits(r / 10);
    lemma_decimal_digits_denote(r / 10);
    if r % 10 == 0 {
        assert(all_digits(w));
        if w.len() >= 2 {
            assert(is_digit(w[w.len() - 2]));
        }
    } else {
        lemma_digit_char_denotes(r % 10);
        let v = w + seq!['.', digit_char(r % 10)];
        assert(tenths_text(r) == v);
        assert(v.subrange(0, v.len() - 2) =~= w);
        assert(v[v.len() - 2] == '.');
        assert(v.last() == digit_char(r % 10));
    }
}

/// A compact reading of `t` tokens says what `t` is: below a thousand the
/// exact count; from a thousand up a number with at most one decimal,
/// followed by `K` (thousands) or `M` (millions), whose tenths are a
/// nearest count of tenths of `t` in that unit (within half a tenth of
/// `t`).
pub proof fn lemma_shown_tokens_denote(t: nat, s: Seq<char>)
    requires
        shows_tokens(t, s),
    ensures
        t < 1000 ==> s.len() > 0 && all_digits(s) && digits_value(s) == t,
        1000 <= t < 1_000_000 ==> s.len() > 0 && s.last() == 'K' && is_compact_number(s.drop_last())
            && 200 * denoted_tenths(s.drop_last()) <= 2 * t + 100 && 2 * t <= 200
            * denoted_tenths(s.drop_last()) + 100,
        t >= 1_000_000 ==> s.len() > 0 && s.last() == 'M' && is_compact_number(s.drop_last())
            && 200_000 * denoted_tenths(s.drop_last()) <= 2 * t + 100_000 && 2 * t <= 200_000
            * denoted_tenths(s.drop_last()) + 100_000,
{
    if t >= 1000 {
        let tenth: nat = if t >= 1_000_000 {
            MEGA_TENTH as nat
        } else {
            KILO_TENTH as nat
        };
        let unit: char = if t >= 1_000_000 { 'M' } else { 'K' };
        let r: nat = choose|r: nat| #[trigger]
            is_nearest_tenths(t, tenth, r) && s == tenths_text(r).push(unit);
        lemma_tenths_text_denotes(r);
        assert(s.drop_last() =~= tenths_text(r));
    } else {
        lemma_decimal_digits_denote(t);
    }
}

} // verus!
