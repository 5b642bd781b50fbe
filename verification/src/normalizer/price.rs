//! Prices: from the display string of a store to micros, a millionth of the
//! currency unit.

use crate::foreign::{char_is_numeric, numeric_char};
use vstd::arithmetic::div_mod::{
    lemma_div_by_multiple, lemma_div_denominator, lemma_hoist_over_denominator,
};
use vstd::prelude::*;

verus! {

/// Whether a character survives the stripping of a price string: numeric
/// characters and the dot do.
pub open spec fn keeps(c: char) -> bool {
    numeric_char(c) || c == '.'
}

/// A price string without its currency signs, spaces and letters.
pub open spec fn strip_non_numeric(s: Seq<char>) -> Seq<char> {
    s.filter(|c: char| keeps(c))
}

/// One of the ten digits `0` to `9`.
pub open spec fn is_digit(c: char) -> bool {
    '0' <= c <= '9'
}

/// The number that a digit stands for.
pub open spec fn digit_value(c: char) -> nat {
    (c as int - 48) as nat
}

/// Every character is a digit or a dot.
pub open spec fn plain(t: Seq<char>) -> bool
    decreases t.len(),
{
    t.len() == 0 || ((is_digit(t.last()) || t.last() == '.') && plain(t.drop_last()))
}

/// How many dots a string holds.
pub open spec fn dot_count(t: Seq<char>) -> nat
    decreases t.len(),
{
    if t.len() == 0 {
        0
    } else {
        dot_count(t.drop_last()) + if t.last() == '.' {
            1nat
        } else {
            0nat
        }
    }
}

/// How many digits a string holds.
pub open spec fn digit_count(t: Seq<char>) -> nat
    decreases t.len(),
{
    if t.len() == 0 {
        0
    } else {
        digit_count(t.drop_last()) + if is_digit(t.last()) {
            1nat
        } else {
            0nat
        }
    }
}

/// What parses as a decimal number: digits with at most one dot among
/// them, and at least one digit.
pub open spec fn is_decimal(t: Seq<char>) -> bool {
    plain(t) && dot_count(t) <= 1 && digit_count(t) >= 1
}

/// The number that the digits of a plain string spell when its dot is
/// left out.
pub open spec fn digits_number(t: Seq<char>) -> nat
    decreases t.len(),
{
    if t.len() == 0 {
        0
    } else if t.last() == '.' {
        digits_number(t.drop_last())
    } else {
        digits_number(t.drop_last()) * 10 + digit_value(t.last())
    }
}

/// How many characters stand behind the last dot; 0 where there is no dot.
pub open spec fn fraction_len(t: Seq<char>) -> nat
    decreases t.len(),
{
    if t.len() == 0 || t.last() == '.' || dot_count(t.drop_last()) == 0 {
        0
    } else {
        fraction_len(t.drop_last()) + 1
    }
}

/// Ten to the power `k`.
pub open spec fn pow10(k: nat) -> nat
    decreases k,
{
    if k == 0 {
        1
    } else {
        10 * pow10((k - 1) as nat)
    }
}

/// The value of a decimal string in micros, cut off below the millionth: the
/// string stands for `digits_number / 10^fraction_len`.
pub open spec fn decimal_micros(t: Seq<char>) -> nat {
    (digits_number(t) * 1_000_000) / pow10(fraction_len(t))
}

/// The micros of a price string: the value of what is left after
/// stripping, times a million, cut off to an integer and held below the
/// largest `i64`; 0 where what is left is no decimal number.
pub open spec fn price_micros(s: Seq<char>) -> int {
    let t = strip_non_numeric(s);
    if is_decimal(t) {
        if decimal_micros(t) > i64::MAX {
            i64::MAX as int
        } else {
            decimal_micros(t) as int
        }
    } else {
        0
    }
}

/// The number that the digits before the dot spell.
pub open spec fn whole_number(t: Seq<char>) -> nat
    decreases t.len(),
{
    if t.len() == 0 {
        0
    } else if t.last() == '.' || dot_count(t.drop_last()) > 0 {
        whole_number(t.drop_last())
    } else {
        whole_number(t.drop_last()) * 10 + digit_value(t.last())
    }
}

/// The number that the digits behind the dot spell.
pub open spec fn fraction_number(t: Seq<char>) -> nat
    decreases t.len(),
{
    if t.len() == 0 || t.last() == '.' || dot_count(t.drop_last()) == 0 {
        0
    } else {
        fraction_number(t.drop_last()) * 10 + digit_value(t.last())
    }
}

/// The number that the first six digits behind the dot spell, or all of
/// them where there are fewer.
pub open spec fn fraction_head(t: Seq<char>) -> nat
    decreases t.len(),
{
    if t.len() == 0 || t.last() == '.' || dot_count(t.drop_last()) == 0 {
        0
    } else if fraction_len(t.drop_last()) < 6 {
        fraction_head(t.drop_last()) * 10 + digit_value(t.last())
    } else {
        fraction_head(t.drop_last())
    }
}

/// How many digits `fraction_head` holds: at most six.
pub open spec fn head_len(t: Seq<char>) -> nat {
    if fraction_len(t) < 6 {
        fraction_len(t)
    } else {
        6
    }
}

/// The micros of a decimal string, digit by digit: the whole part times a
/// million, and the first six digits of the fraction as millionths.
pub open spec fn digit_micros(t: Seq<char>) -> nat {
    whole_number(t) * 1_000_000 + fraction_head(t) * pow10((6 - head_len(t)) as nat)
}

proof fn lemma_pow10_positive(k: nat)
    ensures
        pow10(k) > 0,
    decreases k,
{
    if k > 0 {
        lemma_pow10_positive((k - 1) as nat);
    }
}

proof fn lemma_pow10_adds(a: nat, b: nat)
    ensures
        pow10(a + b) == pow10(a) * pow10(b),
    decreases a,
{
    if a == 0 {
        assert(pow10(0) == 1);
        assert(1 * pow10(b) == pow10(b)) by (nonlinear_arith);
    } else {
        lemma_pow10_adds((a - 1) as nat, b);
        let x = pow10((a - 1) as nat);
        let y = pow10(b);
        assert(pow10(a + b) == 10 * pow10((a - 1 + b) as nat));
        assert(10 * (x * y) == (10 * x) * y) by (nonlinear_arith);
    }
}

proof fn lemma_pow10_six()
    ensures
        pow10(0) == 1,
        pow10(1) == 10,
        pow10(2) == 100,
        pow10(3) == 1_000,
        pow10(4) == 10_000,
        pow10(5) == 100_000,
        pow10(6) == 1_000_000,
{
    reveal_with_fuel(pow10, 8);
}

/// The digits of a decimal string fall into a whole part and a fraction.
proof fn lemma_digits_split(t: Seq<char>)
    requires
        plain(t),
        dot_count(t) <= 1,
    ensures
        digits_number(t) == whole_number(t) * pow10(fraction_len(t)) + fraction_number(t),
        fraction_number(t) < pow10(fraction_len(t)),
    decreases t.len(),
{
    if t.len() == 0 {
        assert(0 * pow10(0) == 0) by (nonlinear_arith);
    } else {
        let p = t.drop_last();
        let c = t.last();
        lemma_digits_split(p);
        let k = fraction_len(p);
        let w = whole_number(p);
        let f = fraction_number(p);
        let pk = pow10(k);
        if c == '.' || dot_count(p) == 0 {
            lemma_no_dot_no_fraction(p);
            assert(pk == 1);
            assert(w * pk == w) by (nonlinear_arith)
                requires
                    pk == 1,
            ;
            assert(digits_number(p) == w);
            assert(fraction_len(t) == 0);
            assert(fraction_number(t) == 0);
            let x = whole_number(t);
            assert(x * pow10(0) == x) by (nonlinear_arith)
                requires
                    pow10(0) == 1,
            ;
        } else {
            let d = digit_value(c);
            assert(pow10(k + 1) == 10 * pk);
            assert(fraction_len(t) == k + 1);
            assert((w * pk + f) * 10 + d == w * (10 * pk) + (f * 10 + d)) by (nonlinear_arith);
        }
    }
}

/// Before the dot there is no fraction.
proof fn lemma_no_dot_no_fraction(t: Seq<char>)
    ensures
        dot_count(t) == 0 ==> fraction_len(t) == 0 && fraction_number(t) == 0 && fraction_head(t)
            == 0,
{
}

/// `fraction_head` is the fraction cut off behind its sixth digit.
proof fn lemma_fraction_head(t: Seq<char>)
    requires
        plain(t),
        dot_count(t) <= 1,
    ensures
        fraction_len(t) <= 6 ==> fraction_head(t) == fraction_number(t),
        fraction_len(t) > 6 ==> fraction_head(t) == fraction_number(t) / pow10(
            (fraction_len(t) - 6) as nat,
        ),
    decreases t.len(),
{
    if t.len() == 0 || t.last() == '.' || dot_count(t.drop_last()) == 0 {
    } else {
        let p = t.drop_last();
        let d = digit_value(t.last());
        lemma_fraction_head(p);
        let k = fraction_len(p);
        let f = fraction_number(p);
        if k >= 6 {
            let m = (k - 6) as nat;
            lemma_pow10_positive(m);
            assert(pow10(m + 1) == 10 * pow10(m));
            assert((f * 10 + d) / 10 == f);
            lemma_div_denominator((f * 10 + d) as int, 10, pow10(m) as int);
            if k == 6 {
                assert(pow10(0) == 1);
            }
        }
    }
}

/// Digit by digit the micros come out as the value times a million, cut off
/// to an integer.
pub proof fn lemma_digit_micros(t: Seq<char>)
    requires
        plain(t),
        dot_count(t) <= 1,
    ensures
        digit_micros(t) == decimal_micros(t),
{
    lemma_digits_split(t);
    lemma_fraction_head(t);
    lemma_pow10_six();
    let n = digits_number(t);
    let w = whole_number(t);
    let f = fraction_number(t);
    let h = fraction_head(t);
    let k = fraction_len(t);
    let p = pow10(k);
    lemma_pow10_positive(k);
    if k <= 6 {
        let q = pow10((6 - k) as nat);
        lemma_pow10_adds(k, (6 - k) as nat);
        assert(p * q == 1_000_000);
        assert(n * 1_000_000 == (n * q) * p) by (nonlinear_arith)
            requires
                p * q == 1_000_000,
        ;
        lemma_div_by_multiple((n * q) as int, p as int);
        assert(n * q == w * 1_000_000 + f * q) by (nonlinear_arith)
            requires
                n == w * p + f,
                p * q == 1_000_000,
        ;
    } else {
        let m = (k - 6) as nat;
        let q = pow10(m);
        lemma_pow10_positive(m);
        lemma_pow10_adds(6, m);
        assert(p == 1_000_000 * q);
        vstd::arithmetic::div_mod::lemma_div_multiples_vanish_quotient(
            1_000_000,
            n as int,
            q as int,
        );
        assert(1_000_000 * n == n * 1_000_000) by (nonlinear_arith);
        assert(n as int == f + (w * 1_000_000) * q) by (nonlinear_arith)
            requires
                n == w * p + f,
                p == 1_000_000 * q,
        ;
        lemma_hoist_over_denominator(f as int, (w * 1_000_000) as int, q);
        assert(h * 1 == h) by (nonlinear_arith);
    }
}

/// The value of a decimal string in micros, rounded to the nearest integer,
/// halves upwards.
pub open spec fn rounded_micros(t: Seq<char>) -> nat {
    (2 * (digits_number(t) * 1_000_000) + pow10(fraction_len(t))) / (2 * pow10(fraction_len(t)))
}

/// What cutting off drops from a decimal string, in units of
/// `1 / 10^fraction_len` micros.
pub open spec fn dropped_part(t: Seq<char>) -> nat {
    (digits_number(t) * 1_000_000) % pow10(fraction_len(t))
}

/// A price string that holds no decimal number has 0 micros. One that holds a
/// decimal number has that number times a million, rounded, wherever what
/// lies beyond the sixth digit behind the dot is less than half a micro and
/// the result fits an `i64`.
pub proof fn lemma_price_micros_is_rounded_value(s: Seq<char>)
    ensures
        !is_decimal(strip_non_numeric(s)) ==> price_micros(s) == 0,
        is_decimal(strip_non_numeric(s)) && 2 * dropped_part(strip_non_numeric(s)) < pow10(
            fraction_len(strip_non_numeric(s)),
        ) && rounded_micros(strip_non_numeric(s)) <= i64::MAX ==> price_micros(s)
            == rounded_micros(strip_non_numeric(s)),
{
    let t = strip_non_numeric(s);
    let p = pow10(fraction_len(t));
    let a = digits_number(t) * 1_000_000;
    lemma_pow10_positive(fraction_len(t));
    if is_decimal(t) && 2 * dropped_part(t) < p {
        let q = a / p;
        let r = a % p;
        vstd::arithmetic::div_mod::lemma_fundamental_div_mod(a as int, p as int);
        assert(2 * a + p == (2 * p) * q + (2 * r + p)) by (nonlinear_arith)
            requires
                a == p * q + r,
        ;
        vstd::arithmetic::div_mod::lemma_div_multiples_vanish_fancy(
            q as int,
            (2 * r + p) as int,
            (2 * p) as int,
        );
    }
}

/// Up to six digits behind the dot nothing is dropped: the micros are the
/// number times a million exactly.
pub proof fn lemma_six_digits_are_exact(t: Seq<char>)
    requires
        plain(t),
        dot_count(t) <= 1,
        fraction_len(t) <= 6,
    ensures
        dropped_part(t) == 0,
        decimal_micros(t) * pow10(fraction_len(t)) == digits_number(t) * 1_000_000,
{
    let k = fraction_len(t);
    let n = digits_number(t);
    let p = pow10(k);
    let q = pow10((6 - k) as nat);
    lemma_pow10_six();
    lemma_pow10_positive(k);
    lemma_pow10_adds(k, (6 - k) as nat);
    assert(n * 1_000_000 == (n * q) * p) by (nonlinear_arith)
        requires
            p * q == 1_000_000,
    ;
    lemma_div_by_multiple((n * q) as int, p as int);
    vstd::arithmetic::div_mod::lemma_fundamental_div_mod((n * 1_000_000) as int, p as int);
    assert(p * (n * q) == (n * q) * p) by (nonlinear_arith);
}

/// Stripping goes character by character.
proof fn lemma_strip_step(s: Seq<char>, i: int)
    requires
        0 <= i < s.len(),
    ensures
        strip_non_numeric(s.take(i + 1)) == if keeps(s[i]) {
            strip_non_numeric(s.take(i)).push(s[i])
        } else {
            strip_non_numeric(s.take(i))
        },
{
    reveal(Seq::filter);
    assert(s.take(i + 1).drop_last() =~= s.take(i));
    assert(s.take(i + 1).last() == s[i]);
}

/// The whole part above which every price is more than an `i64` of micros
/// can hold.
pub const WHOLE_LIMIT: u64 = 10_000_000_000_000;

spec fn held(whole: nat) -> nat {
    if whole >= WHOLE_LIMIT {
        WHOLE_LIMIT as nat
    } else {
        whole
    }
}

/// Whether a character of a price string is kept when the string is
/// stripped. Of the characters below U+0080 the ten digits and the dot are
/// kept and no other.
pub fn is_kept(c: char) -> (r: bool)
    ensures
        r == keeps(c),
        (c as u32) < 0x80 ==> r == (is_digit(c) || c == '.'),
{
    c == '.' || char_is_numeric(c)
}

/// Reads the micros out of a price as a store displays it.
///
/// Currency signs, letters and spaces are dropped; what is left is read as
/// a decimal number, multiplied by a million and cut off to an integer. A
/// price that is no number gives 0, and one too large for an `i64` gives the
/// largest `i64`.
pub fn parse_price_micros(formatted: &str) -> (r: i64)
    ensures
        r == price_micros(formatted@),
        r >= 0,
{
    let n: usize = formatted.unicode_len();
    let mut i: usize = 0;
    let mut valid: bool = true;
    let mut seen_dot: bool = false;
    let mut any_digit: bool = false;
    let mut whole: u64 = 0;
    let mut head: u64 = 0;
    let mut taken: u8 = 0;
    let ghost mut t: Seq<char> = Seq::empty();
    proof {
        reveal(Seq::filter);
        assert(formatted@.take(0) =~= Seq::<char>::empty());
        lemma_pow10_six();
    }
    while i < n
        invariant
            n == formatted@.len(),
            i <= n,
            t == strip_non_numeric(formatted@.take(i as int)),
            valid == (plain(t) && dot_count(t) <= 1),
            any_digit == (digit_count(t) >= 1),
            valid ==> seen_dot == (dot_count(t) == 1),
            valid ==> whole == held(whole_number(t)),
            valid ==> head == fraction_head(t),
            valid ==> taken == head_len(t),
            whole <= WHOLE_LIMIT,
            taken <= 6,
            head < pow10(taken as nat),
        decreases n - i,
    {
        let c: char = formatted.get_char(i);
        let kept: bool = is_kept(c);
        let ghost before = t;
        proof {
            lemma_strip_step(formatted@, i as int);
            lemma_no_dot_no_fraction(before);
            lemma_pow10_six();
            if keeps(c) {
                t = before.push(c);
                assert(t.drop_last() =~= before);
                assert(t.last() == c);
            }
        }
        if c == '.' {
            if seen_dot {
                valid = false;
            } else {
                seen_dot = true;
            }
        } else if kept {
            if c >= '0' && c <= '9' {
                any_digit = true;
                let d: u64 = (c as u64) - 48;
                if !seen_dot {
                    let next: u64 = whole * 10 + d;
                    whole = if next >= WHOLE_LIMIT {
                        WHOLE_LIMIT
                    } else {
                        next
                    };
                } else if taken < 6 {
                    assert(pow10((taken + 1) as nat) == 10 * pow10(taken as nat));
                    head = head * 10 + d;
                    taken = taken + 1;
                }
            } else {
                valid = false;
            }
        }
        i = i + 1;
    }
    proof {
        assert(formatted@.take(n as int) =~= formatted@);
    }
    if !valid || !any_digit {
        return 0;
    }
    proof {
        lemma_digit_micros(t);
        lemma_pow10_six();
    }
    let scaled: u64 = if taken == 0 {
        0
    } else if taken == 1 {
        head * 100_000
    } else if taken == 2 {
        head * 10_000
    } else if taken == 3 {
        head * 1_000
    } else if taken == 4 {
        head * 100
    } else if taken == 5 {
        head * 10
    } else {
        head
    };
    assert(scaled == fraction_head(t) * pow10((6 - head_len(t)) as nat)) by {
        lemma_pow10_six();
        let h = fraction_head(t);
        assert(h * 1 == h) by (nonlinear_arith);
        if taken == 0 {
            assert(h * 1_000_000 == 0) by (nonlinear_arith)
                requires
                    h == 0,
            ;
        }
    }
    let total: u64 = whole * 1_000_000 + scaled;
    if total > 9_223_372_036_854_775_807 {
        9_223_372_036_854_775_807
    } else {
        total as i64
    }
}

} // verus!
