//! Decimal numerals of unsigned integers, as the payloads and topic segments of
//! published measurements spell them.

use vstd::prelude::*;
use vstd::string::{StrSliceExecFns, StringExecFns};

verus! {

/// The character that stands for the decimal digit `d`.
pub open spec fn digit_char(d: nat) -> char
    recommends
        d < 10,
{
    if d == 0 {
        '0'
    } else if d == 1 {
        '1'
    } else if d == 2 {
        '2'
    } else if d == 3 {
        '3'
    } else if d == 4 {
        '4'
    } else if d == 5 {
        '5'
    } else if d == 6 {
        '6'
    } else if d == 7 {
        '7'
    } else if d == 8 {
        '8'
    } else {
        '9'
    }
}

/// The decimal numeral of `n`: most significant digit first, no sign, no
/// leading zero, and the single digit `0` for zero.
pub open spec fn decimal_text(n: nat) -> Seq<char>
    decreases n,
{
    if n < 10 {
        seq![digit_char(n)]
    } else {
        decimal_text(n / 10).push(digit_char(n % 10))
    }
}

/// Whether `c` is one of the ten decimal digits.
pub open spec fn is_digit(c: char) -> bool {
    exists|d: nat| d < 10 && c == digit_char(d)
}

/// The one-character text of a single decimal digit.
fn digit_str(d: u64) -> (text: &'static str)
    requires
        d < 10,
    ensures
        text@ == seq![digit_char(d as nat)],
{
    proof {
        reveal_strlit("0123456789");
    }
    let digits = "0123456789";
    digits.substring_ascii(d as usize, d as usize + 1)
}

/// Writes `n` as a decimal numeral.
pub fn decimal(n: u64) -> (text: String)
    ensures
        text@ == decimal_text(n as nat),
    decreases n,
{
    if n < 10 {
        String::from_str(digit_str(n))
    } else {
        let mut text = decimal(n / 10);
        text.append(digit_str(n % 10));
        text
    }
}

/// A decimal numeral is never empty, holds digits only, and starts with `0`
/// only when the number is zero.
pub proof fn lemma_decimal_text_shape(n: nat)
    ensures
        decimal_text(n).len() >= 1,
        forall|i: int| 0 <= i < decimal_text(n).len() ==> is_digit(#[trigger] decimal_text(n)[i]),
        decimal_text(n)[0] == '0' <==> n == 0,
    decreases n,
{
    if n < 10 {
        assert(is_digit(digit_char(n)));
    } else {
        lemma_decimal_text_shape(n / 10);
        let head = decimal_text(n / 10);
        let last = digit_char(n % 10);
        assert(is_digit(last));
        assert forall|i: int| 0 <= i < decimal_text(n).len() implies is_digit(
            #[trigger] decimal_text(n)[i],
        ) by {
            if i < head.len() {
                assert(decimal_text(n)[i] == head[i]);
            }
        }
    }
}

/// Two digits with the same character are the same digit.
proof fn lemma_digit_char_injective(c: nat, d: nat)
    requires
        c < 10,
        d < 10,
        digit_char(c) == digit_char(d),
    ensures
        c == d,
{
}

/// Two numbers with the same decimal numeral are the same number.
pub proof fn lemma_decimal_text_injective(a: nat, b: nat)
    requires
        decimal_text(a) == decimal_text(b),
    ensures
        a == b,
    decreases a,
{
    lemma_decimal_text_shape(a / 10);
    lemma_decimal_text_shape(b / 10);
    if a < 10 && b < 10 {
        assert(decimal_text(a)[0] == digit_char(a));
        assert(decimal_text(b)[0] == digit_char(b));
        lemma_digit_char_injective(a, b);
    } else if a >= 10 && b >= 10 {
        let head_a = decimal_text(a / 10);
        let head_b = decimal_text(b / 10);
        assert(decimal_text(a).drop_last() =~= head_a);
        assert(decimal_text(b).drop_last() =~= head_b);
        assert(decimal_text(a).last() == digit_char(a % 10));
        assert(decimal_text(b).last() == digit_char(b % 10));
        lemma_decimal_text_injective(a / 10, b / 10);
        lemma_digit_char_injective(a % 10, b % 10);
        assert(a == 10 * (a / 10) + a % 10);
        assert(b == 10 * (b / 10) + b % 10);
    } else if a < 10 {
        assert(decimal_text(a).len() == 1);
        assert(decimal_text(b).len() == decimal_text(b / 10).len() + 1);
    } else {
        assert(decimal_text(b).len() == 1);
        assert(decimal_text(a).len() == decimal_text(a / 10).len() + 1);
    }
}

} // verus!
