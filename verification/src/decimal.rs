//! Decimal notation of natural numbers, as the text that a display shows.

use vstd::prelude::*;

verus! {

/// The character of the digit `d`, for `d` below ten.
pub open spec fn digit_char(d: nat) -> char {
    ((48 + d) as u8) as char
}

/// `c` is one of `'0'` to `'9'`.
pub open spec fn is_digit(c: char) -> bool {
    '0' <= c <= '9'
}

/// Every character of `text` is a decimal digit.
pub open spec fn is_decimal_text(text: Seq<char>) -> bool {
    forall|i: int| 0 <= i < text.len() ==> is_digit(#[trigger] text[i])
}

/// The decimal notation of `n`: most significant digit first, no sign, no
/// padding, and a single `'0'` for zero.
pub open spec fn decimal(n: nat) -> Seq<char>
    decreases n,
{
    if n < 10 {
        seq![digit_char(n)]
    } else {
        decimal(n / 10).push(digit_char(n % 10))
    }
}

/// Ten to the power `k`.
pub open spec fn pow10(k: nat) -> nat
    decreases k,
{
    if k == 0 {
        1
    } else {
        10 * pow10((k - 1) as nat)
    }
}

/// The notation of a number holds digits only.
pub proof fn lemma_decimal_is_decimal_text(n: nat)
    ensures
        is_decimal_text(decimal(n)),
    decreases n,
{
    if n >= 10 {
        lemma_decimal_is_decimal_text(n / 10);
    }
}

/// Ten to any power is positive.
pub proof fn lemma_pow10_positive(k: nat)
    ensures
        pow10(k) >= 1,
    decreases k,
{
    if k > 0 {
        lemma_pow10_positive((k - 1) as nat);
    }
}

/// A number has at most `k` digits exactly when it is below ten to the `k`,
/// and it has at least one.
pub proof fn lemma_decimal_len(n: nat, k: nat)
    requires
        k >= 1,
    ensures
        decimal(n).len() >= 1,
        decimal(n).len() <= k <==> n < pow10(k),
    decreases n,
{
    lemma_pow10_positive((k - 1) as nat);
    if n >= 10 {
        if k == 1 {
            lemma_decimal_len(n / 10, 1);
        } else {
            lemma_decimal_len(n / 10, (k - 1) as nat);
        }
    }
}

/// No `u64` has more than twenty digits.
pub proof fn lemma_decimal_len_u64(value: u64)
    ensures
        1 <= decimal(value as nat).len() <= 20,
{
    reveal_with_fuel(pow10, 21);
    lemma_decimal_len(value as nat, 20);
}

/// The number of digits of `value`.
pub fn decimal_len(value: u64) -> (len: usize)
    ensures
        len == decimal(value as nat).len(),
        1 <= len <= 20,
{
    proof {
        lemma_decimal_len_u64(value);
    }
    let mut rest: u64 = value;
    let mut len: usize = 1;
    while rest >= 10
        invariant
            1 <= len,
            len + decimal(rest as nat).len() == decimal(value as nat).len() + 1,
            decimal(value as nat).len() <= 20,
        decreases rest,
    {
        proof {
            lemma_decimal_len(rest as nat / 10, 1);
        }
        rest = rest / 10;
        len = len + 1;
    }
    len
}

} // verus!
