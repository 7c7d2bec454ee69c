//! Decimal rendering of unsigned counters as ASCII digits.
use vstd::prelude::*;

verus! {

/// ASCII code of the digit `0`.
pub const ASCII_ZERO: u8 = 48;

/// The ASCII decimal digits of `n`, most significant first, without leading zeros.
pub open spec fn decimal_digits(n: nat) -> Seq<u8>
    decreases n,
{
    if n < 10 {
        seq![(ASCII_ZERO + n) as u8]
    } else {
        decimal_digits(n / 10).push((ASCII_ZERO + n % 10) as u8)
    }
}

/// The number that a sequence of ASCII decimal digits denotes.
pub open spec fn digits_value(s: Seq<u8>) -> int
    decreases s.len(),
{
    if s.len() == 0 {
        0
    } else {
        digits_value(s.drop_last()) * 10 + (s.last() - ASCII_ZERO)
    }
}

/// Every byte of `s` is an ASCII decimal digit.
pub open spec fn all_digits(s: Seq<u8>) -> bool {
    forall|i: int| 0 <= i < s.len() ==> ASCII_ZERO <= #[trigger] s[i] <= ASCII_ZERO + 9
}

/// Rendering is faithful: the digits are ASCII digits, the rendering is never empty,
/// has no leading zero unless the number is zero, and reads back as the number.
pub proof fn lemma_decimal_digits_faithful(n: nat)
    ensures
        all_digits(decimal_digits(n)),
        decimal_digits(n).len() >= 1,
        decimal_digits(n)[0] == ASCII_ZERO ==> n == 0,
        digits_value(decimal_digits(n)) == n,
    decreases n,
{
    let d = decimal_digits(n);
    if n < 10 {
        assert(d.drop_last() =~= Seq::<u8>::empty());
        assert(digits_value(d) == digits_value(d.drop_last()) * 10 + (d.last() - ASCII_ZERO));
    } else {
        lemma_decimal_digits_faithful(n / 10);
        let p = decimal_digits(n / 10);
        assert(d == p.push((ASCII_ZERO + n % 10) as u8));
        assert(d.drop_last() =~= p);
        assert(d[0] == p[0]);
        assert(digits_value(d) == digits_value(p) * 10 + (n % 10));
        assert(n / 10 * 10 + n % 10 == n);
    }
}

/// Distinct numbers render to distinct digit strings.
pub proof fn lemma_decimal_digits_injective(a: nat, b: nat)
    requires
        decimal_digits(a) == decimal_digits(b),
    ensures
        a == b,
{
    lemma_decimal_digits_faithful(a);
    lemma_decimal_digits_faithful(b);
}

/// A `u64` renders in at most twenty digits.
pub proof fn lemma_decimal_digits_len_u64(n: u64)
    ensures
        1 <= decimal_digits(n as nat).len() <= 20,
{
    lemma_decimal_digits_faithful(n as nat);
    assert(pow10(20) == 100_000_000_000_000_000_000nat) by {
        reveal_with_fuel(pow10, 21);
    }
    lemma_decimal_digits_len_below(n as nat, 20);
}

/// Numbers below `10^k` render in at most `k` digits.
proof fn lemma_decimal_digits_len_below(n: nat, k: nat)
    requires
        k >= 1,
        n < pow10(k),
    ensures
        decimal_digits(n).len() <= k,
    decreases n,
{
    if n >= 10 {
        if k == 1 {
            assert(pow10(1) == 10) by {
                reveal_with_fuel(pow10, 2);
            }
        }
        assert(pow10(k) == 10 * pow10((k - 1) as nat));
        assert(n / 10 < pow10((k - 1) as nat));
        lemma_decimal_digits_len_below(n / 10, (k - 1) as nat);
        assert(decimal_digits(n) == decimal_digits(n / 10).push((ASCII_ZERO + n % 10) as u8));
    }
}

/// Powers of ten.
spec fn pow10(k: nat) -> nat
    decreases k,
{
    if k == 0 {
        1
    } else {
        10 * pow10((k - 1) as nat)
    }
}

/// Appends the decimal digits of `n` to `out`.
pub fn push_decimal(n: u64, out: &mut Vec<u8>)
    ensures
        final(out)@ == old(out)@ + decimal_digits(n as nat),
    decreases n,
{
    if n >= 10 {
        push_decimal(n / 10, out);
    }
    out.push(ASCII_ZERO + (n % 10) as u8);
    proof {
        if n >= 10 {
            assert(decimal_digits(n as nat) == decimal_digits((n / 10) as nat).push((ASCII_ZERO + n % 10) as u8));
        }
    }
}

} // verus!
