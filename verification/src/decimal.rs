//! Decimal numerals in ASCII.

use vstd::prelude::*;

verus! {

/// The ASCII digit for `d`, which is below ten.
pub open spec fn digit(d: nat) -> u8 {
    (48 + d) as u8
}

/// The decimal numeral of `n`: no sign, no leading zero, `0` for zero.
pub open spec fn decimal_digits(n: nat) -> Seq<u8>
    decreases n,
{
    if n < 10 {
        seq![digit(n)]
    } else {
        decimal_digits(n / 10).push(digit(n % 10))
    }
}

/// The number that a string of ASCII digits writes, read from the left.
pub open spec fn decimal_value(digits: Seq<u8>) -> nat
    decreases digits.len(),
{
    if digits.len() == 0 {
        0
    } else {
        10 * decimal_value(digits.drop_last()) + (digits.last() - 48) as nat
    }
}

/// Every byte of `digits` is one of `0` to `9`.
pub open spec fn all_digits(digits: Seq<u8>) -> bool {
    forall|i: int| 0 <= i < digits.len() ==> 48 <= #[trigger] digits[i] <= 57
}

/// Appends the decimal numeral of `n` to `out`.
pub fn push_decimal(out: &mut Vec<u8>, n: usize)
    ensures
        final(out)@ == old(out)@ + decimal_digits(n as nat),
    decreases n,
{
    if n >= 10 {
        push_decimal(out, n / 10);
    }
    let low: u8 = (n % 10) as u8;
    out.push(48u8 + low);
    proof {
        let before = old(out)@;
        if n >= 10 {
            assert(out@ =~= before + decimal_digits((n / 10) as nat).push(digit((n % 10) as nat)));
        } else {
            assert(out@ =~= before + seq![digit(n as nat)]);
        }
    }
}

/// The decimal numeral of `n` as a fresh byte string.
pub fn decimal(n: usize) -> (digits: Vec<u8>)
    ensures
        digits@ == decimal_digits(n as nat),
{
    let mut digits: Vec<u8> = Vec::new();
    push_decimal(&mut digits, n);
    proof {
        assert(digits@ =~= decimal_digits(n as nat));
    }
    digits
}

/// A numeral is made of digits only, is never empty, begins with `0` only
/// when it is `0` alone, and reads back as the number it was written from.
pub proof fn decimal_reads_back(n: nat)
    ensures
        decimal_digits(n).len() >= 1,
        all_digits(decimal_digits(n)),
        decimal_digits(n)[0] == 48 ==> n == 0,
        decimal_value(decimal_digits(n)) == n,
    decreases n,
{
    if n < 10 {
        let d = decimal_digits(n);
        assert(d.drop_last() =~= Seq::<u8>::empty());
        assert(decimal_value(d.drop_last()) == 0);
    } else {
        decimal_reads_back(n / 10);
        let high = decimal_digits(n / 10);
        let d = decimal_digits(n);
        assert(d.drop_last() =~= high);
        assert(d.last() == digit(n % 10));
        assert(d[0] == high[0]);
    }
}

} // verus!
