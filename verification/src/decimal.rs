//! Numbers written as ASCII decimal digits, the way Show Control frames
//! carry cue numbers.

use vstd::prelude::*;

verus! {

/// The ASCII code of the digit `0`; digit `d` is written as this plus `d`.
pub const ASCII_ZERO: u8 = 0x30;

/// The decimal digits of `n` as ASCII bytes, most significant first, with no
/// leading zero (zero itself is the single digit `0`).
pub open spec fn decimal_digits(n: nat) -> Seq<u8>
    decreases n,
{
    if n < 10 {
        seq![(ASCII_ZERO + n) as u8]
    } else {
        decimal_digits(n / 10).push((ASCII_ZERO + n % 10) as u8)
    }
}

/// True if every byte of `digits` is an ASCII decimal digit.
pub open spec fn all_ascii_digits(digits: Seq<u8>) -> bool {
    forall|i: int| 0 <= i < digits.len() ==> ASCII_ZERO <= #[trigger] digits[i] <= ASCII_ZERO + 9
}

/// The number that a sequence of ASCII decimal digits reads as, most
/// significant digit first.
pub open spec fn decimal_value(digits: Seq<u8>) -> int
    decreases digits.len(),
{
    if digits.len() == 0 {
        0
    } else {
        10 * decimal_value(digits.drop_last()) + (digits.last() - ASCII_ZERO)
    }
}

/// Writing a number in decimal gives at least one byte, all of them ASCII
/// digits, and reading those digits back gives the number again.
pub proof fn lemma_decimal_round_trip(n: nat)
    ensures
        decimal_digits(n).len() >= 1,
        all_ascii_digits(decimal_digits(n)),
        decimal_value(decimal_digits(n)) == n,
    decreases n,
{
    if n < 10 {
        assert(decimal_digits(n).drop_last() =~= Seq::<u8>::empty());
        assert(decimal_value(decimal_digits(n).drop_last()) == 0);
    } else {
        let high = decimal_digits(n / 10);
        lemma_decimal_round_trip(n / 10);
        assert(decimal_digits(n).drop_last() =~= high);
    }
}

/// Writes a 16-bit number as ASCII decimal digits.
pub fn cue_digits(n: u16) -> (digits: Vec<u8>)
    ensures
        digits@ == decimal_digits(n as nat),
    decreases n,
{
    if n < 10 {
        vec![ASCII_ZERO + n as u8]
    } else {
        let mut digits = cue_digits(n / 10);
        digits.push(ASCII_ZERO + (n % 10) as u8);
        digits
    }
}

} // verus!
