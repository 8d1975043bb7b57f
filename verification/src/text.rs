//! Decimal rendering of counts, for the fixed diagnostics that name them.

use vstd::prelude::*;

verus! {

/// The decimal digit of `d` (`0..10`).
pub open spec fn decimal_digit(d: nat) -> char {
    (d + 48) as char
}

/// The decimal rendering of `n`: no sign, no leading zeros, `"0"` for
/// zero.
pub open spec fn decimal(n: nat) -> Seq<char>
    decreases n,
{
    if n < 10 {
        seq![decimal_digit(n)]
    } else {
        decimal(n / 10).push(decimal_digit(n % 10))
    }
}

/// Render `n` in decimal.
pub fn decimal_string(n: u64) -> (text: String)
    ensures
        text@ == decimal(n as nat),
    decreases n,
{
    let digit = ((n % 10) as u8 + 48) as char;
    if n < 10 {
        let mut text = String::new();
        text.push(digit);
        assert(text@ =~= decimal(n as nat));
        text
    } else {
        let mut text = decimal_string(n / 10);
        text.push(digit);
        text
    }
}

} // verus!
