//! Decimal text, as the canonical forms of dates and times are built from it.

use vstd::prelude::*;

verus! {

/// The character of a decimal digit.
pub open spec fn digit(d: int) -> char
    recommends
        0 <= d <= 9,
{
    if d == 0 {
        '0'
    } else if d == 1 {
        '1'
    } else if d == 2 {
        '2'
    } else if d == 3 {
        '3'
    } else if d == 4 {
        '4'
    } else if d == 5 {
        '5'
    } else if d == 6 {
        '6'
    } else if d == 7 {
        '7'
    } else if d == 8 {
        '8'
    } else {
        '9'
    }
}

/// The decimal digits of `n`, all of them, with zeros in front where there
/// are fewer than `width` of them. Zero has one digit.
pub open spec fn zero_padded(n: nat, width: nat) -> Seq<char>
    decreases n, width,
{
    if n < 10 && width <= 1 {
        seq![digit(n as int)]
    } else {
        let rest: nat = if width == 0 {
            0
        } else {
            (width - 1) as nat
        };
        zero_padded(n / 10, rest).push(digit((n % 10) as int))
    }
}

} // verus!
