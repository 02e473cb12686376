//! Decimal rendering of integers, used when composing query strings
//! (`?limit={n}`, `&pid={page}`).

use vstd::prelude::*;

verus! {

/// The digit character for a value in `0 ..= 9`.
pub open spec fn digit_char(d: int) -> char {
    if d == 0 {
        '0'
    } else if d == 1 {
        '1'
    } else if d == 2 {
        '2'
    } else if d == 3 {
        '3'
    } else if d == 4 {
        '4'
    } else if d == 5 {
        '5'
    } else if d == 6 {
        '6'
    } else if d == 7 {
        '7'
    } else if d == 8 {
        '8'
    } else {
        '9'
    }
}

/// The decimal rendering of a non-negative integer, most significant
/// digit first, with no leading zeros (except for zero itself).
pub open spec fn dec_nat(n: int) -> Seq<char>
    decreases n,
{
    if n < 10 {
        seq![digit_char(n)]
    } else {
        dec_nat(n / 10) + seq![digit_char(n % 10)]
    }
}

/// The decimal rendering of any integer: a minus sign for negative
/// values, then the digits of the magnitude.
pub open spec fn dec_int(n: int) -> Seq<char> {
    if n < 0 {
        seq!['-'] + dec_nat(-n)
    } else {
        dec_nat(n)
    }
}

/// The one-character string for a digit value.
fn digit_str(d: u64) -> (s: &'static str)
    requires
        d < 10,
    ensures
        s@ =~= seq![digit_char(d as int)],
{
    proof {
        reveal_strlit("0");
        reveal_strlit("1");
        reveal_strlit("2");
        reveal_strlit("3");
        reveal_strlit("4");
        reveal_strlit("5");
        reveal_strlit("6");
        reveal_strlit("7");
        reveal_strlit("8");
        reveal_strlit("9");
    }
    match d {
        0 => "0",
        1 => "1",
        2 => "2",
        3 => "3",
        4 => "4",
        5 => "5",
        6 => "6",
        7 => "7",
        8 => "8",
        _ => "9",
    }
}

/// Renders an unsigned value in decimal.
pub fn u64_dec(n: u64) -> (s: String)
    ensures
        s@ == dec_nat(n as int),
    decreases n,
{
    if n < 10 {
        let s = digit_str(n).to_owned();
        assert(s@ =~= dec_nat(n as int));
        s
    } else {
        assert(n / 10 < n && n / 10 >= 1) by (nonlinear_arith)
            requires
                n >= 10,
        ;
        let mut s = u64_dec(n / 10);
        s.append(digit_str(n % 10));
        assert(s@ =~= dec_nat(n as int));
        s
    }
}

/// Renders a signed value in decimal, with a leading minus sign when
/// negative.
pub fn i64_dec(n: i64) -> (s: String)
    ensures
        s@ == dec_int(n as int),
{
    if n >= 0 {
        u64_dec(n as u64)
    } else {
        // Magnitude computed without overflowing at i64::MIN.
        let m: u64 = (-(n + 1)) as u64 + 1;
        assert(m as int == -(n as int));
        proof {
            reveal_strlit("-");
        }
        let mut s = "-".to_owned();
        let digits = u64_dec(m);
        s.append(digits.as_str());
        assert(s@ =~= dec_int(n as int));
        s
    }
}

} // verus!
