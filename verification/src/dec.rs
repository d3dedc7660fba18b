//! Decimal numerals for the flag values that carry a number.
//!
//! Every numeric flag value is rendered in base ten, most significant digit
//! first, with a leading minus sign for negative values. The spec functions
//! here define that numeral mathematically; the exec functions produce it.

use vstd::prelude::*;

verus! {

/// The character for a single decimal digit.
pub open spec fn digit_char(d: int) -> char {
    if d == 0 {
        '0'
    } else if d == 1 {
        '1'
    } else if d == 2 {
        '2'
    } else if d == 3 {
        '3'
    } else if d == 4 {
        '4'
    } else if d == 5 {
        '5'
    } else if d == 6 {
        '6'
    } else if d == 7 {
        '7'
    } else if d == 8 {
        '8'
    } else {
        '9'
    }
}

/// The decimal numeral of a nonnegative integer, most significant digit first.
pub open spec fn dec_nat(n: int) -> Seq<char>
    decreases n,
{
    if n < 10 {
        seq![digit_char(n)]
    } else {
        dec_nat(n / 10).push(digit_char(n % 10))
    }
}

/// The decimal rendering of a signed integer: the numeral of its magnitude,
/// preceded by a minus sign when the value is negative.
pub open spec fn dec_int(n: int) -> Seq<char> {
    if n < 0 {
        seq!['-'] + dec_nat(-n)
    } else {
        dec_nat(n)
    }
}

/// The one-character string for a decimal digit.
fn digit_str(d: u64) -> (r: &'static str)
    requires
        d < 10,
    ensures
        r@ == seq![digit_char(d as int)],
{
    proof {
        reveal_strlit("0");
        reveal_strlit("1");
        reveal_strlit("2");
        reveal_strlit("3");
        reveal_strlit("4");
        reveal_strlit("5");
        reveal_strlit("6");
        reveal_strlit("7");
        reveal_strlit("8");
        reveal_strlit("9");
    }
    if d == 0 {
        "0"
    } else if d == 1 {
        "1"
    } else if d == 2 {
        "2"
    } else if d == 3 {
        "3"
    } else if d == 4 {
        "4"
    } else if d == 5 {
        "5"
    } else if d == 6 {
        "6"
    } else if d == 7 {
        "7"
    } else if d == 8 {
        "8"
    } else {
        "9"
    }
}

/// Appends the decimal numeral of `n` to `s`.
fn push_dec_nat(s: &mut String, n: u64)
    ensures
        final(s)@ == old(s)@ + dec_nat(n as int),
    decreases n,
{
    if n >= 10 {
        push_dec_nat(s, n / 10);
    }
    s.append(digit_str(n % 10));
    proof {
        assert(s@ =~= old(s)@ + dec_nat(n as int));
    }
}

/// The decimal numeral of an unsigned value.
pub fn render_u64(n: u64) -> (r: String)
    ensures
        r@ == dec_nat(n as int),
{
    let mut s = String::new();
    push_dec_nat(&mut s, n);
    proof {
        assert(s@ =~= dec_nat(n as int));
    }
    s
}

/// The decimal rendering of a signed value.
pub fn render_i64(n: i64) -> (r: String)
    ensures
        r@ == dec_int(n as int),
{
    if n < 0 {
        let magnitude: u64 = ((-(n as i128)) as u64);
        let mut s = "-".to_owned();
        push_dec_nat(&mut s, magnitude);
        proof {
            reveal_strlit("-");
            assert(s@ =~= dec_int(n as int));
        }
        s
    } else {
        render_u64(n as u64)
    }
}

} // verus!
