//! Decimal rendering of integer literal values.

use vstd::prelude::*;
use vstd::string::StringExecFns;

verus! {

/// The character for one decimal digit.
pub open spec fn digit_char(d: nat) -> char {
    if d == 0 {
        '0'
    } else if d == 1 {
        '1'
    } else if d == 2 {
        '2'
    } else if d == 3 {
        '3'
    } else if d == 4 {
        '4'
    } else if d == 5 {
        '5'
    } else if d == 6 {
        '6'
    } else if d == 7 {
        '7'
    } else if d == 8 {
        '8'
    } else {
        '9'
    }
}

/// The decimal digits of a nonnegative integer, most significant first,
/// with no leading zero except for the number zero itself.
pub open spec fn decimal_of_nat(n: nat) -> Seq<char>
    decreases n,
{
    if n < 10 {
        seq![digit_char(n)]
    } else {
        decimal_of_nat(n / 10).push(digit_char(n % 10))
    }
}

/// The decimal rendering of a signed integer: a leading minus sign for
/// negative values, then the digits of the magnitude.
pub open spec fn decimal_of_int(v: int) -> Seq<char> {
    if v >= 0 {
        decimal_of_nat(v as nat)
    } else {
        seq!['-'] + decimal_of_nat((-v) as nat)
    }
}

/// One decimal digit as a string slice.
fn digit_str(d: u64) -> (r: &'static str)
    requires
        d < 10,
    ensures
        r@ == seq![digit_char(d as nat)],
{
    proof {
        reveal_strlit("0");
        reveal_strlit("1");
        reveal_strlit("2");
        reveal_strlit("3");
        reveal_strlit("4");
        reveal_strlit("5");
        reveal_strlit("6");
        reveal_strlit("7");
        reveal_strlit("8");
        reveal_strlit("9");
    }
    let r = match d {
        0 => "0",
        1 => "1",
        2 => "2",
        3 => "3",
        4 => "4",
        5 => "5",
        6 => "6",
        7 => "7",
        8 => "8",
        _ => "9",
    };
    proof {
        assert(r@ =~= seq![digit_char(d as nat)]);
    }
    r
}

/// Append the decimal digits of `n` to `out`.
fn push_decimal_u64(out: &mut String, n: u64)
    ensures
        final(out)@ == old(out)@ + decimal_of_nat(n as nat),
    decreases n,
{
    if n >= 10 {
        push_decimal_u64(out, n / 10);
    }
    out.append(digit_str(n % 10));
}

/// The decimal rendering of a signed integer as a `String`.
pub fn decimal_string_of_i64(v: i64) -> (r: String)
    ensures
        r@ == decimal_of_int(v as int),
{
    let mut s = String::new();
    if v >= 0 {
        push_decimal_u64(&mut s, v as u64);
    } else {
        proof {
            reveal_strlit("-");
        }
        s.append("-");
        let magnitude: u64 = (-(v as i128)) as u64;
        proof {
            assert(magnitude == -(v as int));
            assert("-"@ =~= seq!['-']);
        }
        push_decimal_u64(&mut s, magnitude);
        proof {
            assert(s@ =~= decimal_of_int(v as int));
        }
    }
    s
}

} // verus!
