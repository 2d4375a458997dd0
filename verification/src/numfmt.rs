//! Verified decimal rendering of base-unit amounts.
//!
//! Alert text shows amounts in display units with two decimal places.
//! An amount held in base units (lamports) is first rounded, half
//! away from zero, to hundredths of a display unit, then rendered as
//! the whole part in decimal digits, a dot, and exactly two fraction
//! digits.

use vstd::prelude::*;
use vstd::string::*;

verus! {

/// Base units per display unit of the ledger's currency.
pub const LAMPORTS_PER_SOL: u64 = 1_000_000_000;

/// Base units per hundredth of a display unit.
pub const LAMPORTS_PER_HUNDREDTH: u64 = LAMPORTS_PER_SOL / 100;

/// The decimal digit character for `d`.
pub open spec fn digit_char(d: int) -> char {
    if d == 0 {
        '0'
    } else if d == 1 {
        '1'
    } else if d == 2 {
        '2'
    } else if d == 3 {
        '3'
    } else if d == 4 {
        '4'
    } else if d == 5 {
        '5'
    } else if d == 6 {
        '6'
    } else if d == 7 {
        '7'
    } else if d == 8 {
        '8'
    } else {
        '9'
    }
}

/// The decimal digit string of `n`, most significant digit first,
/// with no leading zero except for `n == 0` itself.
pub open spec fn spec_dec_digits(n: nat) -> Seq<char>
    decreases n,
{
    if n < 10 {
        seq![digit_char(n as int)]
    } else {
        spec_dec_digits(n / 10) + seq![digit_char((n % 10) as int)]
    }
}

/// `lamports` rounded, half away from zero, to hundredths of a
/// display unit.
pub open spec fn spec_rounded_hundredths(lamports: int) -> int {
    (lamports + LAMPORTS_PER_HUNDREDTH as int / 2) / (LAMPORTS_PER_HUNDREDTH as int)
}

/// The two-decimal rendering of `lamports`: the whole display units
/// in decimal, a dot, then the rounded hundredths as two digits.
pub open spec fn spec_sol_two_decimals(lamports: int) -> Seq<char> {
    let h = spec_rounded_hundredths(lamports);
    spec_dec_digits((h / 100) as nat) + "."@ + seq![digit_char((h / 10) % 10)] + seq![
        digit_char(h % 10),
    ]
}

/// The one-character string of the decimal digit `d`.
fn digit_str(d: u64) -> (r: &'static str)
    requires
        d < 10,
    ensures
        r@ == seq![digit_char(d as int)],
{
    proof {
        reveal_strlit("0");
        reveal_strlit("1");
        reveal_strlit("2");
        reveal_strlit("3");
        reveal_strlit("4");
        reveal_strlit("5");
        reveal_strlit("6");
        reveal_strlit("7");
        reveal_strlit("8");
        reveal_strlit("9");
    }
    let r: &'static str = if d == 0 {
        "0"
    } else if d == 1 {
        "1"
    } else if d == 2 {
        "2"
    } else if d == 3 {
        "3"
    } else if d == 4 {
        "4"
    } else if d == 5 {
        "5"
    } else if d == 6 {
        "6"
    } else if d == 7 {
        "7"
    } else if d == 8 {
        "8"
    } else {
        "9"
    };
    proof {
        assert(r@ =~= seq![digit_char(d as int)]);
    }
    r
}

/// Renders `n` as its decimal digit string.
pub fn u64_to_dec(n: u64) -> (r: String)
    ensures
        r@ == spec_dec_digits(n as nat),
    decreases n,
{
    if n < 10 {
        String::from_str(digit_str(n))
    } else {
        let mut s = u64_to_dec(n / 10);
        s.append(digit_str(n % 10));
        s
    }
}

/// Renders a base-unit amount in display units with exactly two
/// decimal places, rounding half away from zero.
pub fn format_sol_two_decimals(lamports: u64) -> (r: String)
    ensures
        r@ == spec_sol_two_decimals(lamports as int),
{
    let wide: u128 = lamports as u128 + (LAMPORTS_PER_HUNDREDTH / 2) as u128;
    let hundredths: u128 = wide / LAMPORTS_PER_HUNDREDTH as u128;
    proof {
        assert(hundredths < 0x1_0000_0000_0000_0000) by (nonlinear_arith)
            requires
                hundredths == wide / 10_000_000,
                wide <= u64::MAX + 5_000_000,
        ;
    }
    let whole: u64 = (hundredths / 100) as u64;
    let tens: u64 = ((hundredths / 10) % 10) as u64;
    let ones: u64 = (hundredths % 10) as u64;
    let mut s = u64_to_dec(whole);
    s.append(".");
    s.append(digit_str(tens));
    s.append(digit_str(ones));
    proof {
        let h = spec_rounded_hundredths(lamports as int);
        assert(hundredths == h);
        assert(whole == h / 100 && tens == (h / 10) % 10 && ones == h % 10) by (nonlinear_arith)
            requires
                hundredths == h,
                0 <= h < 0x1_0000_0000_0000_0000,
                whole == hundredths / 100,
                tens == (hundredths / 10) % 10,
                ones == hundredths % 10,
        ;
    }
    s
}

} // verus!
