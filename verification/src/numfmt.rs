//! Verified decimal formatting of the integer and fixed-point values
//! the segments print.
//!
//! Fixed-point values in hundredths are printed with one decimal
//! place, rounding half away from zero, matching the precision of the
//! rendered status line.

use vstd::prelude::*;

verus! {

/// The decimal digit character for `d` (0 through 9).
pub open spec fn digit_char(d: int) -> char {
    if d == 0 {
        '0'
    } else if d == 1 {
        '1'
    } else if d == 2 {
        '2'
    } else if d == 3 {
        '3'
    } else if d == 4 {
        '4'
    } else if d == 5 {
        '5'
    } else if d == 6 {
        '6'
    } else if d == 7 {
        '7'
    } else if d == 8 {
        '8'
    } else {
        '9'
    }
}

/// The decimal digit string of a natural number, without leading
/// zeros (except for zero itself).
pub open spec fn u_dec(n: nat) -> Seq<char>
    decreases n,
{
    if n < 10 {
        seq![digit_char(n as int)]
    } else {
        u_dec(n / 10) + seq![digit_char((n % 10) as int)]
    }
}

/// The magnitude, in tenths, of a value given in hundredths, rounded
/// half away from zero.
pub open spec fn abs_round_tenths(h: int) -> int {
    if h >= 0 {
        (h + 5) / 10
    } else {
        ((-h) + 5) / 10
    }
}

/// The one-decimal rendering of a fixed-point value in hundredths:
/// optional minus sign, integer part, '.', and one tenths digit.
pub open spec fn fixed1(h: int) -> Seq<char> {
    let a = abs_round_tenths(h);
    let sign: Seq<char> = if h < 0 {
        seq!['-']
    } else {
        Seq::empty()
    };
    sign + u_dec((a / 10) as nat) + seq!['.'] + seq![digit_char(a % 10)]
}

/// The single-character string for a decimal digit.
pub fn digit_str(d: u64) -> (r: &'static str)
    requires
        d < 10,
    ensures
        r@ == seq![digit_char(d as int)],
{
    let r: &'static str = match d {
        0 => "0",
        1 => "1",
        2 => "2",
        3 => "3",
        4 => "4",
        5 => "5",
        6 => "6",
        7 => "7",
        8 => "8",
        _ => "9",
    };
    proof {
        reveal_strlit("0");
        reveal_strlit("1");
        reveal_strlit("2");
        reveal_strlit("3");
        reveal_strlit("4");
        reveal_strlit("5");
        reveal_strlit("6");
        reveal_strlit("7");
        reveal_strlit("8");
        reveal_strlit("9");
        assert(r@ =~= seq![digit_char(d as int)]);
    }
    r
}

/// The decimal string of an unsigned value.
pub fn u64_dec(n: u64) -> (r: String)
    ensures
        r@ == u_dec(n as nat),
    decreases n,
{
    if n < 10 {
        let r = digit_str(n).to_owned();
        r
    } else {
        let mut s = u64_dec(n / 10);
        s.append(digit_str(n % 10));
        proof {
            assert(s@ =~= u_dec(n as nat));
        }
        s
    }
}

/// The one-decimal string of a fixed-point value in hundredths.
pub fn fixed1_string(h: i64) -> (r: String)
    requires
        -0x100_0000_0000 <= h <= 0x100_0000_0000,
    ensures
        r@ == fixed1(h as int),
{
    let hw: i64 = h;
    let a: i64 = if hw < 0 {
        -hw
    } else {
        hw
    };
    let t: i64 = (a + 5) / 10;
    let mut s: String = if hw < 0 {
        "-".to_owned()
    } else {
        String::new()
    };
    s.append(u64_dec((t / 10) as u64).as_str());
    s.append(".");
    s.append(digit_str((t % 10) as u64));
    proof {
        reveal_strlit("-");
        reveal_strlit(".");
        assert(s@ =~= fixed1(h as int));
    }
    s
}

} // verus!
