//! Verified decimal formatting: the report renders every count and percentage
//! through these functions, so what they print is pinned down exactly.

use vstd::prelude::*;

verus! {

/// The digit character for `d`.
pub open spec fn dec_digit(d: int) -> char {
    if d == 0 {
        '0'
    } else if d == 1 {
        '1'
    } else if d == 2 {
        '2'
    } else if d == 3 {
        '3'
    } else if d == 4 {
        '4'
    } else if d == 5 {
        '5'
    } else if d == 6 {
        '6'
    } else if d == 7 {
        '7'
    } else if d == 8 {
        '8'
    } else {
        '9'
    }
}

/// The decimal rendering of `n`, most significant digit first, no padding.
pub open spec fn dec_str(n: nat) -> Seq<char>
    decreases n,
{
    if n < 10 {
        seq![dec_digit(n as int)]
    } else {
        dec_str(n / 10) + seq![dec_digit(n as int % 10)]
    }
}

/// The decimal rendering of `n` with a leading minus sign when negative.
pub open spec fn dec_str_signed(n: int) -> Seq<char> {
    if n < 0 {
        seq!['-'] + dec_str((-n) as nat)
    } else {
        dec_str(n as nat)
    }
}

/// The one-character string for digit `d`.
fn digit_str(d: u64) -> (r: &'static str)
    requires
        d < 10,
    ensures
        r@ == seq![dec_digit(d as int)],
{
    proof {
        reveal_strlit("0");
        reveal_strlit("1");
        reveal_strlit("2");
        reveal_strlit("3");
        reveal_strlit("4");
        reveal_strlit("5");
        reveal_strlit("6");
        reveal_strlit("7");
        reveal_strlit("8");
        reveal_strlit("9");
    }
    let r = match d {
        0 => "0",
        1 => "1",
        2 => "2",
        3 => "3",
        4 => "4",
        5 => "5",
        6 => "6",
        7 => "7",
        8 => "8",
        _ => "9",
    };
    proof {
        assert(r@ =~= seq![dec_digit(d as int)]);
    }
    r
}

/// Renders `n` in decimal.
pub fn u64_to_string(n: u64) -> (r: String)
    ensures
        r@ == dec_str(n as nat),
    decreases n,
{
    let d = digit_str(n % 10);
    if n < 10 {
        let r = d.to_owned();
        r
    } else {
        let mut prefix = u64_to_string(n / 10);
        prefix.append(d);
        prefix
    }
}

/// Renders `n` in decimal with its sign.
pub fn i64_to_string(n: i64) -> (r: String)
    ensures
        r@ == dec_str_signed(n as int),
{
    if n < 0 {
        let magnitude: u64 = ((-(n as i128)) as u64);
        let mut r = "-".to_owned();
        let digits = u64_to_string(magnitude);
        r.append(digits.as_str());
        proof {
            reveal_strlit("-");
            assert(r@ =~= dec_str_signed(n as int));
        }
        r
    } else {
        u64_to_string(n as u64)
    }
}

/// The rendering of a percentage held in hundredths: the whole part, a dot,
/// then exactly two fractional digits.
pub open spec fn percent_str(hundredths: nat) -> Seq<char> {
    dec_str(hundredths / 100) + seq!['.', dec_digit(((hundredths % 100) / 10) as int), dec_digit(
        hundredths as int % 10,
    )]
}

/// Renders a percentage held in hundredths, two fractional digits.
pub fn percent_hundredths_to_string(hundredths: u64) -> (r: String)
    ensures
        r@ == percent_str(hundredths as nat),
{
    let mut r = u64_to_string(hundredths / 100);
    r.append(".");
    let tens = digit_str((hundredths % 100) / 10);
    r.append(tens);
    let ones = digit_str(hundredths % 10);
    r.append(ones);
    proof {
        reveal_strlit(".");
        assert(r@ =~= percent_str(hundredths as nat));
    }
    r
}

} // verus!
