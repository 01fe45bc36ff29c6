//! Decimal rendering of the integer quantities that appear in wire payloads:
//! unsigned counts and identifiers, and fixed-point coordinates held in
//! millionths of a degree.

use vstd::prelude::*;

verus! {

/// The decimal digit character for a value in `0 ..= 9`.
pub open spec fn dec_digit(d: int) -> char {
    if d == 0 {
        '0'
    } else if d == 1 {
        '1'
    } else if d == 2 {
        '2'
    } else if d == 3 {
        '3'
    } else if d == 4 {
        '4'
    } else if d == 5 {
        '5'
    } else if d == 6 {
        '6'
    } else if d == 7 {
        '7'
    } else if d == 8 {
        '8'
    } else {
        '9'
    }
}

/// The usual decimal rendering of a non-negative integer, without leading
/// zeros (except for the value zero itself).
pub open spec fn dec_text(n: int) -> Seq<char>
    recommends
        n >= 0,
    decreases n,
{
    if n < 10 {
        seq![dec_digit(n)]
    } else {
        dec_text(n / 10).push(dec_digit(n % 10))
    }
}

/// A coordinate held in millionths of a degree, rendered with a sign, the
/// whole part, a decimal point and exactly six fractional digits.
pub open spec fn micro_text(v: int) -> Seq<char> {
    if v < 0 {
        seq!['-'] + micro_abs_text(-v)
    } else {
        micro_abs_text(v)
    }
}

pub open spec fn micro_abs_text(a: int) -> Seq<char>
    recommends
        a >= 0,
{
    dec_text(a / 1000000) + seq!['.'] + frac6_text(a % 1000000)
}

/// Six zero-padded fractional digits of a value in `0 .. 1000000`.
pub open spec fn frac6_text(f: int) -> Seq<char> {
    seq![
        dec_digit(f / 100000 % 10),
        dec_digit(f / 10000 % 10),
        dec_digit(f / 1000 % 10),
        dec_digit(f / 100 % 10),
        dec_digit(f / 10 % 10),
        dec_digit(f % 10),
    ]
}

/// Appends the digit character for `d`.
pub fn append_digit(out: &mut String, d: u64)
    requires
        d < 10,
    ensures
        final(out)@ == old(out)@ + seq![dec_digit(d as int)],
{
    proof {
        reveal_strlit("0");
        reveal_strlit("1");
        reveal_strlit("2");
        reveal_strlit("3");
        reveal_strlit("4");
        reveal_strlit("5");
        reveal_strlit("6");
        reveal_strlit("7");
        reveal_strlit("8");
        reveal_strlit("9");
    }
    match d {
        0 => out.append("0"),
        1 => out.append("1"),
        2 => out.append("2"),
        3 => out.append("3"),
        4 => out.append("4"),
        5 => out.append("5"),
        6 => out.append("6"),
        7 => out.append("7"),
        8 => out.append("8"),
        _ => out.append("9"),
    }
    proof {
        assert(final(out)@ =~= old(out)@ + seq![dec_digit(d as int)]);
    }
}

/// Appends the decimal rendering of `n`.
pub fn append_dec(out: &mut String, n: u64)
    ensures
        final(out)@ == old(out)@ + dec_text(n as int),
    decreases n,
{
    if n < 10 {
        append_digit(out, n);
    } else {
        append_dec(out, n / 10);
        append_digit(out, n % 10);
        proof {
            assert(final(out)@ =~= old(out)@ + dec_text(n as int));
        }
    }
}

/// Appends the fixed-point rendering of a coordinate held in millionths.
pub fn append_micro(out: &mut String, v: i64)
    requires
        -1000000000 <= v <= 1000000000,
    ensures
        final(out)@ == old(out)@ + micro_text(v as int),
{
    let a: u64 = if v < 0 {
        proof {
            reveal_strlit("-");
        }
        out.append("-");
        (-v) as u64
    } else {
        v as u64
    };
    append_dec(out, a / 1000000);
    proof {
        reveal_strlit(".");
    }
    out.append(".");
    let f: u64 = a % 1000000;
    append_digit(out, f / 100000 % 10);
    append_digit(out, f / 10000 % 10);
    append_digit(out, f / 1000 % 10);
    append_digit(out, f / 100 % 10);
    append_digit(out, f / 10 % 10);
    append_digit(out, f % 10);
    proof {
        assert(final(out)@ =~= old(out)@ + micro_text(v as int));
    }
}

} // verus!
