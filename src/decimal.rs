//! Decimal text of integers, as immediates and displacements are written.
use vstd::prelude::*;

verus! {

pub open spec fn digit_text(d: nat) -> Seq<char> {
    if d == 0 {
        "0"@
    } else if d == 1 {
        "1"@
    } else if d == 2 {
        "2"@
    } else if d == 3 {
        "3"@
    } else if d == 4 {
        "4"@
    } else if d == 5 {
        "5"@
    } else if d == 6 {
        "6"@
    } else if d == 7 {
        "7"@
    } else if d == 8 {
        "8"@
    } else {
        "9"@
    }
}

/// The digits of `n`, most significant first, with no leading zero.
pub open spec fn decimal(n: nat) -> Seq<char>
    decreases n,
{
    if n < 10 {
        digit_text(n)
    } else {
        decimal(n / 10) + digit_text(n % 10)
    }
}

/// `-` and the digits for a negative value, the digits alone otherwise.
pub open spec fn signed_decimal(v: int) -> Seq<char> {
    if v < 0 {
        "-"@ + decimal((-v) as nat)
    } else {
        decimal(v as nat)
    }
}

fn digit(d: u64) -> (r: &'static str)
    requires
        d < 10,
    ensures
        r@ == digit_text(d as nat),
{
    match d {
        0 => "0",
        1 => "1",
        2 => "2",
        3 => "3",
        4 => "4",
        5 => "5",
        6 => "6",
        7 => "7",
        8 => "8",
        _ => "9",
    }
}

/// Appends the digits of `n` to `out`.
pub fn write_unsigned(out: &mut String, n: u64)
    ensures
        final(out)@ == old(out)@ + decimal(n as nat),
    decreases n,
{
    let ghost start = out@;
    if n >= 10 {
        write_unsigned(out, n / 10);
    }
    out.append(digit(n % 10));
    assert(out@ =~= start + decimal(n as nat));
}

/// Appends the decimal text of `v`, with `-` when it is negative.
pub fn write_signed(out: &mut String, v: i64)
    ensures
        final(out)@ == old(out)@ + signed_decimal(v as int),
{
    let ghost start = out@;
    if v < 0 {
        let magnitude: u64 = ((-(v + 1)) as u64) + 1;
        out.append("-");
        write_unsigned(out, magnitude);
        assert(out@ =~= start + signed_decimal(v as int));
    } else {
        write_unsigned(out, v as u64);
    }
}

} // verus!
