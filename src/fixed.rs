//! Fixed-point decimal numbers with six fractional digits.

use vstd::prelude::*;

use crate::text::{decimal, digit_char, push_char, push_decimal};

verus! {

/// Number of millionths in one unit.
pub const SCALE: i64 = 1000000;

/// Clamps a mathematical integer into the range of `i64`.
pub open spec fn clamp_i64(x: int) -> int {
    if x > i64::MAX {
        i64::MAX as int
    } else if x < i64::MIN {
        i64::MIN as int
    } else {
        x
    }
}

/// A decimal number held as an integer count of millionths.
#[derive(Clone, Copy, Debug, PartialEq, Eq, Structural)]
pub struct Fixed {
    pub micros: i64,
}

impl Fixed {
    /// The number `micros / 1_000_000`.
    pub fn from_micros(micros: i64) -> (r: Fixed)
        ensures
            r.micros == micros,
    {
        Fixed { micros }
    }

    /// The whole number `n`.
    pub fn from_int(n: i32) -> (r: Fixed)
        ensures
            r.micros == n * SCALE,
    {
        Fixed { micros: n as i64 * SCALE }
    }

    /// Zero.
    pub fn zero() -> (r: Fixed)
        ensures
            r.micros == 0,
    {
        Fixed { micros: 0 }
    }
}

/// The last `width` decimal digits of `n`, zeros to the left included.
pub open spec fn padded(n: nat, width: nat) -> Seq<char>
    decreases width,
{
    if width == 0 {
        Seq::empty()
    } else {
        padded(n / 10, (width - 1) as nat).push(digit_char(n % 10))
    }
}

/// `10^k`.
pub open spec fn pow10(k: nat) -> nat
    decreases k,
{
    if k == 0 {
        1
    } else {
        10 * pow10((k - 1) as nat)
    }
}

/// `|m| / unit`, rounded half up.
pub open spec fn rounded(m: int, unit: nat) -> nat {
    ((if m < 0 { -m } else { m }) + unit / 2) as nat / unit
}

/// `m / (1_000_000 * divisor)` written with `places` decimals, rounded half
/// away from zero; a minus sign precedes a negative result that does not
/// round to zero.
pub open spec fn decimal_text(m: int, divisor: nat, places: nat) -> Seq<char> {
    let unit = pow10((6 - places) as nat) * divisor;
    let q = rounded(m, unit);
    let sign = if m < 0 && q > 0 { seq!['-'] } else { Seq::empty() };
    let whole = decimal(q / pow10(places));
    if places == 0 {
        sign + whole
    } else {
        sign + whole + seq!['.'] + padded(q % pow10(places), places)
    }
}

/// The decimal representation of `n`, with a minus sign when negative.
pub open spec fn signed_decimal(n: int) -> Seq<char> {
    if n < 0 {
        seq!['-'] + decimal((-n) as nat)
    } else {
        decimal(n as nat)
    }
}

/// Appends `n` in decimal to `out`.
pub(crate) fn push_signed(out: &mut String, n: i64)
    ensures
        final(out)@ == old(out)@ + signed_decimal(n as int),
{
    if n < 0 {
        push_char(out, '-');
        let m: u64 = if n == i64::MIN { 0x8000_0000_0000_0000u64 } else { (-n) as u64 };
        push_decimal(out, m);
        assert(final(out)@ =~= old(out)@ + signed_decimal(n as int));
    } else {
        push_decimal(out, n as u64);
    }
}

fn push_padded(out: &mut String, n: u64, width: u32)
    ensures
        final(out)@ == old(out)@ + padded(n as nat, width as nat),
    decreases width,
{
    if width > 0 {
        push_padded(out, n / 10, width - 1);
        let d = n % 10;
        push_char(out, if d == 0 { '0' } else if d == 1 { '1' } else if d == 2 { '2' }
            else if d == 3 { '3' } else if d == 4 { '4' } else if d == 5 { '5' }
            else if d == 6 { '6' } else if d == 7 { '7' } else if d == 8 { '8' } else { '9' });
        assert(final(out)@ =~= old(out)@ + padded(n as nat, width as nat));
    } else {
        assert(final(out)@ =~= old(out)@ + padded(n as nat, width as nat));
    }
}

fn pow10_exec(k: u32) -> (r: u64)
    requires
        k <= 6,
    ensures
        r == pow10(k as nat),
        1 <= r <= 1000000,
{
    proof {
        reveal_with_fuel(pow10, 7);
    }
    if k == 0 {
        1
    } else if k == 1 {
        10
    } else if k == 2 {
        100
    } else if k == 3 {
        1000
    } else if k == 4 {
        10000
    } else if k == 5 {
        100000
    } else {
        1000000
    }
}

/// Appends `micros / (1_000_000 * divisor)` with `places` decimals to `out`.
pub(crate) fn push_decimal_text(out: &mut String, micros: i64, divisor: u32, places: u32)
    requires
        1 <= divisor,
        places <= 6,
    ensures
        final(out)@ == old(out)@ + decimal_text(micros as int, divisor as nat, places as nat),
{
    let base = pow10_exec(6 - places);
    assert(1 <= base * divisor <= 1000000 * 0xffff_ffff) by (nonlinear_arith)
        requires
            1 <= base <= 1000000,
            1 <= divisor <= 0xffff_ffff,
    ;
    let unit: u64 = base * divisor as u64;
    let mag: u64 = if micros < 0 {
        if micros == i64::MIN { 0x8000_0000_0000_0000u64 } else { (-micros) as u64 }
    } else {
        micros as u64
    };
    let q: u64 = (mag + unit / 2) / unit;
    let scale = pow10_exec(places);
    if micros < 0 && q > 0 {
        push_char(out, '-');
    }
    let ghost after_sign = out@;
    push_decimal(out, q / scale);
    if places > 0 {
        push_char(out, '.');
        push_padded(out, q % scale, places);
    }
    assert(final(out)@ =~= old(out)@ + decimal_text(micros as int, divisor as nat, places as nat));
}

} // verus!
