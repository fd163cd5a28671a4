//! Sensor readings and their fixed-point text fields.
use vstd::prelude::*;

use crate::text::{ascii_digit_at, digit_at};

verus! {

/// Temperature, humidity and pressure, each in tenths of its unit, truncated
/// toward zero (23.45 degrees is 234).
#[derive(Clone, Copy, Debug, PartialEq, Eq, Structural)]
pub struct Readings {
    pub temperature: u32,
    pub humidity: u32,
    pub pressure: u32,
}

/// `x` tenths as two integer digits, a point and one decimal digit: the
/// tens and ones of the whole part and the truncated tenth.
pub open spec fn small_field(x: int) -> Seq<u8> {
    seq![digit_at(x, 100), digit_at(x, 10), 46u8, digit_at(x, 1)]
}

/// The thousands digit of `x` tenths' whole part, blank when it is zero.
pub open spec fn thousands_char(x: int) -> u8 {
    if (x / 10000) % 10 == 0 {
        32u8
    } else {
        digit_at(x, 10000)
    }
}

/// `x` tenths as four integer digits, a point and one decimal digit, with a
/// leading zero in the thousands place written as a space.
pub open spec fn large_field(x: int) -> Seq<u8> {
    seq![
        thousands_char(x),
        digit_at(x, 1000),
        digit_at(x, 100),
        digit_at(x, 10),
        46u8,
        digit_at(x, 1),
    ]
}

/// Appends `small_field(x)`.
pub fn push_small_field(out: &mut Vec<u8>, x: u32)
    ensures
        final(out)@ == old(out)@ + small_field(x as int),
{
    out.push(ascii_digit_at(x, 100));
    out.push(ascii_digit_at(x, 10));
    out.push(46);
    out.push(ascii_digit_at(x, 1));
    assert(final(out)@ =~= old(out)@ + small_field(x as int));
}

/// Appends `large_field(x)`.
pub fn push_large_field(out: &mut Vec<u8>, x: u32)
    ensures
        final(out)@ == old(out)@ + large_field(x as int),
{
    let thousands = if (x / 10000) % 10 == 0 {
        32
    } else {
        ascii_digit_at(x, 10000)
    };
    out.push(thousands);
    out.push(ascii_digit_at(x, 1000));
    out.push(ascii_digit_at(x, 100));
    out.push(ascii_digit_at(x, 10));
    out.push(46);
    out.push(ascii_digit_at(x, 1));
    assert(final(out)@ =~= old(out)@ + large_field(x as int));
}

} // verus!
