//! ASCII text helpers shared by the display and the log record.
use vstd::prelude::*;

verus! {

/// The bytes of an ASCII character sequence, one byte per character.
pub open spec fn ascii(s: Seq<char>) -> Seq<u8> {
    Seq::new(s.len(), |i: int| s[i] as u8)
}

/// The ASCII character of the decimal digit `d` (`'0' + d`).
pub open spec fn digit_char(d: int) -> u8 {
    (d + 48) as u8
}

/// An ASCII decimal digit, `'0'` to `'9'`.
pub open spec fn is_digit_char(c: u8) -> bool {
    48 <= c <= 57
}

/// The tens digit and the ones digit of `v`, as ASCII characters.
pub open spec fn two_digits(v: int) -> Seq<u8> {
    seq![digit_char((v / 10) % 10), digit_char(v % 10)]
}

/// The ASCII digit of `v` at the place of value `scale` (1, 10, 100, ...).
pub open spec fn digit_at(v: int, scale: int) -> u8 {
    digit_char((v / scale) % 10)
}

/// Appends the bytes of an ASCII string to `out`.
pub fn push_text(out: &mut Vec<u8>, s: &str)
    requires
        vstd::string::is_ascii(s),
    ensures
        final(out)@ == old(out)@ + ascii(s@),
{
    broadcast use vstd::string::is_ascii_spec_bytes;

    let b: &[u8] = s.as_bytes();
    let mut i: usize = 0;
    while i < b.len()
        invariant
            i <= b@.len(),
            b@ == ascii(s@),
            out@ == old(out)@ + b@.subrange(0, i as int),
        decreases b@.len() - i,
    {
        out.push(b[i]);
        i = i + 1;
        assert(out@ =~= old(out)@ + b@.subrange(0, i as int));
    }
    assert(b@.subrange(0, i as int) =~= b@);
}

/// An ASCII string as a new byte vector.
pub fn text_bytes(s: &str) -> (r: Vec<u8>)
    requires
        vstd::string::is_ascii(s),
    ensures
        r@ == ascii(s@),
{
    let mut v: Vec<u8> = Vec::new();
    push_text(&mut v, s);
    assert(v@ =~= ascii(s@));
    v
}

/// The ASCII digit of `v` at the place of value `scale`.
pub fn ascii_digit_at(v: u32, scale: u32) -> (c: u8)
    requires
        scale > 0,
    ensures
        c == digit_at(v as int, scale as int),
        is_digit_char(c),
{
    ascii_digit(((v / scale) % 10) as u8)
}

/// The ASCII character of a decimal digit.
pub fn ascii_digit(d: u8) -> (c: u8)
    requires
        d < 10,
    ensures
        c == digit_char(d as int),
        is_digit_char(c),
{
    d + 48
}

/// Appends the tens and ones digits of `v` to `out`.
pub fn push_two_digits(out: &mut Vec<u8>, v: u8)
    ensures
        final(out)@ == old(out)@ + two_digits(v as int),
{
    out.push(ascii_digit((v / 10) % 10));
    out.push(ascii_digit(v % 10));
    assert(final(out)@ =~= old(out)@ + two_digits(v as int));
}

} // verus!
