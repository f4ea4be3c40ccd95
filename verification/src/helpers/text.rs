//! Numbers as text: upper-case hexadecimal, decimal, and padding.

use vstd::prelude::*;

verus! {

/// `n` spaces.
pub open spec fn spaces(n: int) -> Seq<char> {
    Seq::new(
        if n > 0 {
            n as nat
        } else {
            0
        },
        |i: int| ' ',
    )
}

/// `text`, with spaces after it up to `width` characters.
pub open spec fn pad_right(text: Seq<char>, width: int) -> Seq<char> {
    text + spaces(width - text.len())
}

/// `text`, with spaces before it up to `width` characters.
pub open spec fn pad_left(text: Seq<char>, width: int) -> Seq<char> {
    spaces(width - text.len()) + text
}

/// The digit for a value below 16.
pub open spec fn hex_digit(n: int) -> char {
    "0123456789ABCDEF"@[n]
}

/// A byte as two hexadecimal digits.
pub open spec fn hex2(v: u8) -> Seq<char> {
    seq![hex_digit(v as int / 16), hex_digit(v as int % 16)]
}

/// A 16-bit value as four hexadecimal digits.
pub open spec fn hex4(v: u16) -> Seq<char> {
    hex2((v as int / 256) as u8) + hex2((v as int % 256) as u8)
}

/// A 16-bit value in hexadecimal, with as many digits as it needs but at least two.
pub open spec fn hex_min2(v: u16) -> Seq<char> {
    if v < 0x100 {
        hex2(v as u8)
    } else if v < 0x1000 {
        seq![hex_digit(v as int / 256)] + hex2((v as int % 256) as u8)
    } else {
        hex4(v)
    }
}

/// A number in decimal.
pub open spec fn decimal(n: nat) -> Seq<char>
    decreases n,
{
    if n < 10 {
        seq![hex_digit(n as int)]
    } else {
        decimal(n / 10).push(hex_digit((n % 10) as int))
    }
}

/// The digit for a value below 16.
pub fn hex_char(n: u8) -> (c: char)
    requires
        n < 16,
    ensures
        c == hex_digit(n as int),
{
    proof {
        reveal_strlit("0123456789ABCDEF");
    }
    "0123456789ABCDEF".get_char(n as usize)
}

/// Appends the characters of `s`.
pub fn push_str(out: &mut Vec<char>, s: &str)
    ensures
        final(out)@ == old(out)@ + s@,
{
    let n = s.unicode_len();
    let mut i: usize = 0;
    while i < n
        invariant
            0 <= i <= n,
            n == s@.len(),
            out@ == old(out)@ + s@.subrange(0, i as int),
        decreases n - i,
    {
        let c = s.get_char(i);
        out.push(c);
        i = i + 1;
        assert(out@ =~= old(out)@ + s@.subrange(0, i as int));
    }
    assert(s@.subrange(0, n as int) =~= s@);
}

/// Appends the characters of `text`.
pub fn push_all(out: &mut Vec<char>, text: &Vec<char>)
    ensures
        final(out)@ == old(out)@ + text@,
{
    let n = text.len();
    let mut i: usize = 0;
    while i < n
        invariant
            0 <= i <= n,
            n == text@.len(),
            out@ == old(out)@ + text@.subrange(0, i as int),
        decreases n - i,
    {
        out.push(text[i]);
        i = i + 1;
        assert(out@ =~= old(out)@ + text@.subrange(0, i as int));
    }
    assert(text@.subrange(0, n as int) =~= text@);
}

/// Appends `n` spaces.
pub fn push_spaces(out: &mut Vec<char>, n: usize)
    ensures
        final(out)@ == old(out)@ + spaces(n as int),
{
    let mut i: usize = 0;
    while i < n
        invariant
            0 <= i <= n,
            out@ == old(out)@ + spaces(i as int),
        decreases n - i,
    {
        out.push(' ');
        i = i + 1;
        assert(out@ =~= old(out)@ + spaces(i as int));
    }
}

/// Appends `text` and pads it with spaces up to `width` characters.
pub fn push_padded(out: &mut Vec<char>, text: &Vec<char>, width: usize)
    ensures
        final(out)@ == old(out)@ + pad_right(text@, width as int),
{
    push_all(out, text);
    if text.len() < width {
        push_spaces(out, width - text.len());
    }
    assert(out@ =~= old(out)@ + pad_right(text@, width as int));
}

/// Appends a byte as two hexadecimal digits.
pub fn push_hex2(out: &mut Vec<char>, v: u8)
    ensures
        final(out)@ == old(out)@ + hex2(v),
{
    out.push(hex_char(v / 16));
    out.push(hex_char(v % 16));
    assert(out@ =~= old(out)@ + hex2(v));
}

/// Appends a 16-bit value as four hexadecimal digits.
pub fn push_hex4(out: &mut Vec<char>, v: u16)
    ensures
        final(out)@ == old(out)@ + hex4(v),
{
    push_hex2(out, (v / 256) as u8);
    push_hex2(out, (v % 256) as u8);
    assert(out@ =~= old(out)@ + hex4(v));
}

/// Appends a 16-bit value in hexadecimal, with at least two digits.
pub fn push_hex_min2(out: &mut Vec<char>, v: u16)
    ensures
        final(out)@ == old(out)@ + hex_min2(v),
{
    if v < 0x100 {
        push_hex2(out, v as u8);
    } else if v < 0x1000 {
        out.push(hex_char((v / 256) as u8));
        push_hex2(out, (v % 256) as u8);
        assert(out@ =~= old(out)@ + hex_min2(v));
    } else {
        push_hex4(out, v);
    }
}

/// Appends a number in decimal.
pub fn push_decimal(out: &mut Vec<char>, n: usize)
    ensures
        final(out)@ == old(out)@ + decimal(n as nat),
    decreases n,
{
    if n >= 10 {
        push_decimal(out, n / 10);
    }
    out.push(hex_char((n % 10) as u8));
    assert(out@ =~= old(out)@ + decimal(n as nat));
}

/// Appends a number in decimal, with spaces before it up to `width` characters.
pub fn push_decimal_padded(out: &mut Vec<char>, n: usize, width: usize)
    ensures
        final(out)@ == old(out)@ + pad_left(decimal(n as nat), width as int),
{
    let mut digits: Vec<char> = Vec::new();
    push_decimal(&mut digits, n);
    assert(digits@ =~= decimal(n as nat));
    if digits.len() < width {
        push_spaces(out, width - digits.len());
    }
    push_all(out, &digits);
    assert(out@ =~= old(out)@ + pad_left(decimal(n as nat), width as int));
}

/// `String::push`: the string grows by the one character at its end.
#[verifier::external_body]
fn string_push(s: &mut String, c: char)
    ensures
        final(s)@ == old(s)@.push(c),
{
    s.push(c)
}

/// The characters as a string.
pub fn to_string(text: &Vec<char>) -> (s: String)
    ensures
        s@ == text@,
{
    let mut s = String::new();
    let n = text.len();
    let mut i: usize = 0;
    while i < n
        invariant
            0 <= i <= n,
            n == text@.len(),
            s@ == text@.subrange(0, i as int),
        decreases n - i,
    {
        string_push(&mut s, text[i]);
        i = i + 1;
        assert(s@ =~= text@.subrange(0, i as int));
    }
    assert(text@.subrange(0, n as int) =~= text@);
    s
}

} // verus!
