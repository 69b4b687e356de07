use vstd::prelude::*;
use crate::text::push_char;

verus! {

/// A colour given by its red, green and blue components.
#[derive(Clone, Copy, PartialEq, Eq, Debug, Structural)]
pub struct Rgb {
    pub red: u8,
    pub green: u8,
    pub blue: u8,
}

/// The upper-case hexadecimal digit of a value below sixteen.
pub open spec fn hex_digit(d: int) -> char {
    if d < 10 {
        (48 + d) as char
    } else {
        (55 + d) as char
    }
}

/// The two upper-case hexadecimal digits of a byte.
pub open spec fn hex_byte(b: u8) -> Seq<char> {
    seq![hex_digit(b as int / 16), hex_digit(b as int % 16)]
}

/// `#RRGGBB` for a colour.
pub open spec fn hex_color(c: Rgb) -> Seq<char> {
    seq!['#'] + hex_byte(c.red) + hex_byte(c.green) + hex_byte(c.blue)
}

fn hex_digit_char(d: u8) -> (c: char)
    requires
        d < 16,
    ensures
        c == hex_digit(d as int),
{
    if d < 10 {
        (48 + d) as char
    } else {
        (55 + d) as char
    }
}

fn push_hex_byte(s: &mut String, b: u8)
    ensures
        final(s)@ == old(s)@ + hex_byte(b),
{
    push_char(s, hex_digit_char(b / 16));
    push_char(s, hex_digit_char(b % 16));
}

/// Formats a colour as `#RRGGBB` with upper-case hexadecimal digits.
pub fn color_to_hex_string(color: Rgb) -> (res: String)
    ensures
        res@ == hex_color(color),
{
    let mut s = String::new();
    push_char(&mut s, '#');
    push_hex_byte(&mut s, color.red);
    push_hex_byte(&mut s, color.green);
    push_hex_byte(&mut s, color.blue);
    assert(s@ =~= hex_color(color));
    s
}



proof fn lemma_hex_digit_injective(d: int, e: int)
    requires
        0 <= d < 16,
        0 <= e < 16,
        hex_digit(d) == hex_digit(e),
    ensures
        d == e,
{
    assert((48 + d) as char as int == 48 + d || d >= 10);
    assert((55 + d) as char as int == 55 + d || d < 10);
    assert((48 + e) as char as int == 48 + e || e >= 10);
    assert((55 + e) as char as int == 55 + e || e < 10);
}

proof fn lemma_hex_byte_injective(a: u8, b: u8)
    requires
        hex_byte(a) == hex_byte(b),
    ensures
        a == b,
{
    assert(hex_byte(a)[0] == hex_byte(b)[0]);
    assert(hex_byte(a)[1] == hex_byte(b)[1]);
    lemma_hex_digit_injective(a as int / 16, b as int / 16);
    lemma_hex_digit_injective(a as int % 16, b as int % 16);
}

/// The `#RRGGBB` notation is seven characters, starts with `#`, and tells colours apart:
/// two colours with the same notation are the same colour.
pub proof fn lemma_hex_color_injective(a: Rgb, b: Rgb)
    ensures
        hex_color(a).len() == 7,
        hex_color(a)[0] == '#',
        hex_color(a) == hex_color(b) ==> a == b,
{
    if hex_color(a) == hex_color(b) {
        assert(hex_color(a).subrange(1, 3) =~= hex_byte(a.red));
        assert(hex_color(b).subrange(1, 3) =~= hex_byte(b.red));
        assert(hex_color(a).subrange(3, 5) =~= hex_byte(a.green));
        assert(hex_color(b).subrange(3, 5) =~= hex_byte(b.green));
        assert(hex_color(a).subrange(5, 7) =~= hex_byte(a.blue));
        assert(hex_color(b).subrange(5, 7) =~= hex_byte(b.blue));
        lemma_hex_byte_injective(a.red, b.red);
        lemma_hex_byte_injective(a.green, b.green);
        lemma_hex_byte_injective(a.blue, b.blue);
    }
}

/// The value of an upper-case hexadecimal digit character, or -1 for any other character.
pub open spec fn hex_value(ch: char) -> int {
    if '0' <= ch && ch <= '9' {
        ch as int - 48
    } else if 'A' <= ch && ch <= 'F' {
        ch as int - 55
    } else {
        -1
    }
}

proof fn lemma_hex_digit_value(d: int)
    requires
        0 <= d < 16,
    ensures
        hex_value(hex_digit(d)) == d,
{
    assert((48 + d) as char as int == 48 + d || d >= 10);
    assert((55 + d) as char as int == 55 + d || d < 10);
}

/// Reading `#RRGGBB` back: the two digits after `#` are the red component, the next two the
/// green and the last two the blue, each written most significant digit first.
pub proof fn lemma_hex_color_reads_back(c: Rgb)
    ensures
        hex_color(c).len() == 7,
        hex_color(c)[0] == '#',
        hex_value(hex_color(c)[1]) * 16 + hex_value(hex_color(c)[2]) == c.red,
        hex_value(hex_color(c)[3]) * 16 + hex_value(hex_color(c)[4]) == c.green,
        hex_value(hex_color(c)[5]) * 16 + hex_value(hex_color(c)[6]) == c.blue,
{
    lemma_hex_digit_value(c.red as int / 16);
    lemma_hex_digit_value(c.red as int % 16);
    lemma_hex_digit_value(c.green as int / 16);
    lemma_hex_digit_value(c.green as int % 16);
    lemma_hex_digit_value(c.blue as int / 16);
    lemma_hex_digit_value(c.blue as int % 16);
}

} // verus!
