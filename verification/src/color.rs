//! RGBA colors with 8-bit channels and their `#RRGGBB[AA]` hex notation.
use vstd::prelude::*;

verus! {

/// Alpha channel value of a fully opaque color.
pub const ALPHA_OPAQUE: u8 = 255;

/// An RGBA color with one byte per channel.
#[derive(Clone, Copy, Debug, PartialEq, Eq, Structural)]
pub struct Color {
    pub r: u8,
    pub g: u8,
    pub b: u8,
    pub a: u8,
}

impl Color {
    /// The fully transparent color, used wherever a theme leaves a slot unset.
    pub fn transparent() -> (c: Color)
        ensures
            c == (Color { r: 0, g: 0, b: 0, a: 0 }),
    {
        Color { r: 0, g: 0, b: 0, a: 0 }
    }

    /// An opaque color from its three channels.
    pub fn opaque(r: u8, g: u8, b: u8) -> (c: Color)
        ensures
            c == (Color { r, g, b, a: ALPHA_OPAQUE }),
    {
        Color { r, g, b, a: ALPHA_OPAQUE }
    }
}

/// Whether `c` is an ASCII hex digit, in either case.
pub open spec fn is_hex_digit(c: char) -> bool {
    ('0' <= c && c <= '9') || ('a' <= c && c <= 'f') || ('A' <= c && c <= 'F')
}

/// Whether `c` is a hex digit as `color_to_hex` writes them: `0-9A-F`.
pub open spec fn is_upper_hex_digit(c: char) -> bool {
    ('0' <= c && c <= '9') || ('A' <= c && c <= 'F')
}

/// The numeric value of a hex digit.
pub open spec fn hex_val(c: char) -> int
    recommends
        is_hex_digit(c),
{
    if '0' <= c && c <= '9' {
        c as u32 - '0' as u32
    } else if 'a' <= c && c <= 'f' {
        c as u32 - 'a' as u32 + 10
    } else {
        c as u32 - 'A' as u32 + 10
    }
}

/// The upper-case hex digit for a value below 16.
pub open spec fn hex_upper(v: int) -> char
    recommends
        0 <= v < 16,
{
    if v == 0 {
        '0'
    } else if v == 1 {
        '1'
    } else if v == 2 {
        '2'
    } else if v == 3 {
        '3'
    } else if v == 4 {
        '4'
    } else if v == 5 {
        '5'
    } else if v == 6 {
        '6'
    } else if v == 7 {
        '7'
    } else if v == 8 {
        '8'
    } else if v == 9 {
        '9'
    } else if v == 10 {
        'A'
    } else if v == 11 {
        'B'
    } else if v == 12 {
        'C'
    } else if v == 13 {
        'D'
    } else if v == 14 {
        'E'
    } else {
        'F'
    }
}

/// The byte encoded by two hex digits.
pub open spec fn hex_pair_val(hi: char, lo: char) -> int {
    hex_val(hi) * 16 + hex_val(lo)
}

/// The two upper-case digits of a byte.
pub open spec fn spec_byte_hex(v: int) -> Seq<char>
    recommends
        0 <= v < 256,
{
    seq![hex_upper(v / 16), hex_upper(v % 16)]
}

/// Whether `s` is a strictly well-formed hex color string: `#` followed by
/// six or eight hex digits. This is the shape `color_to_hex` writes;
/// `hex_to_color` tolerates a little more, as `pair_readable` spells out.
pub open spec fn valid_hex(s: Seq<char>) -> bool {
    &&& (s.len() == 7 || s.len() == 9)
    &&& s[0] == '#'
    &&& forall|i: int| 1 <= i < s.len() ==> is_hex_digit(#[trigger] s[i])
}

/// Whether two characters are read as a byte the way the standard integer
/// parser reads a two-character string in base 16: two hex digits, or a
/// `+` sign before one digit (the parser takes a leading plus).
pub open spec fn pair_readable(hi: char, lo: char) -> bool {
    ||| is_hex_digit(hi) && is_hex_digit(lo)
    ||| hi == '+' && is_hex_digit(lo)
}

/// The byte two readable characters encode.
pub open spec fn pair_read_val(hi: char, lo: char) -> int
    recommends
        pair_readable(hi, lo),
{
    if is_hex_digit(hi) {
        hex_pair_val(hi, lo)
    } else {
        hex_val(lo)
    }
}

/// Whether a string is read as a color at all: its length, the leading
/// `#`, and three readable channel pairs. The alpha pair is not required;
/// an unreadable one falls back to fully opaque.
pub open spec fn parses_as_color(s: Seq<char>) -> bool {
    &&& (s.len() == 7 || s.len() == 9)
    &&& s[0] == '#'
    &&& pair_readable(s[1], s[2])
    &&& pair_readable(s[3], s[4])
    &&& pair_readable(s[5], s[6])
}

/// The color a hex string denotes, or `None` if it cannot be read.
/// A six-digit string is fully opaque; an eight-digit one carries its
/// alpha where the alpha pair is readable, and is fully opaque otherwise.
pub open spec fn spec_hex_to_color(s: Seq<char>) -> Option<Color> {
    if parses_as_color(s) {
        Some(
            Color {
                r: pair_read_val(s[1], s[2]) as u8,
                g: pair_read_val(s[3], s[4]) as u8,
                b: pair_read_val(s[5], s[6]) as u8,
                a: if s.len() == 9 && pair_readable(s[7], s[8]) {
                    pair_read_val(s[7], s[8]) as u8
                } else {
                    ALPHA_OPAQUE
                },
            },
        )
    } else {
        None
    }
}

/// The canonical hex notation of a color: upper-case digits, and the alpha
/// pair only when the color is not fully opaque.
pub open spec fn spec_color_to_hex(c: Color) -> Seq<char> {
    let rgb = seq!['#'] + spec_byte_hex(c.r as int) + spec_byte_hex(c.g as int) + spec_byte_hex(
        c.b as int,
    );
    if c.a == ALPHA_OPAQUE {
        rgb
    } else {
        rgb + spec_byte_hex(c.a as int)
    }
}

/// The value of one hex digit, or `None` for any other character.
fn hex_digit_value(c: char) -> (r: Option<u8>)
    ensures
        match r {
            Some(v) => is_hex_digit(c) && v == hex_val(c) && v < 16,
            None => !is_hex_digit(c),
        },
{
    if '0' <= c && c <= '9' {
        Some((c as u32 - '0' as u32) as u8)
    } else if 'a' <= c && c <= 'f' {
        Some((c as u32 - 'a' as u32 + 10) as u8)
    } else if 'A' <= c && c <= 'F' {
        Some((c as u32 - 'A' as u32 + 10) as u8)
    } else {
        None
    }
}

/// Reads two characters as a byte, the way the standard integer parser
/// reads a two-character string in base 16; `None` where that parse errs.
fn hex_pair_value(hi: char, lo: char) -> (r: Option<u8>)
    ensures
        match r {
            Some(v) => pair_readable(hi, lo) && v == pair_read_val(hi, lo),
            None => !pair_readable(hi, lo),
        },
{
    match hex_digit_value(hi) {
        Some(h) => match hex_digit_value(lo) {
            Some(l) => Some(h * 16 + l),
            None => None,
        },
        None => {
            if hi == '+' {
                hex_digit_value(lo)
            } else {
                None
            }
        },
    }
}

/// Reads `#RRGGBB` or `#RRGGBBAA` into a color; a string of another shape,
/// or with an unreadable channel pair, is rejected. A six-digit string is
/// fully opaque, and so is an eight-digit one whose alpha pair cannot be
/// read. Each pair is read the way the standard integer parser reads two
/// characters in base 16, sign quirks included.
pub fn hex_to_color(hex: &str) -> (r: Option<Color>)
    ensures
        r == spec_hex_to_color(hex@),
{
    let n = hex.unicode_len();
    if n != 7 && n != 9 {
        return None;
    }
    if hex.get_char(0) != '#' {
        return None;
    }
    let red = hex_pair_value(hex.get_char(1), hex.get_char(2));
    let green = hex_pair_value(hex.get_char(3), hex.get_char(4));
    let blue = hex_pair_value(hex.get_char(5), hex.get_char(6));
    match (red, green, blue) {
        (Some(red), Some(green), Some(blue)) => {
            let alpha = if n == 9 {
                match hex_pair_value(hex.get_char(7), hex.get_char(8)) {
                    Some(alpha) => alpha,
                    None => ALPHA_OPAQUE,
                }
            } else {
                ALPHA_OPAQUE
            };
            Some(Color { r: red, g: green, b: blue, a: alpha })
        },
        _ => None,
    }
}

/// The one-character string of an upper-case hex digit.
fn hex_digit_str(v: u8) -> (s: &'static str)
    requires
        v < 16,
    ensures
        s@ =~= seq![hex_upper(v as int)],
{
    proof {
        reveal_strlit("0");
        reveal_strlit("1");
        reveal_strlit("2");
        reveal_strlit("3");
        reveal_strlit("4");
        reveal_strlit("5");
        reveal_strlit("6");
        reveal_strlit("7");
        reveal_strlit("8");
        reveal_strlit("9");
        reveal_strlit("A");
        reveal_strlit("B");
        reveal_strlit("C");
        reveal_strlit("D");
        reveal_strlit("E");
        reveal_strlit("F");
    }
    match v {
        0 => "0",
        1 => "1",
        2 => "2",
        3 => "3",
        4 => "4",
        5 => "5",
        6 => "6",
        7 => "7",
        8 => "8",
        9 => "9",
        10 => "A",
        11 => "B",
        12 => "C",
        13 => "D",
        14 => "E",
        _ => "F",
    }
}

/// Appends the two upper-case hex digits of `v` to `out`.
fn push_byte_hex(out: &mut String, v: u8)
    ensures
        final(out)@ == old(out)@ + spec_byte_hex(v as int),
{
    out.append(hex_digit_str(v / 16));
    out.append(hex_digit_str(v % 16));
    proof {
        assert(final(out)@ =~= old(out)@ + spec_byte_hex(v as int));
    }
}

/// Writes a color in its canonical hex notation: `#RRGGBB`, with `AA`
/// appended only when the color is not fully opaque.
pub fn color_to_hex(color: Color) -> (r: String)
    ensures
        r@ == spec_color_to_hex(color),
{
    let mut hex = String::from_str("#");
    proof {
        reveal_strlit("#");
    }
    push_byte_hex(&mut hex, color.r);
    push_byte_hex(&mut hex, color.g);
    push_byte_hex(&mut hex, color.b);
    if color.a < ALPHA_OPAQUE {
        push_byte_hex(&mut hex, color.a);
    }
    proof {
        assert(hex@ =~= spec_color_to_hex(color));
    }
    hex
}

/// Each digit written for a byte is an upper-case hex digit, and the pair
/// reads back as that byte.
proof fn lemma_byte_hex_digits(v: int)
    requires
        0 <= v < 256,
    ensures
        is_upper_hex_digit(hex_upper(v / 16)),
        is_upper_hex_digit(hex_upper(v % 16)),
        hex_pair_val(hex_upper(v / 16), hex_upper(v % 16)) == v,
{
    assert(0 <= v / 16 < 16);
    assert(0 <= v % 16 < 16);
    assert(hex_val(hex_upper(v / 16)) == v / 16);
    assert(hex_val(hex_upper(v % 16)) == v % 16);
}

/// An upper-case hex digit survives the trip through its value.
proof fn lemma_upper_digit_round_trip(c: char)
    requires
        is_upper_hex_digit(c),
    ensures
        0 <= hex_val(c) < 16,
        hex_upper(hex_val(c)) == c,
{
}

/// Every color reads back from its own hex notation: parsing what
/// `color_to_hex` writes returns exactly the color it was given.
pub proof fn lemma_color_hex_round_trip(c: Color)
    ensures
        spec_hex_to_color(spec_color_to_hex(c)) == Some(c),
{
    let s = spec_color_to_hex(c);
    lemma_byte_hex_digits(c.r as int);
    lemma_byte_hex_digits(c.g as int);
    lemma_byte_hex_digits(c.b as int);
    lemma_byte_hex_digits(c.a as int);
    assert(parses_as_color(s));
    assert(pair_read_val(s[1], s[2]) == c.r as int);
    assert(pair_read_val(s[3], s[4]) == c.g as int);
    assert(pair_read_val(s[5], s[6]) == c.b as int);
    if c.a != ALPHA_OPAQUE {
        assert(pair_readable(s[7], s[8]));
        assert(pair_read_val(s[7], s[8]) == c.a as int);
    }
}

/// Whether `s` is the canonical notation of some color: well formed,
/// upper-case digits, and no alpha pair spelling full opacity.
pub open spec fn canonical_hex(s: Seq<char>) -> bool {
    &&& valid_hex(s)
    &&& forall|i: int| 1 <= i < s.len() ==> is_upper_hex_digit(#[trigger] s[i])
    &&& (s.len() == 9 ==> hex_pair_val(s[7], s[8]) != ALPHA_OPAQUE as int)
}

/// Every canonical hex string survives the trip through parsing: writing
/// the color it denotes gives back the very same characters.
pub proof fn lemma_hex_string_round_trip(s: Seq<char>)
    requires
        canonical_hex(s),
    ensures
        spec_hex_to_color(s) is Some,
        spec_color_to_hex(spec_hex_to_color(s)->Some_0) =~= s,
{
    let c = spec_hex_to_color(s)->Some_0;
    assert(forall|i: int| 1 <= i < s.len() ==> is_hex_digit(#[trigger] s[i]));
    assert(is_hex_digit(s[1]) && is_hex_digit(s[2]) && is_hex_digit(s[3]) && is_hex_digit(s[4])
        && is_hex_digit(s[5]) && is_hex_digit(s[6]));
    assert(parses_as_color(s));
    lemma_upper_digit_round_trip(s[1]);
    lemma_upper_digit_round_trip(s[2]);
    lemma_upper_digit_round_trip(s[3]);
    lemma_upper_digit_round_trip(s[4]);
    lemma_upper_digit_round_trip(s[5]);
    lemma_upper_digit_round_trip(s[6]);
    if s.len() == 9 {
        lemma_upper_digit_round_trip(s[7]);
        lemma_upper_digit_round_trip(s[8]);
        assert(c.a as int == hex_pair_val(s[7], s[8]));
        assert(c.a != ALPHA_OPAQUE);
        lemma_pair_digits_recovered(s[7], s[8]);
    } else {
        assert(c.a == ALPHA_OPAQUE);
    }
    lemma_pair_digits_recovered(s[1], s[2]);
    lemma_pair_digits_recovered(s[3], s[4]);
    lemma_pair_digits_recovered(s[5], s[6]);
}

/// Writing the byte two upper-case digits encode reproduces those digits.
proof fn lemma_pair_digits_recovered(hi: char, lo: char)
    requires
        is_upper_hex_digit(hi),
        is_upper_hex_digit(lo),
    ensures
        spec_byte_hex(hex_pair_val(hi, lo)) =~= seq![hi, lo],
{
    lemma_upper_digit_round_trip(hi);
    lemma_upper_digit_round_trip(lo);
    let v = hex_pair_val(hi, lo);
    assert(v / 16 == hex_val(hi)) by (nonlinear_arith)
        requires
            v == hex_val(hi) * 16 + hex_val(lo),
            0 <= hex_val(hi) < 16,
            0 <= hex_val(lo) < 16,
    ;
    assert(v % 16 == hex_val(lo)) by (nonlinear_arith)
        requires
            v == hex_val(hi) * 16 + hex_val(lo),
            0 <= hex_val(hi) < 16,
            0 <= hex_val(lo) < 16,
    ;
}

} // verus!
