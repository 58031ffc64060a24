//! A single RGB color at the precision the effect file carries: one 8-bit
//! level per channel (quantization = scale by 255, clamp, truncate happens at
//! the boundary where colors enter the library).

use vstd::prelude::*;

use crate::strutil::{chars_to_string, str_to_chars};

verus! {

/// One lighting-matrix pixel color, quantized to 8 bits per channel.
#[derive(Debug, Clone, Copy, PartialEq, Eq, Structural)]
pub struct Color {
    pub r: u8,
    pub g: u8,
    pub b: u8,
}

/// True exactly for the characters `to_digit(16)` accepts.
pub open spec fn is_hex_digit(c: char) -> bool {
    ('0' <= c && c <= '9') || ('a' <= c && c <= 'f') || ('A' <= c && c <= 'F')
}

/// Numeric value of a hexadecimal digit character.
pub open spec fn hex_digit_value(c: char) -> int {
    if '0' <= c && c <= '9' {
        c as int - '0' as int
    } else if 'a' <= c && c <= 'f' {
        c as int - 'a' as int + 10
    } else {
        c as int - 'A' as int + 10
    }
}

/// The uppercase hexadecimal digit character for a value below 16.
pub open spec fn hex_char(v: int) -> char {
    if v == 0 { '0' }
    else if v == 1 { '1' }
    else if v == 2 { '2' }
    else if v == 3 { '3' }
    else if v == 4 { '4' }
    else if v == 5 { '5' }
    else if v == 6 { '6' }
    else if v == 7 { '7' }
    else if v == 8 { '8' }
    else if v == 9 { '9' }
    else if v == 10 { 'A' }
    else if v == 11 { 'B' }
    else if v == 12 { 'C' }
    else if v == 13 { 'D' }
    else if v == 14 { 'E' }
    else { 'F' }
}

/// Two uppercase hexadecimal digits of a byte value.
pub open spec fn hex_byte(v: int) -> Seq<char> {
    seq![hex_char(v / 16), hex_char(v % 16)]
}

/// The `#RRGGBB` rendering of a color, uppercase.
pub open spec fn spec_to_hex(c: Color) -> Seq<char> {
    seq!['#'] + hex_byte(c.r as int) + hex_byte(c.g as int) + hex_byte(c.b as int)
}

/// What parsing a hex color string yields: `#` optional; 3- and 4-digit forms
/// give 16 levels per channel (digit times 17), 6- and 8-digit forms give the
/// full 8 bits; the trailing alpha digits of the 4- and 8-digit forms are
/// ignored; anything else is rejected.
pub open spec fn spec_from_hex(s: Seq<char>) -> Option<Color> {
    let t = if s.len() > 0 && s[0] == '#' { s.skip(1) } else { s };
    if t.len() == 3 || t.len() == 4 {
        if is_hex_digit(t[0]) && is_hex_digit(t[1]) && is_hex_digit(t[2]) {
            Some(Color {
                r: (hex_digit_value(t[0]) * 17) as u8,
                g: (hex_digit_value(t[1]) * 17) as u8,
                b: (hex_digit_value(t[2]) * 17) as u8,
            })
        } else {
            None
        }
    } else if t.len() == 6 || t.len() == 8 {
        if is_hex_digit(t[0]) && is_hex_digit(t[1]) && is_hex_digit(t[2])
            && is_hex_digit(t[3]) && is_hex_digit(t[4]) && is_hex_digit(t[5]) {
            Some(Color {
                r: (hex_digit_value(t[0]) * 16 + hex_digit_value(t[1])) as u8,
                g: (hex_digit_value(t[2]) * 16 + hex_digit_value(t[3])) as u8,
                b: (hex_digit_value(t[4]) * 16 + hex_digit_value(t[5])) as u8,
            })
        } else {
            None
        }
    } else {
        None
    }
}

impl Color {
    /// Whether every channel is zero.
    pub open spec fn spec_is_black(self) -> bool {
        self.r == 0 && self.g == 0 && self.b == 0
    }

    /// Builds a color from already-quantized 8-bit channels.
    pub fn from_quantized(r: u8, g: u8, b: u8) -> (c: Color)
        ensures
            c == (Color { r, g, b }),
    {
        Color { r, g, b }
    }

    /// The quantized 8-bit channels of this color.
    pub fn to_quantized(&self) -> (t: (u8, u8, u8))
        ensures
            t == (self.r, self.g, self.b),
    {
        (self.r, self.g, self.b)
    }

    /// Tests whether the color quantizes to all-zero channels.
    pub fn is_black(&self) -> (black: bool)
        ensures
            black == self.spec_is_black(),
    {
        self.r == 0 && self.g == 0 && self.b == 0
    }

    /// Renders the color as uppercase `#RRGGBB`.
    pub fn to_hex(&self) -> (s: String)
        ensures
            s@ == spec_to_hex(*self),
    {
        let mut v: Vec<char> = Vec::new();
        v.push('#');
        v.push(hex_char_exec(self.r / 16));
        v.push(hex_char_exec(self.r % 16));
        v.push(hex_char_exec(self.g / 16));
        v.push(hex_char_exec(self.g % 16));
        v.push(hex_char_exec(self.b / 16));
        v.push(hex_char_exec(self.b % 16));
        proof {
            assert(v@ =~= spec_to_hex(*self));
        }
        chars_to_string(&v)
    }

    /// Parses a hex color string (3, 4, 6 or 8 digits, `#` optional).
    pub fn from_hex(hex: &str) -> (c: Option<Color>)
        ensures
            c == spec_from_hex(hex@),
    {
        let chars = str_to_chars(hex);
        let off: usize = if chars.len() > 0 && chars[0] == '#' { 1 } else { 0 };
        let n = chars.len() - off;
        proof {
            let t = if hex@.len() > 0 && hex@[0] == '#' { hex@.skip(1) } else { hex@ };
            assert(t.len() == n);
            assert forall|i: int| 0 <= i < n implies t[i] == chars@[off + i] by {}
        }
        if n == 3 || n == 4 {
            let d0 = hex_value_of_char(chars[off]);
            let d1 = hex_value_of_char(chars[off + 1]);
            let d2 = hex_value_of_char(chars[off + 2]);
            match (d0, d1, d2) {
                (Some(r), Some(g), Some(b)) => Some(Color { r: r * 17, g: g * 17, b: b * 17 }),
                _ => None,
            }
        } else if n == 6 || n == 8 {
            let d0 = hex_value_of_char(chars[off]);
            let d1 = hex_value_of_char(chars[off + 1]);
            let d2 = hex_value_of_char(chars[off + 2]);
            let d3 = hex_value_of_char(chars[off + 3]);
            let d4 = hex_value_of_char(chars[off + 4]);
            let d5 = hex_value_of_char(chars[off + 5]);
            match (d0, d1, d2, d3, d4, d5) {
                (Some(r1), Some(r2), Some(g1), Some(g2), Some(b1), Some(b2)) => Some(Color {
                    r: r1 * 16 + r2,
                    g: g1 * 16 + g2,
                    b: b1 * 16 + b2,
                }),
                _ => None,
            }
        } else {
            None
        }
    }
}

impl Default for Color {
    /// The default color is black.
    fn default() -> (c: Color)
        ensures
            c == (Color { r: 0, g: 0, b: 0 }),
    {
        Color { r: 0, g: 0, b: 0 }
    }
}

/// Uppercase hexadecimal digit character of a value below 16.
fn hex_char_exec(v: u8) -> (c: char)
    requires
        v < 16,
    ensures
        c == hex_char(v as int),
{
    if v == 0 { '0' }
    else if v == 1 { '1' }
    else if v == 2 { '2' }
    else if v == 3 { '3' }
    else if v == 4 { '4' }
    else if v == 5 { '5' }
    else if v == 6 { '6' }
    else if v == 7 { '7' }
    else if v == 8 { '8' }
    else if v == 9 { '9' }
    else if v == 10 { 'A' }
    else if v == 11 { 'B' }
    else if v == 12 { 'C' }
    else if v == 13 { 'D' }
    else if v == 14 { 'E' }
    else { 'F' }
}

/// Value of a hexadecimal digit character, or `None` if it is not one.
pub(crate) fn hex_value_of_char(c: char) -> (v: Option<u8>)
    ensures
        v is Some <==> is_hex_digit(c),
        v is Some ==> v->0 == hex_digit_value(c) && v->0 < 16,
{
    if '0' <= c && c <= '9' {
        Some((c as u8) - ('0' as u8))
    } else if 'a' <= c && c <= 'f' {
        Some((c as u8) - ('a' as u8) + 10)
    } else if 'A' <= c && c <= 'F' {
        Some((c as u8) - ('A' as u8) + 10)
    } else {
        None
    }
}

/// A hex digit written by `hex_char` reads back as the value it was written
/// from.
proof fn lemma_hex_char_value(v: int)
    requires
        0 <= v < 16,
    ensures
        is_hex_digit(hex_char(v)),
        hex_digit_value(hex_char(v)) == v,
{
}

/// Law: rendering a quantized color as hex and parsing it back returns the
/// same quantized color, for every 8-bit (r, g, b).
pub proof fn lemma_hex_round_trip(c: Color)
    ensures
        spec_from_hex(spec_to_hex(c)) == Some(c),
{
    let s = spec_to_hex(c);
    assert(s.len() == 7);
    assert(s[0] == '#');
    let t = s.skip(1);
    assert(t.len() == 6);
    assert(t[0] == hex_char(c.r as int / 16));
    assert(t[1] == hex_char(c.r as int % 16));
    assert(t[2] == hex_char(c.g as int / 16));
    assert(t[3] == hex_char(c.g as int % 16));
    assert(t[4] == hex_char(c.b as int / 16));
    assert(t[5] == hex_char(c.b as int % 16));
    lemma_hex_char_value(c.r as int / 16);
    lemma_hex_char_value(c.r as int % 16);
    lemma_hex_char_value(c.g as int / 16);
    lemma_hex_char_value(c.g as int % 16);
    lemma_hex_char_value(c.b as int / 16);
    lemma_hex_char_value(c.b as int % 16);
    assert(hex_digit_value(t[0]) * 16 + hex_digit_value(t[1]) == c.r as int);
    assert(hex_digit_value(t[2]) * 16 + hex_digit_value(t[3]) == c.g as int);
    assert(hex_digit_value(t[4]) * 16 + hex_digit_value(t[5]) == c.b as int);
}


/// A value clamped to the unit range in thousandths.
pub open spec fn clamp_milli(v: int) -> int {
    if v < 0 {
        0
    } else if v > 1000 {
        1000
    } else {
        v
    }
}

/// An 8-bit channel from a unit-range value in thousandths: scale by 255,
/// clamp, truncate.
pub open spec fn quantize_milli(v: int) -> u8 {
    ((clamp_milli(v) * 255) / 1000) as u8
}

/// The standard sector-based HSL-to-RGB conversion, carried out in
/// thousandths: hue in thousandths of a degree wrapped modulo 360 degrees,
/// saturation and lightness in thousandths clamped to the unit range, and
/// each resulting channel quantized to 8 bits.
pub open spec fn spec_from_hsl(h: int, s: int, l: int) -> Color {
    let hw = h % 360000;
    let sc = clamp_milli(s);
    let lc = clamp_milli(l);
    let spread = if 2 * lc - 1000 < 0 {
        1000 - 2 * lc
    } else {
        2 * lc - 1000
    };
    let c = ((1000 - spread) * sc) / 1000;
    let t = hw % 120000;
    let toff = if t - 60000 < 0 {
        60000 - t
    } else {
        t - 60000
    };
    let x = (c * (60000 - toff)) / 60000;
    let m = lc - c / 2;
    let sector = hw / 60000;
    let rgb = if sector == 0 {
        (c, x, 0int)
    } else if sector == 1 {
        (x, c, 0int)
    } else if sector == 2 {
        (0int, c, x)
    } else if sector == 3 {
        (0int, x, c)
    } else if sector == 4 {
        (x, 0int, c)
    } else {
        (c, 0int, x)
    };
    Color {
        r: quantize_milli(rgb.0 + m),
        g: quantize_milli(rgb.1 + m),
        b: quantize_milli(rgb.2 + m),
    }
}

/// Law: full-saturation, half-lightness hues of 0, 120 and 240 degrees give
/// pure red, green and blue.
pub proof fn lemma_hsl_primaries()
    ensures
        spec_from_hsl(0, 1000, 500) == (Color { r: 255, g: 0, b: 0 }),
        spec_from_hsl(120000, 1000, 500) == (Color { r: 0, g: 255, b: 0 }),
        spec_from_hsl(240000, 1000, 500) == (Color { r: 0, g: 0, b: 255 }),
{
    lemma_hsl_primary(0, 0);
    lemma_hsl_primary(120000, 2);
    lemma_hsl_primary(240000, 4);
}

/// At full saturation and half lightness, an exact sector-start hue gives
/// chroma one and second component zero.
proof fn lemma_hsl_primary(h: int, sector: int)
    requires
        h == sector * 60000,
        0 <= sector <= 5,
        h % 120000 == 0,
    ensures
        ({
            let hw = h % 360000;
            let sc = clamp_milli(1000);
            let lc = clamp_milli(500);
            let spread = if 2 * lc - 1000 < 0 {
                1000 - 2 * lc
            } else {
                2 * lc - 1000
            };
            let c = ((1000 - spread) * sc) / 1000;
            let t = hw % 120000;
            let toff = if t - 60000 < 0 {
                60000 - t
            } else {
                t - 60000
            };
            let x = (c * (60000 - toff)) / 60000;
            let m = lc - c / 2;
            c == 1000 && x == 0 && m == 0 && hw == h && hw / 60000 == sector
        }),
        spec_from_hsl(h, 1000, 500) == (Color {
            r: quantize_milli(if sector == 0 || sector == 5 { 1000int } else { 0int }),
            g: quantize_milli(if sector == 1 || sector == 2 { 1000int } else { 0int }),
            b: quantize_milli(if sector == 3 || sector == 4 { 1000int } else { 0int }),
        }),
{
    let hw = h % 360000;
    assert(0 <= h < 360000);
    assert(hw == h);
    let sc = clamp_milli(1000);
    let lc = clamp_milli(500);
    let spread = if 2 * lc - 1000 < 0 {
        1000 - 2 * lc
    } else {
        2 * lc - 1000
    };
    assert(spread == 0);
    let c = ((1000 - spread) * sc) / 1000;
    assert((1000 - spread) * sc == 1000000) by (nonlinear_arith)
        requires
            spread == 0,
            sc == 1000,
    ;
    assert(c == 1000);
    let t = hw % 120000;
    assert(t == 0);
    let toff = if t - 60000 < 0 {
        60000 - t
    } else {
        t - 60000
    };
    assert(toff == 60000);
    let x = (c * (60000 - toff)) / 60000;
    assert(c * (60000 - toff) == 0) by (nonlinear_arith)
        requires
            60000 - toff == 0,
    ;
    assert(x == 0);
    let m = lc - c / 2;
    assert(m == 0);
    assert(hw / 60000 == sector) by (nonlinear_arith)
        requires
            hw == sector * 60000,
            0 <= sector <= 5,
    ;
}

impl Color {
    /// Builds a color from hue, saturation and lightness, given in
    /// thousandths (hue in thousandths of a degree, wrapped modulo 360
    /// degrees; saturation and lightness clamped to the unit range).
    pub fn from_hsl(h: i64, s: i64, l: i64) -> (c: Color)
        ensures
            c == spec_from_hsl(h as int, s as int, l as int),
    {
        let hm: i64 = h % 360000;
        let hw: i64 = if hm < 0 {
            hm + 360000
        } else {
            hm
        };
        proof {
            assert(hw == (h as int) % 360000);
        }
        let sc: i64 = if s < 0 {
            0
        } else if s > 1000 {
            1000
        } else {
            s
        };
        let lc: i64 = if l < 0 {
            0
        } else if l > 1000 {
            1000
        } else {
            l
        };
        let spread: i64 = if 2 * lc - 1000 < 0 {
            1000 - 2 * lc
        } else {
            2 * lc - 1000
        };
        proof {
            assert((1000 - spread) * sc <= 1000000 && (1000 - spread) * sc >= 0)
                by (nonlinear_arith)
                requires
                    0 <= 1000 - spread <= 1000,
                    0 <= sc <= 1000,
            ;
        }
        let c: i64 = ((1000 - spread) * sc) / 1000;
        let t: i64 = hw % 120000;
        let toff: i64 = if t - 60000 < 0 {
            60000 - t
        } else {
            t - 60000
        };
        proof {
            assert(c * (60000 - toff) <= 60000000 && c * (60000 - toff) >= 0)
                by (nonlinear_arith)
                requires
                    0 <= c <= 1000,
                    0 <= 60000 - toff <= 60000,
            ;
        }
        let x: i64 = (c * (60000 - toff)) / 60000;
        let m: i64 = lc - c / 2;
        let sector: i64 = hw / 60000;
        let (cr, cg, cb): (i64, i64, i64) = if sector == 0 {
            (c, x, 0)
        } else if sector == 1 {
            (x, c, 0)
        } else if sector == 2 {
            (0, c, x)
        } else if sector == 3 {
            (0, x, c)
        } else if sector == 4 {
            (x, 0, c)
        } else {
            (c, 0, x)
        };
        Color {
            r: quantize_milli_exec(cr + m),
            g: quantize_milli_exec(cg + m),
            b: quantize_milli_exec(cb + m),
        }
    }
}

/// An 8-bit channel from a unit-range value in thousandths.
fn quantize_milli_exec(v: i64) -> (q: u8)
    requires
        -3000 <= v <= 3000,
    ensures
        q == quantize_milli(v as int),
{
    let w: i64 = if v < 0 {
        0
    } else if v > 1000 {
        1000
    } else {
        v
    };
    ((w * 255) / 1000) as u8
}

} // verus!
