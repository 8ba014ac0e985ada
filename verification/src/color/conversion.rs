//! Conversions between color models, and other ways to make a color from
//! another.
//!
//! All arithmetic is in whole millionths. A product of two levels is divided
//! by [`ONE`] and rounded down, as every quotient is.

use vstd::prelude::*;
use vstd::string::StrSliceExecFns;
use crate::color::{
    channel_of, clamp_level, is_level, level_of, to_level, Color, ColorMode, Scalar, ONE,
};
use crate::error::{PixError, PixResult};

verus! {

/// Four values of a color: three of its model, and alpha.
pub type Levels = (int, int, int, int);

/// Whether `out` holds the four values `levels`.
pub open spec fn holds(out: [Scalar; 4], levels: Levels) -> bool {
    &&& out[0] == levels.0
    &&& out[1] == levels.1
    &&& out[2] == levels.2
    &&& out[3] == levels.3
}

/// The four values of `levels`, each limited to the levels from zero to one.
pub open spec fn leveled(levels: [Scalar; 4]) -> Levels {
    (
        to_level(levels[0] as int),
        to_level(levels[1] as int),
        to_level(levels[2] as int),
        to_level(levels[3] as int),
    )
}

/// The product of two numbers in millionths.
pub open spec fn scale(a: int, b: int) -> int {
    a * b / (ONE as int)
}

/// The largest of three.
pub open spec fn max3(a: int, b: int, c: int) -> int {
    if a >= b && a >= c {
        a
    } else if b >= c {
        b
    } else {
        c
    }
}

/// The smallest of three.
pub open spec fn min3(a: int, b: int, c: int) -> int {
    if a <= b && a <= c {
        a
    } else if b <= c {
        b
    } else {
        c
    }
}

/// The largest value of each of the four parts of a color in `mode`, in whole
/// units.
pub open spec fn spec_maxes(mode: ColorMode) -> Levels {
    match mode {
        ColorMode::Rgb => (255, 255, 255, 255),
        ColorMode::Hsb => (360, 100, 100, 1),
        ColorMode::Hsl => (360, 100, 100, 1),
    }
}

/// The hue of a color that is not gray, as a level: a sixth for each step
/// from red over yellow, green, cyan and blue to magenta.
pub open spec fn hue_of(r: int, g: int, b: int) -> int {
    let hi = max3(r, g, b);
    let chroma = hi - min3(r, g, b);
    let raw = if r == hi {
        ((g - b) * ONE + 6 * ONE * chroma) / chroma
    } else if g == hi {
        ((b - r) * ONE + 2 * ONE * chroma) / chroma
    } else {
        ((r - g) * ONE + 4 * ONE * chroma) / chroma
    };
    (if raw >= 6 * ONE {
        raw - 6 * ONE
    } else {
        raw
    }) / 6
}

/// Hue, saturation and brightness of red, green and blue levels.
pub open spec fn spec_rgb_to_hsb(rgb: Levels) -> Levels {
    let (r, g, b, a) = rgb;
    let hi = max3(r, g, b);
    let chroma = hi - min3(r, g, b);
    if chroma == 0 {
        (0, 0, hi, a)
    } else {
        (hue_of(r, g, b), chroma * ONE / hi, hi, a)
    }
}

/// Hue, saturation and lightness of red, green and blue levels.
pub open spec fn spec_rgb_to_hsl(rgb: Levels) -> Levels {
    let (r, g, b, a) = rgb;
    let hi = max3(r, g, b);
    let chroma = hi - min3(r, g, b);
    let sum = hi + min3(r, g, b);
    if chroma == 0 {
        (0, 0, sum / 2, a)
    } else {
        (
            hue_of(r, g, b),
            if sum < ONE {
                chroma * ONE / sum
            } else {
                chroma * ONE / (2 * ONE - sum)
            },
            sum / 2,
            a,
        )
    }
}

/// Red, green and blue levels of hue, saturation and brightness.
pub open spec fn spec_hsb_to_rgb(hsb: Levels) -> Levels {
    let (h, s, b, a) = hsb;
    if b == 0 {
        (0, 0, 0, a)
    } else if s == 0 {
        (b, b, b, a)
    } else {
        let sector = h * 6 / (ONE as int);
        let part = h * 6 - sector * ONE;
        let tint1 = scale(b, ONE - s);
        let tint2 = scale(b, ONE - scale(s, part));
        let tint3 = scale(b, ONE - scale(s, ONE - part));
        if sector == 1 {
            (tint2, b, tint1, a)
        } else if sector == 2 {
            (tint1, b, tint3, a)
        } else if sector == 3 {
            (tint1, tint2, b, a)
        } else if sector == 4 {
            (tint3, tint1, b, a)
        } else if sector == 5 {
            (b, tint1, tint2, a)
        } else {
            (b, tint3, tint1, a)
        }
    }
}

/// The brightness that belongs to a saturation and a lightness.
pub open spec fn brightness_of(s: int, l: int) -> int {
    if l < ONE / 2 {
        scale(ONE + s, l)
    } else {
        l + s - scale(l, s)
    }
}

/// One of red, green and blue for a hue `h`, given in sixths and moved to
/// where that color has its peak, between the least level `z` and the
/// greatest `b`.
pub open spec fn hsl_part(h: int, z: int, b: int) -> int {
    let h = if h < 0 {
        h + 6 * ONE
    } else if h >= 6 * ONE {
        h - 6 * ONE
    } else {
        h
    };
    let span = if b > z {
        b - z
    } else {
        0
    };
    if h < ONE {
        z + scale(span, h)
    } else if h < 3 * ONE {
        b
    } else if h < 4 * ONE {
        z + scale(span, 4 * ONE - h)
    } else {
        z
    }
}

/// Red, green and blue levels of hue, saturation and lightness.
pub open spec fn spec_hsl_to_rgb(hsl: Levels) -> Levels {
    let (h, s, l, a) = hsl;
    if s == 0 {
        (l, l, l, a)
    } else {
        let b = brightness_of(s, l);
        let z = 2 * l - b;
        (hsl_part(h * 6 + 2 * ONE, z, b), hsl_part(h * 6, z, b), hsl_part(h * 6 - 2 * ONE, z, b), a)
    }
}

/// Hue, saturation and brightness of hue, saturation and lightness. Black has
/// no saturation.
pub open spec fn spec_hsl_to_hsb(hsl: Levels) -> Levels {
    let (h, s, l, a) = hsl;
    let b = brightness_of(s, l);
    let over = if b > l {
        b - l
    } else {
        0
    };
    (
        h,
        if b <= 0 {
            0
        } else {
            2 * over * ONE / b
        },
        b,
        a,
    )
}

/// Hue, saturation and lightness of hue, saturation and brightness. White has
/// no saturation; in the darker half the saturation comes out as minus half of
/// what it was.
pub open spec fn spec_hsb_to_hsl(hsb: Levels) -> Levels {
    let (h, s, b, a) = hsb;
    let l = scale(2 * ONE - s, b) / 2;
    (
        h,
        if l == ONE {
            0
        } else if l < ONE / 2 {
            -(s / 2)
        } else {
            scale(s, b) * ONE / (2 * ONE - 2 * l)
        },
        l,
        a,
    )
}

/// The levels `levels` of the model `from`, in the model `to`.
pub open spec fn spec_convert_levels(levels: Levels, from: ColorMode, to: ColorMode) -> Levels {
    match (from, to) {
        (ColorMode::Hsb, ColorMode::Rgb) => spec_hsb_to_rgb(levels),
        (ColorMode::Hsl, ColorMode::Rgb) => spec_hsl_to_rgb(levels),
        (ColorMode::Rgb, ColorMode::Hsb) => spec_rgb_to_hsb(levels),
        (ColorMode::Rgb, ColorMode::Hsl) => spec_rgb_to_hsl(levels),
        (ColorMode::Hsb, ColorMode::Hsl) => spec_hsb_to_hsl(levels),
        (ColorMode::Hsl, ColorMode::Hsb) => spec_hsl_to_hsb(levels),
        _ => levels,
    }
}

/// The level of the value `v`, given in millionths of the units of which `max`
/// is the largest.
pub open spec fn level_in(v: int, max: int) -> int {
    to_level(
        if v < 0 {
            0
        } else {
            v / max
        },
    )
}

/// The color that four values of the model `mode` stand for. The values are
/// in millionths of the units of the model. Each is first made a level, then
/// the levels are converted to red, green and blue.
pub open spec fn color_of(mode: ColorMode, v1: int, v2: int, v3: int, alpha: int) -> Color {
    let max = spec_maxes(mode);
    let rgb = spec_convert_levels(
        (level_in(v1, max.0), level_in(v2, max.1), level_in(v3, max.2), level_in(alpha, max.3)),
        mode,
        ColorMode::Rgb,
    );
    Color::of(mode, to_level(rgb.0), to_level(rgb.1), to_level(rgb.2), to_level(rgb.3))
}

/// The color that one to four values of the model `mode` stand for: a gray,
/// a gray and alpha, three values, or three values and alpha. No values, or
/// more than four, stand for nothing.
pub open spec fn spec_from_slice(mode: ColorMode, values: Seq<Scalar>) -> Option<Color> {
    let opaque = spec_maxes(mode).3 * ONE;
    if values.len() == 1 {
        Some(color_of(mode, values[0] as int, values[0] as int, values[0] as int, opaque))
    } else if values.len() == 2 {
        Some(color_of(mode, values[0] as int, values[0] as int, values[0] as int, values[1] as int))
    } else if values.len() == 3 {
        Some(color_of(mode, values[0] as int, values[1] as int, values[2] as int, opaque))
    } else if values.len() == 4 {
        Some(
            color_of(mode, values[0] as int, values[1] as int, values[2] as int, values[3] as int),
        )
    } else {
        None
    }
}

/// The level between `start` and `stop` at the share `amt` of the way.
pub open spec fn lerp_level(start: int, stop: int, amt: int) -> int {
    if stop >= start {
        start + scale(amt, stop - start)
    } else {
        start - scale(amt, start - stop)
    }
}

/// Whether `c` is white space: a space, a tab, a line or paragraph break, or
/// one of the other spaces of Unicode.
pub open spec fn is_space(c: char) -> bool {
    let n = c as u32;
    ||| 0x09 <= n <= 0x0d
    ||| n == 0x20
    ||| n == 0x85
    ||| n == 0xa0
    ||| n == 0x1680
    ||| 0x2000 <= n <= 0x200a
    ||| n == 0x2028
    ||| n == 0x2029
    ||| n == 0x202f
    ||| n == 0x205f
    ||| n == 0x3000
}

/// `s` without the white space at its end.
pub open spec fn trimmed_end(s: Seq<char>) -> Seq<char>
    decreases s.len(),
{
    if s.len() > 0 && is_space(s.last()) {
        trimmed_end(s.drop_last())
    } else {
        s
    }
}

/// The color that a string stands for in hexadecimal notation, white space at
/// its end passed over; nothing if what is left is no such color.
pub open spec fn hex_color(s: Seq<char>) -> Option<Color> {
    let body = trimmed_end(s);
    if is_hex_color(body) {
        Some(
            Color::spec_rgba(
                hex_channel(body, 0),
                hex_channel(body, 1),
                hex_channel(body, 2),
                hex_channel(body, 3),
            ),
        )
    } else {
        None
    }
}

/// The value of a hexadecimal digit; nothing for any other character.
pub open spec fn hex_digit(c: char) -> Option<u8> {
    if '0' <= c <= '9' {
        Some((c as u8 - '0' as u8) as u8)
    } else if 'a' <= c <= 'f' {
        Some((c as u8 - 'a' as u8 + 10) as u8)
    } else if 'A' <= c <= 'F' {
        Some((c as u8 - 'A' as u8 + 10) as u8)
    } else {
        None
    }
}

/// Whether `s` is a color in hexadecimal notation: a `#` and after it three,
/// four, six or eight hexadecimal digits.
pub open spec fn is_hex_color(s: Seq<char>) -> bool {
    &&& s.len() == 4 || s.len() == 5 || s.len() == 7 || s.len() == 9
    &&& s[0] == '#'
    &&& forall|i: int| 1 <= i < s.len() ==> hex_digit(#[trigger] s[i]) is Some
}

/// The channel `i` of a color in hexadecimal notation. In the short forms one
/// digit stands for the channel and is taken twice; in the long forms two
/// digits do. A color without digits for alpha is opaque.
pub open spec fn hex_channel(s: Seq<char>, i: int) -> u8 {
    if s.len() <= 5 {
        if 1 + i < s.len() {
            (hex_digit(s[1 + i])->0 * 17) as u8
        } else {
            255
        }
    } else {
        if 2 + 2 * i < s.len() {
            (hex_digit(s[1 + 2 * i])->0 * 16 + hex_digit(s[2 + 2 * i])->0) as u8
        } else {
            255
        }
    }
}

/// The product of two numbers in millionths.
fn scaled(a: i64, b: i64) -> (r: i64)
    requires
        0 <= a <= 8 * ONE,
        0 <= b <= 8 * ONE,
    ensures
        r == scale(a as int, b as int),
        0 <= r <= 64 * ONE,
        b <= ONE ==> r <= a,
        a <= ONE ==> r <= b,
{
    assert(0 <= a * b <= 64 * ONE * ONE) by (nonlinear_arith)
        requires
            0 <= a <= 8 * ONE,
            0 <= b <= 8 * ONE,
    ;
    assert(b <= ONE ==> a * b / (ONE as int) <= a) by (nonlinear_arith)
        requires
            0 <= a,
            0 <= b,
    ;
    assert(a <= ONE ==> a * b / (ONE as int) <= b) by (nonlinear_arith)
        requires
            0 <= a,
            0 <= b,
    ;
    a * b / ONE
}

/// The share that `part` has of `whole`, as a level.
fn share(part: i64, whole: i64) -> (level: i64)
    requires
        0 <= part <= whole <= 2 * ONE,
        0 < whole,
    ensures
        level == part * ONE / (whole as int),
        is_level(level as int),
{
    assert(0 <= part * ONE / (whole as int) <= ONE) by (nonlinear_arith)
        requires
            0 <= part <= whole,
            0 < whole,
    ;
    part * ONE / whole
}

/// The largest value of each of the four parts of a color in `mode`, in whole
/// units.
pub fn maxes(mode: ColorMode) -> (max: [Scalar; 4])
    ensures
        holds(max, spec_maxes(mode)),
{
    match mode {
        ColorMode::Rgb => [255, 255, 255, 255],
        ColorMode::Hsb => [360, 100, 100, 1],
        ColorMode::Hsl => [360, 100, 100, 1],
    }
}

/// Limits each of four values to the levels from zero to one.
pub fn clamp_levels(levels: [Scalar; 4]) -> (out: [Scalar; 4])
    ensures
        holds(out, leveled(levels)),
{
    [
        clamp_level(levels[0]),
        clamp_level(levels[1]),
        clamp_level(levels[2]),
        clamp_level(levels[3]),
    ]
}

/// The hue of a color that is not gray.
fn hue(r: i64, g: i64, b: i64) -> (h: i64)
    requires
        is_level(r as int),
        is_level(g as int),
        is_level(b as int),
        max3(r as int, g as int, b as int) > min3(r as int, g as int, b as int),
    ensures
        h == hue_of(r as int, g as int, b as int),
        0 <= h <= ONE,
{
    let hi = if r >= g && r >= b {
        r
    } else if g >= b {
        g
    } else {
        b
    };
    let lo = if r <= g && r <= b {
        r
    } else if g <= b {
        g
    } else {
        b
    };
    let chroma = hi - lo;
    assert(0 < chroma <= 1_000_000 && ONE == 1_000_000);
    let top = if r == hi {
        (g - b) * 1_000_000 + 6_000_000 * chroma
    } else if g == hi {
        (b - r) * 1_000_000 + 2_000_000 * chroma
    } else {
        (r - g) * 1_000_000 + 4_000_000 * chroma
    };
    assert(ONE * chroma <= top <= 7 * ONE * chroma);
    assert(ONE <= top / chroma <= 7 * ONE) by (nonlinear_arith)
        requires
            ONE * chroma <= top <= 7 * ONE * chroma,
            chroma > 0,
    ;
    let raw = top / chroma;
    let turned = if raw >= 6 * ONE {
        raw - 6 * ONE
    } else {
        raw
    };
    turned / 6
}

/// Converts red, green and blue to hue, saturation and brightness. The values
/// are first limited to levels.
pub fn rgb_to_hsb(levels: [Scalar; 4]) -> (out: [Scalar; 4])
    ensures
        holds(out, spec_rgb_to_hsb(leveled(levels))),
        is_level(out[0] as int),
        is_level(out[1] as int),
        is_level(out[2] as int),
        is_level(out[3] as int),
{
    let r = clamp_level(levels[0]);
    let g = clamp_level(levels[1]);
    let b = clamp_level(levels[2]);
    let a = clamp_level(levels[3]);
    let hi = if r >= g && r >= b {
        r
    } else if g >= b {
        g
    } else {
        b
    };
    let lo = if r <= g && r <= b {
        r
    } else if g <= b {
        g
    } else {
        b
    };
    let chroma = hi - lo;
    if chroma == 0 {
        [0, 0, hi, a]
    } else {
        [hue(r, g, b), share(chroma, hi), hi, a]
    }
}

/// Converts red, green and blue to hue, saturation and lightness. The values
/// are first limited to levels.
pub fn rgb_to_hsl(levels: [Scalar; 4]) -> (out: [Scalar; 4])
    ensures
        holds(out, spec_rgb_to_hsl(leveled(levels))),
        is_level(out[0] as int),
        is_level(out[1] as int),
        is_level(out[2] as int),
        is_level(out[3] as int),
{
    let r = clamp_level(levels[0]);
    let g = clamp_level(levels[1]);
    let b = clamp_level(levels[2]);
    let a = clamp_level(levels[3]);
    let hi = if r >= g && r >= b {
        r
    } else if g >= b {
        g
    } else {
        b
    };
    let lo = if r <= g && r <= b {
        r
    } else if g <= b {
        g
    } else {
        b
    };
    let chroma = hi - lo;
    let sum = hi + lo;
    if chroma == 0 {
        [0, 0, sum / 2, a]
    } else {
        let s = if sum < ONE {
            share(chroma, sum)
        } else {
            share(chroma, 2 * ONE - sum)
        };
        [hue(r, g, b), s, sum / 2, a]
    }
}

/// Converts hue, saturation and brightness to red, green and blue. The values
/// are first limited to levels.
pub fn hsb_to_rgb(levels: [Scalar; 4]) -> (out: [Scalar; 4])
    ensures
        holds(out, spec_hsb_to_rgb(leveled(levels))),
        is_level(out[0] as int),
        is_level(out[1] as int),
        is_level(out[2] as int),
        is_level(out[3] as int),
{
    let h = clamp_level(levels[0]);
    let s = clamp_level(levels[1]);
    let b = clamp_level(levels[2]);
    let a = clamp_level(levels[3]);
    if b == 0 {
        [0, 0, 0, a]
    } else if s == 0 {
        [b, b, b, a]
    } else {
        let sector = h * 6 / ONE;
        let part = h * 6 - sector * ONE;
        let tint1 = scaled(b, ONE - s);
        let tint2 = scaled(b, ONE - scaled(s, part));
        let tint3 = scaled(b, ONE - scaled(s, ONE - part));
        if sector == 1 {
            [tint2, b, tint1, a]
        } else if sector == 2 {
            [tint1, b, tint3, a]
        } else if sector == 3 {
            [tint1, tint2, b, a]
        } else if sector == 4 {
            [tint3, tint1, b, a]
        } else if sector == 5 {
            [b, tint1, tint2, a]
        } else {
            [b, tint3, tint1, a]
        }
    }
}

/// The brightness that belongs to a saturation and a lightness.
fn brightness(s: i64, l: i64) -> (b: i64)
    requires
        is_level(s as int),
        is_level(l as int),
    ensures
        b == brightness_of(s as int, l as int),
        l <= b <= ONE,
        b <= 2 * l,
{
    if l < ONE / 2 {
        assert(l <= (ONE + s) * l / (ONE as int) <= 2 * l) by (nonlinear_arith)
            requires
                0 <= s <= ONE,
                0 <= l,
        ;
        scaled(ONE + s, l)
    } else {
        let both = scaled(l, s);
        assert(l * s / (ONE as int) >= l + s - ONE) by (nonlinear_arith)
            requires
                0 <= s <= ONE,
                0 <= l <= ONE,
        ;
        l + s - both
    }
}

/// One of red, green and blue for a hue given in sixths.
fn part_of(h: i64, z: i64, b: i64) -> (v: i64)
    requires
        -2 * ONE <= h <= 8 * ONE,
        -2 * ONE <= z <= 2 * ONE,
        0 <= b <= 2 * ONE,
    ensures
        v == hsl_part(h as int, z as int, b as int),
        0 <= z <= b <= ONE ==> z <= v <= b,
{
    let h = if h < 0 {
        h + 6 * ONE
    } else if h >= 6 * ONE {
        h - 6 * ONE
    } else {
        h
    };
    let span = if b > z {
        b - z
    } else {
        0
    };
    if h < ONE {
        z + scaled(span, h)
    } else if h < 3 * ONE {
        b
    } else if h < 4 * ONE {
        z + scaled(span, 4 * ONE - h)
    } else {
        z
    }
}

/// Converts hue, saturation and lightness to red, green and blue. The values
/// are first limited to levels.
pub fn hsl_to_rgb(levels: [Scalar; 4]) -> (out: [Scalar; 4])
    ensures
        holds(out, spec_hsl_to_rgb(leveled(levels))),
        is_level(out[0] as int),
        is_level(out[1] as int),
        is_level(out[2] as int),
        is_level(out[3] as int),
{
    let h = clamp_level(levels[0]);
    let s = clamp_level(levels[1]);
    let l = clamp_level(levels[2]);
    let a = clamp_level(levels[3]);
    if s == 0 {
        [l, l, l, a]
    } else {
        let b = brightness(s, l);
        let z = 2 * l - b;
        [part_of(h * 6 + 2 * ONE, z, b), part_of(h * 6, z, b), part_of(h * 6 - 2 * ONE, z, b), a]
    }
}

/// Converts hue, saturation and lightness to hue, saturation and brightness.
/// The values are first limited to levels.
pub fn hsl_to_hsb(levels: [Scalar; 4]) -> (out: [Scalar; 4])
    ensures
        holds(out, spec_hsl_to_hsb(leveled(levels))),
        is_level(out[0] as int),
        is_level(out[1] as int),
        is_level(out[2] as int),
        is_level(out[3] as int),
{
    let h = clamp_level(levels[0]);
    let s = clamp_level(levels[1]);
    let l = clamp_level(levels[2]);
    let a = clamp_level(levels[3]);
    let b = brightness(s, l);
    let over = if b > l {
        b - l
    } else {
        0
    };
    let s = if b <= 0 {
        0
    } else {
        share(2 * over, b)
    };
    [h, s, b, a]
}

/// Converts hue, saturation and brightness to hue, saturation and lightness.
/// The values are first limited to levels.
pub fn hsb_to_hsl(levels: [Scalar; 4]) -> (out: [Scalar; 4])
    ensures
        holds(out, spec_hsb_to_hsl(leveled(levels))),
{
    let h = clamp_level(levels[0]);
    let s = clamp_level(levels[1]);
    let b = clamp_level(levels[2]);
    let a = clamp_level(levels[3]);
    let l = scaled(2 * ONE - s, b) / 2;
    let s = if l == ONE {
        0
    } else if l < ONE / 2 {
        -(s / 2)
    } else {
        scaled(s, b) * ONE / (2 * ONE - 2 * l)
    };
    [h, s, l, a]
}

/// Converts levels of the model `from` to the model `to`. The values are
/// first limited to levels; between a model and itself nothing else is done.
pub fn convert_levels(levels: [Scalar; 4], from: ColorMode, to: ColorMode) -> (out: [Scalar; 4])
    ensures
        holds(out, spec_convert_levels(leveled(levels), from, to)),
{
    match (from, to) {
        (ColorMode::Hsb, ColorMode::Rgb) => hsb_to_rgb(levels),
        (ColorMode::Hsl, ColorMode::Rgb) => hsl_to_rgb(levels),
        (ColorMode::Rgb, ColorMode::Hsb) => rgb_to_hsb(levels),
        (ColorMode::Rgb, ColorMode::Hsl) => rgb_to_hsl(levels),
        (ColorMode::Hsb, ColorMode::Hsl) => hsb_to_hsl(levels),
        (ColorMode::Hsl, ColorMode::Hsb) => hsl_to_hsb(levels),
        _ => clamp_levels(levels),
    }
}

/// The 8-bit channels nearest to four levels, each of which is first limited
/// to the levels from zero to one.
pub fn calculate_channels(levels: [Scalar; 4]) -> (channels: [u8; 4])
    ensures
        channels[0] == channel_of(to_level(levels[0] as int)),
        channels[1] == channel_of(to_level(levels[1] as int)),
        channels[2] == channel_of(to_level(levels[2] as int)),
        channels[3] == channel_of(to_level(levels[3] as int)),
{
    Color::from_levels(ColorMode::Rgb, levels[0], levels[1], levels[2], levels[3]).channels()
}

/// The level of the value `v`, given in millionths of the units of which `max`
/// is the largest.
fn level_from(v: Scalar, max: Scalar) -> (level: Scalar)
    requires
        max > 0,
    ensures
        level == level_in(v as int, max as int),
{
    if v < 0 {
        0
    } else {
        clamp_level(v / max)
    }
}

impl Color {
    /// Rounds the channels from the levels again: each channel is the 8-bit
    /// value nearest to its level. Mode and levels stay as they are. The
    /// channels of a color follow its levels at all times, so that the color
    /// is the same afterwards.
    pub fn calculate_channels(&mut self)
        ensures
            final(self).spec_mode() == old(self).spec_mode(),
            final(self).spec_levels() == old(self).spec_levels(),
            final(self).spec_channels() == (
                channel_of(old(self).spec_levels().0) as u8,
                channel_of(old(self).spec_levels().1) as u8,
                channel_of(old(self).spec_levels().2) as u8,
                channel_of(old(self).spec_levels().3) as u8,
            ),
            *final(self) == *old(self),
    {
        let levels = self.levels();
        proof {
            Color::lemma_of(
                self.spec_mode(),
                levels[0] as int,
                levels[1] as int,
                levels[2] as int,
                levels[3] as int,
            );
        }
        *self = Color::from_levels(self.mode(), levels[0], levels[1], levels[2], levels[3]);
    }

    /// An opaque color from three values of the model `mode`, in millionths of
    /// the units of the model.
    pub fn with_mode(mode: ColorMode, v1: Scalar, v2: Scalar, v3: Scalar) -> (c: Self)
        ensures
            c == color_of(mode, v1 as int, v2 as int, v3 as int, spec_maxes(mode).3 * ONE),
    {
        let alpha = maxes(mode)[3] * ONE;
        Color::with_mode_alpha(mode, v1, v2, v3, alpha)
    }

    /// A color from three values of the model `mode` and alpha, in millionths
    /// of the units of the model. Values outside of the range of the model
    /// count as the nearest inside.
    pub fn with_mode_alpha(mode: ColorMode, v1: Scalar, v2: Scalar, v3: Scalar, alpha: Scalar) -> (c:
        Self)
        ensures
            c == color_of(mode, v1 as int, v2 as int, v3 as int, alpha as int),
    {
        let max = maxes(mode);
        let levels = [
            level_from(v1, max[0]),
            level_from(v2, max[1]),
            level_from(v3, max[2]),
            level_from(alpha, max[3]),
        ];
        let rgb = convert_levels(levels, mode, ColorMode::Rgb);
        Color::from_levels(mode, rgb[0], rgb[1], rgb[2], rgb[3])
    }

    /// An opaque color from hue in degrees, saturation and brightness in
    /// percent, all in millionths.
    pub fn hsb(h: Scalar, s: Scalar, b: Scalar) -> (c: Self)
        ensures
            c == color_of(ColorMode::Hsb, h as int, s as int, b as int, ONE as int),
    {
        Color::with_mode(ColorMode::Hsb, h, s, b)
    }

    /// An opaque color from hue in degrees, saturation and lightness in
    /// percent, all in millionths.
    pub fn hsl(h: Scalar, s: Scalar, l: Scalar) -> (c: Self)
        ensures
            c == color_of(ColorMode::Hsl, h as int, s as int, l as int, ONE as int),
    {
        Color::with_mode(ColorMode::Hsl, h, s, l)
    }

    /// A color from one to four values of the model `mode`, in millionths of
    /// the units of the model: a gray, a gray and alpha, three values, or
    /// three values and alpha. Fails with [`PixError::InvalidColorSlice`]
    /// exactly if there are no values or more than four.
    pub fn from_slice(mode: ColorMode, slice: &[Scalar]) -> (r: PixResult<Self>)
        ensures
            match spec_from_slice(mode, slice@) {
                Some(c) => r == Ok::<Color, PixError>(c),
                None => r matches Err(PixError::InvalidColorSlice),
            },
    {
        let n = slice.len();
        if n == 1 {
            Ok(Color::with_mode(mode, slice[0], slice[0], slice[0]))
        } else if n == 2 {
            Ok(Color::with_mode_alpha(mode, slice[0], slice[0], slice[0], slice[1]))
        } else if n == 3 {
            Ok(Color::with_mode(mode, slice[0], slice[1], slice[2]))
        } else if n == 4 {
            Ok(Color::with_mode_alpha(mode, slice[0], slice[1], slice[2], slice[3]))
        } else {
            Err(PixError::InvalidColorSlice)
        }
    }

    /// The color `0xRRGGBBAA`.
    pub fn from_hex(hex: u32) -> (c: Self)
        ensures
            c == Color::spec_rgba(
                (hex / 0x100_0000) as u8,
                (hex / 0x1_0000 % 0x100) as u8,
                (hex / 0x100 % 0x100) as u8,
                (hex % 0x100) as u8,
            ),
            c.spec_channels() == (
                (hex / 0x100_0000) as u8,
                (hex / 0x1_0000 % 0x100) as u8,
                (hex / 0x100 % 0x100) as u8,
                (hex % 0x100) as u8,
            ),
    {
        Color::rgba(
            (hex / 0x100_0000) as u8,
            (hex / 0x1_0000 % 0x100) as u8,
            (hex / 0x100 % 0x100) as u8,
            (hex % 0x100) as u8,
        )
    }

    /// The channels as `0xRRGGBBAA`.
    pub fn as_hex(&self) -> (hex: u32)
        ensures
            hex == self.spec_channels().0 * 0x100_0000 + self.spec_channels().1 * 0x1_0000
                + self.spec_channels().2 * 0x100 + self.spec_channels().3,
    {
        let c = self.channels();
        c[0] as u32 * 0x100_0000 + c[1] as u32 * 0x1_0000 + c[2] as u32 * 0x100 + c[3] as u32
    }

    /// The color with each of red, green and blue turned into what it lacks of
    /// 255, and alpha as it is.
    pub fn inverted(&self) -> (c: Self)
        ensures
            c == Color::spec_rgba(
                (255 - self.spec_channels().0) as u8,
                (255 - self.spec_channels().1) as u8,
                (255 - self.spec_channels().2) as u8,
                self.spec_channels().3,
            ),
            c.spec_channels() == (
                (255 - self.spec_channels().0) as u8,
                (255 - self.spec_channels().1) as u8,
                (255 - self.spec_channels().2) as u8,
                self.spec_channels().3,
            ),
    {
        let c = self.channels();
        Color::rgba(255 - c[0], 255 - c[1], 255 - c[2], c[3])
    }

    /// The color at the share `amt` of the way from this color to `other`,
    /// level by level, alpha included. `amt` is in millionths; less than zero
    /// counts as zero, more than one as one. The result has the mode of this
    /// color.
    pub fn lerp(&self, other: Color, amt: Scalar) -> (c: Self)
        ensures
            ({
                let from = self.spec_levels();
                let to = other.spec_levels();
                let amt = to_level(amt as int);
                c == Color::of(
                    self.spec_mode(),
                    to_level(lerp_level(from.0, to.0, amt)),
                    to_level(lerp_level(from.1, to.1, amt)),
                    to_level(lerp_level(from.2, to.2, amt)),
                    to_level(lerp_level(from.3, to.3, amt)),
                )
            }),
            amt <= 0 ==> c == *self,
    {
        let amt = clamp_level(amt);
        let from = self.levels();
        let to = other.levels();
        let c = Color::from_levels(
            self.mode(),
            lerp_one(from[0], to[0], amt),
            lerp_one(from[1], to[1], amt),
            lerp_one(from[2], to[2], amt),
            lerp_one(from[3], to[3], amt),
        );
        c
    }

    /// Reads a color in hexadecimal notation: `#RGB`, `#RGBA`, `#RRGGBB` or
    /// `#RRGGBBAA`, with digits in either case. White space after the last
    /// digit is passed over. Fails with [`PixError::ParseColorError`] for
    /// every other string.
    pub fn from_str(string: &str) -> (r: PixResult<Self>)
        ensures
            ({
                let body = trimmed_end(string@);
                &&& is_hex_color(body) ==> {
                    &&& r matches Ok(c)
                    &&& c == Color::spec_rgba(
                        hex_channel(body, 0),
                        hex_channel(body, 1),
                        hex_channel(body, 2),
                        hex_channel(body, 3),
                    )
                    &&& c.spec_channels() == (
                        hex_channel(body, 0),
                        hex_channel(body, 1),
                        hex_channel(body, 2),
                        hex_channel(body, 3),
                    )
                }
                &&& !is_hex_color(body) ==> r matches Err(PixError::ParseColorError)
            }),
            match hex_color(string@) {
                Some(c) => r == Ok::<Color, PixError>(c),
                None => r matches Err(PixError::ParseColorError),
            },
    {
        let mut n = string.unicode_len();
        assert(string@.take(n as int) =~= string@);
        while n > 0 && is_white_space(string.get_char(n - 1))
            invariant
                0 <= n <= string@.len(),
                trimmed_end(string@) == trimmed_end(string@.take(n as int)),
            decreases n,
        {
            proof {
                let kept = string@.take(n as int);
                assert(kept.last() == string@[n - 1]);
                assert(kept.drop_last() =~= string@.take(n - 1));
            }
            n -= 1;
        }
        proof {
            let kept = string@.take(n as int);
            if n > 0 {
                assert(kept.last() == string@[n - 1]);
            }
            assert(trimmed_end(kept) == kept);
        }
        let ghost body = string@.take(n as int);
        if !(n == 4 || n == 5 || n == 7 || n == 9) {
            return Err(PixError::ParseColorError);
        }
        if string.get_char(0) != '#' {
            assert(body[0] == string@[0]);
            return Err(PixError::ParseColorError);
        }
        assert(body[0] == string@[0]);
        let mut digits: Vec<u8> = Vec::new();
        let mut i: usize = 1;
        while i < n
            invariant
                1 <= i <= n <= string@.len(),
                body == string@.take(n as int),
                body == trimmed_end(string@),
                digits@.len() == i - 1,
                forall|j: int| 1 <= j < i ==> hex_digit(#[trigger] body[j]) == Some(digits@[j - 1]),
                forall|j: int| 0 <= j < i - 1 ==> #[trigger] digits@[j] < 16,
            decreases n - i,
        {
            assert(body[i as int] == string@[i as int]);
            match digit_of(string.get_char(i)) {
                Some(d) => {
                    digits.push(d);
                },
                None => {
                    return Err(PixError::ParseColorError);
                },
            }
            i += 1;
        }
        let mut channels: [u8; 4] = [0, 0, 0, 255];
        if n <= 5 {
            channels[0] = digits[0] * 17;
            channels[1] = digits[1] * 17;
            channels[2] = digits[2] * 17;
            if n == 5 {
                channels[3] = digits[3] * 17;
            }
        } else {
            channels[0] = digits[0] * 16 + digits[1];
            channels[1] = digits[2] * 16 + digits[3];
            channels[2] = digits[4] * 16 + digits[5];
            if n == 9 {
                channels[3] = digits[6] * 16 + digits[7];
            }
        }
        Ok(Color::rgba(channels[0], channels[1], channels[2], channels[3]))
    }
}

impl std::str::FromStr for Color {
    type Err = PixError;

    /// Reads a color in hexadecimal notation, as [`Color::from_str`] does:
    /// `#RGB`, `#RGBA`, `#RRGGBB` or `#RRGGBBAA`, with white space at the end
    /// passed over. Fails with [`PixError::ParseColorError`] for every other
    /// string.
    fn from_str(string: &str) -> (r: Result<Self, PixError>)
        ensures
            match hex_color(string@) {
                Some(c) => r == Ok::<Color, PixError>(c),
                None => r matches Err(PixError::ParseColorError),
            },
    {
        Color::from_str(string)
    }
}

/// Whether `c` is white space.
fn is_white_space(c: char) -> (space: bool)
    ensures
        space == is_space(c),
{
    let n = c as u32;
    (0x09 <= n && n <= 0x0d) || n == 0x20 || n == 0x85 || n == 0xa0 || n == 0x1680 || (0x2000 <= n
        && n <= 0x200a) || n == 0x2028 || n == 0x2029 || n == 0x202f || n == 0x205f || n == 0x3000
}

/// The level between `start` and `stop` at the share `amt` of the way.
fn lerp_one(start: Scalar, stop: Scalar, amt: Scalar) -> (level: Scalar)
    requires
        is_level(start as int),
        is_level(stop as int),
        is_level(amt as int),
    ensures
        level == lerp_level(start as int, stop as int, amt as int),
        amt == 0 ==> level == start,
{
    if stop >= start {
        start + scaled(amt, stop - start)
    } else {
        start - scaled(amt, start - stop)
    }
}

/// The value of a hexadecimal digit; nothing for any other character.
fn digit_of(c: char) -> (d: Option<u8>)
    ensures
        d == hex_digit(c),
        d matches Some(v) ==> v < 16,
{
    if '0' <= c && c <= '9' {
        Some(c as u8 - '0' as u8)
    } else if 'a' <= c && c <= 'f' {
        Some(c as u8 - 'a' as u8 + 10)
    } else if 'A' <= c && c <= 'F' {
        Some(c as u8 - 'A' as u8 + 10)
    } else {
        None
    }
}

} // verus!
