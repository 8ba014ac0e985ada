//! Colors.
//!
//! A [`Color`] holds its red, green, blue and alpha parts twice: as levels
//! between zero and [`ONE`], with which interpolation and the conversions from
//! other color models work, and as 8-bit channels that are rounded from them.

use vstd::prelude::*;

pub mod conversion;

verus! {

/// A number with six decimal places, held as a count of millionths.
pub type Scalar = i64;

/// The number one as a [`Scalar`].
pub const ONE: Scalar = 1_000_000;

/// How the three values of a color are read.
#[derive(Clone, Copy, Debug, PartialEq, Eq, Structural, Hash)]
pub enum ColorMode {
    /// Red, green and blue, each up to 255.
    Rgb,
    /// Hue up to 360, saturation and brightness up to 100.
    Hsb,
    /// Hue up to 360, saturation and lightness up to 100.
    Hsl,
}

/// Whether `level` lies between zero and one.
pub open spec fn is_level(level: int) -> bool {
    0 <= level <= ONE
}

/// The 8-bit channel nearest to `level`.
pub open spec fn channel_of(level: int) -> int {
    (level * 255 + ONE / 2) / (ONE as int)
}

/// The level of an 8-bit channel, rounded down.
pub open spec fn level_of(channel: int) -> int {
    channel * ONE / 255
}

/// A level that was made from a channel rounds back to that channel.
pub proof fn lemma_channel_round_trip(channel: int)
    requires
        0 <= channel <= 255,
    ensures
        is_level(level_of(channel)),
        channel_of(level_of(channel)) == channel,
{
    let level = level_of(channel);
    assert(channel * ONE - 255 < level * 255 <= channel * ONE) by (nonlinear_arith)
        requires
            level == channel * ONE / 255,
    ;
    assert(0 <= level <= ONE) by (nonlinear_arith)
        requires
            0 <= channel <= 255,
            channel * ONE - 255 < level * 255 <= channel * ONE,
    ;
    assert((level * 255 + ONE / 2) / (ONE as int) == channel) by (nonlinear_arith)
        requires
            channel * ONE - 255 < level * 255 <= channel * ONE,
    ;
}

/// The channel of a level is an 8-bit value.
pub proof fn lemma_channel_range(level: int)
    requires
        is_level(level),
    ensures
        0 <= channel_of(level) <= 255,
{
    assert(0 <= (level * 255 + ONE / 2) / (ONE as int) <= 255) by (nonlinear_arith)
        requires
            0 <= level <= ONE,
    ;
}

/// Limits a value to the levels from zero to one.
pub open spec fn to_level(v: int) -> int {
    if v < 0 {
        0
    } else if v > ONE {
        ONE as int
    } else {
        v
    }
}

/// A color with an alpha part.
#[derive(Clone, Copy, Debug, PartialEq, Eq, Structural, Hash)]
pub struct Color {
    mode: ColorMode,
    red: Scalar,
    green: Scalar,
    blue: Scalar,
    alpha: Scalar,
    r: u8,
    g: u8,
    b: u8,
    a: u8,
}

impl Color {
    #[verifier::type_invariant]
    spec fn well_formed(self) -> bool {
        &&& is_level(self.red as int)
        &&& is_level(self.green as int)
        &&& is_level(self.blue as int)
        &&& is_level(self.alpha as int)
        &&& self.r == channel_of(self.red as int)
        &&& self.g == channel_of(self.green as int)
        &&& self.b == channel_of(self.blue as int)
        &&& self.a == channel_of(self.alpha as int)
    }

    /// The color with the given mode and the given red, green, blue and alpha
    /// levels. Its channels are rounded from the levels.
    pub closed spec fn of(mode: ColorMode, red: int, green: int, blue: int, alpha: int) -> Color {
        Color {
            mode,
            red: red as i64,
            green: green as i64,
            blue: blue as i64,
            alpha: alpha as i64,
            r: channel_of(red) as u8,
            g: channel_of(green) as u8,
            b: channel_of(blue) as u8,
            a: channel_of(alpha) as u8,
        }
    }

    /// The color with the given red, green, blue and alpha channels.
    pub open spec fn spec_rgba(r: u8, g: u8, b: u8, a: u8) -> Color {
        Color::of(
            ColorMode::Rgb,
            level_of(r as int),
            level_of(g as int),
            level_of(b as int),
            level_of(a as int),
        )
    }

    /// The mode the color was made in.
    pub closed spec fn spec_mode(self) -> ColorMode {
        self.mode
    }

    /// Red, green, blue and alpha as levels.
    pub closed spec fn spec_levels(self) -> (int, int, int, int) {
        (self.red as int, self.green as int, self.blue as int, self.alpha as int)
    }

    /// Red, green, blue and alpha as 8-bit channels.
    pub closed spec fn spec_channels(self) -> (u8, u8, u8, u8) {
        (self.r, self.g, self.b, self.a)
    }

    /// What `of` makes has the levels and the mode it was given, provided that
    /// they are levels.
    pub proof fn lemma_of(mode: ColorMode, red: int, green: int, blue: int, alpha: int)
        requires
            is_level(red),
            is_level(green),
            is_level(blue),
            is_level(alpha),
        ensures
            Color::of(mode, red, green, blue, alpha).spec_mode() == mode,
            Color::of(mode, red, green, blue, alpha).spec_levels() == (red, green, blue, alpha),
            Color::of(mode, red, green, blue, alpha).spec_channels() == (
                channel_of(red) as u8,
                channel_of(green) as u8,
                channel_of(blue) as u8,
                channel_of(alpha) as u8,
            ),
    {
    }

    /// Makes the color with the given levels, which it first limits to the
    /// range from zero to one.
    pub fn from_levels(mode: ColorMode, red: Scalar, green: Scalar, blue: Scalar, alpha: Scalar) -> (c:
        Self)
        ensures
            c == Color::of(
                mode,
                to_level(red as int),
                to_level(green as int),
                to_level(blue as int),
                to_level(alpha as int),
            ),
            c.spec_mode() == mode,
            c.spec_levels() == (
                to_level(red as int),
                to_level(green as int),
                to_level(blue as int),
                to_level(alpha as int),
            ),
    {
        proof {
            Color::lemma_of(
                mode,
                to_level(red as int),
                to_level(green as int),
                to_level(blue as int),
                to_level(alpha as int),
            );
        }
        let red = clamp_level(red);
        let green = clamp_level(green);
        let blue = clamp_level(blue);
        let alpha = clamp_level(alpha);
        Color {
            mode,
            red,
            green,
            blue,
            alpha,
            r: channel(red),
            g: channel(green),
            b: channel(blue),
            a: channel(alpha),
        }
    }

    /// An opaque color from red, green and blue channels.
    pub fn rgb(r: u8, g: u8, b: u8) -> (c: Self)
        ensures
            c == Color::spec_rgba(r, g, b, 255),
            c.spec_channels() == (r, g, b, 255u8),
            c.spec_mode() == ColorMode::Rgb,
    {
        Color::rgba(r, g, b, 255)
    }

    /// A color from red, green, blue and alpha channels.
    pub fn rgba(r: u8, g: u8, b: u8, a: u8) -> (c: Self)
        ensures
            c == Color::spec_rgba(r, g, b, a),
            c.spec_channels() == (r, g, b, a),
            c.spec_mode() == ColorMode::Rgb,
            c.spec_levels() == (
                level_of(r as int),
                level_of(g as int),
                level_of(b as int),
                level_of(a as int),
            ),
    {
        proof {
            lemma_channel_round_trip(r as int);
            lemma_channel_round_trip(g as int);
            lemma_channel_round_trip(b as int);
            lemma_channel_round_trip(a as int);
        }
        Color {
            mode: ColorMode::Rgb,
            red: level(r),
            green: level(g),
            blue: level(b),
            alpha: level(a),
            r,
            g,
            b,
            a,
        }
    }

    /// This color at half its brightness: red, green and blue at half their
    /// level, alpha as it is.
    pub closed spec fn spec_dimmed(self) -> Color {
        Color::of(
            self.mode,
            self.red as int / 2,
            self.green as int / 2,
            self.blue as int / 2,
            self.alpha as int,
        )
    }

    /// This color at half its brightness.
    pub fn dimmed(&self) -> (c: Self)
        ensures
            c == self.spec_dimmed(),
    {
        proof {
            use_type_invariant(self);
        }
        let red = self.red / 2;
        let green = self.green / 2;
        let blue = self.blue / 2;
        Color {
            mode: self.mode,
            red,
            green,
            blue,
            alpha: self.alpha,
            r: channel(red),
            g: channel(green),
            b: channel(blue),
            a: self.a,
        }
    }

    /// The mode the color was made in.
    pub fn mode(&self) -> (mode: ColorMode)
        ensures
            mode == self.spec_mode(),
    {
        self.mode
    }

    /// Red, green, blue and alpha as levels between zero and one.
    pub fn levels(&self) -> (levels: [Scalar; 4])
        ensures
            levels[0] == self.spec_levels().0,
            levels[1] == self.spec_levels().1,
            levels[2] == self.spec_levels().2,
            levels[3] == self.spec_levels().3,
            forall|i: int| 0 <= i < 4 ==> is_level(#[trigger] levels[i] as int),
            *self == Color::of(
                self.spec_mode(),
                levels[0] as int,
                levels[1] as int,
                levels[2] as int,
                levels[3] as int,
            ),
    {
        proof {
            use_type_invariant(self);
        }
        [self.red, self.green, self.blue, self.alpha]
    }

    /// Red, green, blue and alpha as 8-bit channels.
    pub fn channels(&self) -> (channels: [u8; 4])
        ensures
            channels[0] == self.spec_channels().0,
            channels[1] == self.spec_channels().1,
            channels[2] == self.spec_channels().2,
            channels[3] == self.spec_channels().3,
            channels[0] == channel_of(self.spec_levels().0),
            channels[1] == channel_of(self.spec_levels().1),
            channels[2] == channel_of(self.spec_levels().2),
            channels[3] == channel_of(self.spec_levels().3),
    {
        proof {
            use_type_invariant(self);
        }
        [self.r, self.g, self.b, self.a]
    }
}

/// Limits a value to the levels from zero to one.
pub fn clamp_level(v: Scalar) -> (level: Scalar)
    ensures
        level == to_level(v as int),
        is_level(level as int),
{
    if v < 0 {
        0
    } else if v > ONE {
        ONE
    } else {
        v
    }
}

/// The 8-bit channel nearest to `level`.
fn channel(level: Scalar) -> (c: u8)
    requires
        is_level(level as int),
    ensures
        c == channel_of(level as int),
{
    proof {
        lemma_channel_range(level as int);
    }
    ((level * 255 + ONE / 2) / ONE) as u8
}

/// The level of an 8-bit channel.
fn level(channel: u8) -> (l: Scalar)
    ensures
        l == level_of(channel as int),
        is_level(l as int),
{
    proof {
        lemma_channel_round_trip(channel as int);
    }
    channel as i64 * ONE / 255
}

} // verus!
