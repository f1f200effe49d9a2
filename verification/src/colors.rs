use vstd::prelude::*;

verus! {

/// When enabled, channel writes through `set_rgb` pass through the gamma
/// lookup table; when disabled the raw channel values are stored.
pub const IS_GAMMA_CORRECTION_ENABLED: bool = true;

/// A color correction table for LEDs to make them look like the color you
/// expect: maps a linear 8-bit channel value to its perceptual equivalent.
pub const GAMMA8: [u8; 256] = [
    0, 0, 0, 0, 0, 0, 0, 0, 0, 0, 0, 0, 0, 0, 0, 0,
    0, 0, 0, 0, 0, 0, 0, 0, 0, 0, 0, 0, 1, 1, 1, 1,
    1, 1, 1, 1, 1, 1, 1, 1, 1, 2, 2, 2, 2, 2, 2, 2,
    2, 3, 3, 3, 3, 3, 3, 3, 4, 4, 4, 4, 4, 5, 5, 5,
    5, 6, 6, 6, 6, 7, 7, 7, 7, 8, 8, 8, 9, 9, 9, 10,
    10, 10, 11, 11, 11, 12, 12, 13, 13, 13, 14, 14, 15, 15, 16, 16,
    17, 17, 18, 18, 19, 19, 20, 20, 21, 21, 22, 22, 23, 24, 24, 25,
    25, 26, 27, 27, 28, 29, 29, 30, 31, 32, 32, 33, 34, 35, 35, 36,
    37, 38, 39, 39, 40, 41, 42, 43, 44, 45, 46, 47, 48, 49, 50, 50,
    51, 52, 54, 55, 56, 57, 58, 59, 60, 61, 62, 63, 64, 66, 67, 68,
    69, 70, 72, 73, 74, 75, 77, 78, 79, 81, 82, 83, 85, 86, 87, 89,
    90, 92, 93, 95, 96, 98, 99, 101, 102, 104, 105, 107, 109, 110, 112, 114,
    115, 117, 119, 120, 122, 124, 126, 127, 129, 131, 133, 135, 137, 138, 140, 142,
    144, 146, 148, 150, 152, 154, 156, 158, 160, 162, 164, 167, 169, 171, 173, 175,
    177, 180, 182, 184, 186, 189, 191, 193, 196, 198, 200, 203, 205, 208, 210, 213,
    215, 218, 220, 223, 225, 228, 231, 233, 236, 239, 241, 244, 247, 249, 252, 255,
];

/// The first index in `GAMMA8` whose entry is not zero.
pub const FIRST_NON_OFF_COLOR: usize = 28;

/// An RGB color value with 8-bit channels. Colors are plain values: two
/// colors are equal exactly when all three channels are equal.
#[derive(Copy, Clone, Debug, PartialEq, Eq, Structural)]
pub struct Color {
    pub r: u8,
    pub g: u8,
    pub b: u8,
}

impl Default for Color {
    /// The default color is off (all channels zero).
    fn default() -> (c: Self)
        ensures
            c == (Color { r: 0, g: 0, b: 0 }),
    {
        Color { r: 0, g: 0, b: 0 }
    }
}

/// One channel of the linear interpolation between `s` and `e`, at position
/// `factor` within `in_min..=in_max`. This mirrors integer arithmetic with
/// division truncating toward zero, so for `e < s` it is `s` minus the
/// interpolated distance.
pub open spec fn lerp_channel(factor: int, in_min: int, in_max: int, s: u8, e: u8) -> int {
    let f = factor - in_min;
    let d = in_max - in_min;
    if e >= s {
        s + (f * (e - s)) / d
    } else {
        s - (f * (s - e)) / d
    }
}

/// The interpolated channel always lies between the two endpoint channels,
/// and hits them exactly at the ends of the factor range.
pub proof fn lemma_lerp_channel_bounds(factor: int, in_min: int, in_max: int, s: u8, e: u8)
    requires
        in_min < in_max,
        in_min <= factor <= in_max,
    ensures
        if e >= s {
            s <= lerp_channel(factor, in_min, in_max, s, e) <= e
        } else {
            e <= lerp_channel(factor, in_min, in_max, s, e) <= s
        },
        factor == in_min ==> lerp_channel(factor, in_min, in_max, s, e) == s,
        factor == in_max ==> lerp_channel(factor, in_min, in_max, s, e) == e,
{
    let f = factor - in_min;
    let d = in_max - in_min;
    if e >= s {
        let delta = e - s;
        assert(0 <= f * delta <= d * delta) by (nonlinear_arith)
            requires 0 <= f <= d, 0 <= delta;
        assert(0 <= (f * delta) / d <= delta) by (nonlinear_arith)
            requires 0 < d, 0 <= f * delta <= d * delta;
        if factor == in_min {
            assert((0 as int) * delta == 0);
        }
        if factor == in_max {
            assert((d * delta) / d == delta) by (nonlinear_arith)
                requires 0 < d;
        }
    } else {
        let delta = s - e;
        assert(0 <= f * delta <= d * delta) by (nonlinear_arith)
            requires 0 <= f <= d, 0 <= delta;
        assert(0 <= (f * delta) / d <= delta) by (nonlinear_arith)
            requires 0 < d, 0 <= f * delta <= d * delta;
        if factor == in_min {
            assert((0 as int) * delta == 0);
        }
        if factor == in_max {
            assert((d * delta) / d == delta) by (nonlinear_arith)
                requires 0 < d;
        }
    }
}

impl Color {
    /// Builds a color from raw channel values, applying gamma correction.
    pub fn new(r: u8, g: u8, b: u8) -> (c: Self)
        ensures
            c.r == GAMMA8[r as int],
            c.g == GAMMA8[g as int],
            c.b == GAMMA8[b as int],
    {
        let r = GAMMA8[r as usize];
        let g = GAMMA8[g as usize];
        let b = GAMMA8[b as usize];
        Color { r, g, b }
    }

    /// Overwrites the channels with new raw values, gamma-corrected when the
    /// correction table is enabled.
    pub fn set_rgb(&mut self, r: u8, g: u8, b: u8)
        ensures
            IS_GAMMA_CORRECTION_ENABLED ==> *final(self) == (Color {
                r: GAMMA8[r as int],
                g: GAMMA8[g as int],
                b: GAMMA8[b as int],
            }),
            !IS_GAMMA_CORRECTION_ENABLED ==> *final(self) == (Color { r, g, b }),
    {
        if IS_GAMMA_CORRECTION_ENABLED {
            self.r = GAMMA8[r as usize];
            self.g = GAMMA8[g as usize];
            self.b = GAMMA8[b as usize];
        } else {
            self.r = r;
            self.g = g;
            self.b = b;
        }
    }

    /// Overwrites this color with another one, passing the other color's
    /// channels through `set_rgb` (and so through gamma correction).
    pub fn set_color(&mut self, color: Color)
        ensures
            IS_GAMMA_CORRECTION_ENABLED ==> *final(self) == (Color {
                r: GAMMA8[color.r as int],
                g: GAMMA8[color.g as int],
                b: GAMMA8[color.b as int],
            }),
            !IS_GAMMA_CORRECTION_ENABLED ==> *final(self) == color,
    {
        self.set_rgb(color.r, color.g, color.b);
    }

    /// Maps a color to a fractional mid-color based on the position of
    /// `factor` between `in_min` and `in_max`, channel by channel.
    pub fn color_lerp(
        factor: i32,
        in_min: i32,
        in_max: i32,
        start_color: Color,
        end_color: Color,
    ) -> (mid_color: Color)
        requires
            in_min < in_max,
            in_min <= factor <= in_max,
            in_max - in_min <= 0x00ff_ffff,
        ensures
            mid_color.r == lerp_channel(factor as int, in_min as int, in_max as int, start_color.r, end_color.r),
            mid_color.g == lerp_channel(factor as int, in_min as int, in_max as int, start_color.g, end_color.g),
            mid_color.b == lerp_channel(factor as int, in_min as int, in_max as int, start_color.b, end_color.b),
    {
        let f = (factor - in_min) as u32;
        let d = (in_max - in_min) as u32;
        let r = lerp_channel_exec(f, d, start_color.r, end_color.r);
        let g = lerp_channel_exec(f, d, start_color.g, end_color.g);
        let b = lerp_channel_exec(f, d, start_color.b, end_color.b);
        proof {
            lemma_lerp_channel_bounds(factor as int, in_min as int, in_max as int, start_color.r, end_color.r);
            lemma_lerp_channel_bounds(factor as int, in_min as int, in_max as int, start_color.g, end_color.g);
            lemma_lerp_channel_bounds(factor as int, in_min as int, in_max as int, start_color.b, end_color.b);
        }
        Color { r, g, b }
    }

    /// `color_lerp` returns the start color at the low end of the factor
    /// range and the end color at the high end, for all channel value pairs.
    pub proof fn lemma_color_lerp_boundaries(
        factor: int,
        in_min: int,
        in_max: int,
        start_color: Color,
        end_color: Color,
    )
        requires
            in_min < in_max,
            in_min <= factor <= in_max,
        ensures
            factor == in_min ==> (Color {
                r: lerp_channel(factor, in_min, in_max, start_color.r, end_color.r) as u8,
                g: lerp_channel(factor, in_min, in_max, start_color.g, end_color.g) as u8,
                b: lerp_channel(factor, in_min, in_max, start_color.b, end_color.b) as u8,
            }) == start_color,
            factor == in_max ==> (Color {
                r: lerp_channel(factor, in_min, in_max, start_color.r, end_color.r) as u8,
                g: lerp_channel(factor, in_min, in_max, start_color.g, end_color.g) as u8,
                b: lerp_channel(factor, in_min, in_max, start_color.b, end_color.b) as u8,
            }) == end_color,
    {
        lemma_lerp_channel_bounds(factor, in_min, in_max, start_color.r, end_color.r);
        lemma_lerp_channel_bounds(factor, in_min, in_max, start_color.g, end_color.g);
        lemma_lerp_channel_bounds(factor, in_min, in_max, start_color.b, end_color.b);
    }
}

/// One interpolated channel over unsigned arithmetic: `f` is the distance of
/// the factor from the low end of the range, `d` the width of the range.
fn lerp_channel_exec(f: u32, d: u32, s: u8, e: u8) -> (r: u8)
    requires
        0 < d <= 0x00ff_ffff,
        f <= d,
    ensures
        r == lerp_channel(f as int, 0, d as int, s, e),
{
    proof {
        lemma_lerp_channel_bounds(f as int, 0, d as int, s, e);
    }
    if e >= s {
        let delta = (e - s) as u32;
        assert(f * delta <= d * delta <= d * 255) by (nonlinear_arith)
            requires f <= d, delta <= 255;
        s + ((f * delta) / d) as u8
    } else {
        let delta = (s - e) as u32;
        assert(f * delta <= d * delta <= d * 255) by (nonlinear_arith)
            requires f <= d, delta <= 255;
        s - ((f * delta) / d) as u8
    }
}

} // verus!

verus! {

// Generic colors, as raw (not yet gamma-corrected) channel values.
/// Pure red.
pub fn c_red() -> (c: Color)
    ensures
        c == (Color { r: 255, g: 0, b: 0 }),
{
    Color { r: 255, g: 0, b: 0 }
}

/// Orange.
pub fn c_orange() -> (c: Color)
    ensures
        c == (Color { r: 255, g: 127, b: 0 }),
{
    Color { r: 255, g: 127, b: 0 }
}

/// Yellow.
pub fn c_yellow() -> (c: Color)
    ensures
        c == (Color { r: 255, g: 255, b: 0 }),
{
    Color { r: 255, g: 255, b: 0 }
}

/// Yellow-green.
pub fn c_yellow_green() -> (c: Color)
    ensures
        c == (Color { r: 127, g: 255, b: 0 }),
{
    Color { r: 127, g: 255, b: 0 }
}

/// Pure green.
pub fn c_green() -> (c: Color)
    ensures
        c == (Color { r: 0, g: 255, b: 0 }),
{
    Color { r: 0, g: 255, b: 0 }
}

/// Green-blue.
pub fn c_green_blue() -> (c: Color)
    ensures
        c == (Color { r: 0, g: 255, b: 127 }),
{
    Color { r: 0, g: 255, b: 127 }
}

/// Sky blue.
pub fn c_sky_blue() -> (c: Color)
    ensures
        c == (Color { r: 0, g: 255, b: 255 }),
{
    Color { r: 0, g: 255, b: 255 }
}

/// Deep blue.
pub fn c_deep_blue() -> (c: Color)
    ensures
        c == (Color { r: 0, g: 127, b: 255 }),
{
    Color { r: 0, g: 127, b: 255 }
}

/// Pure blue.
pub fn c_blue() -> (c: Color)
    ensures
        c == (Color { r: 0, g: 0, b: 255 }),
{
    Color { r: 0, g: 0, b: 255 }
}

/// Blue-purple.
pub fn c_blue_purple() -> (c: Color)
    ensures
        c == (Color { r: 127, g: 0, b: 255 }),
{
    Color { r: 127, g: 0, b: 255 }
}

/// Purple.
pub fn c_purple() -> (c: Color)
    ensures
        c == (Color { r: 255, g: 0, b: 255 }),
{
    Color { r: 255, g: 0, b: 255 }
}

/// Dark purple.
pub fn c_dark_purple() -> (c: Color)
    ensures
        c == (Color { r: 255, g: 0, b: 127 }),
{
    Color { r: 255, g: 0, b: 127 }
}

/// Full white.
pub fn c_white() -> (c: Color)
    ensures
        c == (Color { r: 255, g: 255, b: 255 }),
{
    Color { r: 255, g: 255, b: 255 }
}

/// All channels off.
pub fn c_off() -> (c: Color)
    ensures
        c == (Color { r: 0, g: 0, b: 0 }),
{
    Color { r: 0, g: 0, b: 0 }
}

/// White at a 3000 K color temperature.
pub fn c_t_3000k() -> (c: Color)
    ensures
        c == (Color { r: 255, g: 180, b: 107 }),
{
    Color { r: 255, g: 180, b: 107 }
}

/// White at a 3500 K color temperature.
pub fn c_t_3500k() -> (c: Color)
    ensures
        c == (Color { r: 255, g: 196, b: 137 }),
{
    Color { r: 255, g: 196, b: 137 }
}

/// White at a 4000 K color temperature.
pub fn c_t_4000k() -> (c: Color)
    ensures
        c == (Color { r: 255, g: 209, b: 163 }),
{
    Color { r: 255, g: 209, b: 163 }
}

/// White at a 5000 K color temperature.
pub fn c_t_5000k() -> (c: Color)
    ensures
        c == (Color { r: 255, g: 228, b: 206 }),
{
    Color { r: 255, g: 228, b: 206 }
}

} // verus!

verus! {

pub fn probe_vec() -> (v: Vec<u8>)
    ensures
        v@ == seq![1u8, 2, 3],
{
    let v = vec![1u8, 2, 3];
    proof { assert(v@ =~= seq![1u8, 2, 3]); }
    v
}

} // verus!

verus! {

// Rainbows: ordered color lists used by animations as cyclic or
// interpolation lookup tables.

/// A single off color, as a color sequence.
pub open spec fn spec_r_off() -> Seq<Color> {
    seq![
        Color { r: 0, g: 0, b: 0 },
    ]
}

/// A single off color.
pub fn r_off() -> (r: Vec<Color>)
    ensures
        r@ == spec_r_off(),
{
    let r = vec![
        Color { r: 0, g: 0, b: 0 },
    ];
    proof {
        assert(r@ =~= spec_r_off());
    }
    r
}

/// A single full-white color, as a color sequence.
pub open spec fn spec_r_on() -> Seq<Color> {
    seq![
        Color { r: 255, g: 255, b: 255 },
    ]
}

/// A single full-white color.
pub fn r_on() -> (r: Vec<Color>)
    ensures
        r@ == spec_r_on(),
{
    let r = vec![
        Color { r: 255, g: 255, b: 255 },
    ];
    proof {
        assert(r@ =~= spec_r_on());
    }
    r
}

/// A single red, as a color sequence.
pub open spec fn spec_r_red() -> Seq<Color> {
    seq![
        Color { r: 255, g: 0, b: 0 },
    ]
}

/// A single red.
pub fn r_red() -> (r: Vec<Color>)
    ensures
        r@ == spec_r_red(),
{
    let r = vec![
        Color { r: 255, g: 0, b: 0 },
    ];
    proof {
        assert(r@ =~= spec_r_red());
    }
    r
}

/// A single orange, as a color sequence.
pub open spec fn spec_r_orange() -> Seq<Color> {
    seq![
        Color { r: 255, g: 127, b: 0 },
    ]
}

/// A single orange.
pub fn r_orange() -> (r: Vec<Color>)
    ensures
        r@ == spec_r_orange(),
{
    let r = vec![
        Color { r: 255, g: 127, b: 0 },
    ];
    proof {
        assert(r@ =~= spec_r_orange());
    }
    r
}

/// A single yellow, as a color sequence.
pub open spec fn spec_r_yellow() -> Seq<Color> {
    seq![
        Color { r: 255, g: 255, b: 0 },
    ]
}

/// A single yellow.
pub fn r_yellow() -> (r: Vec<Color>)
    ensures
        r@ == spec_r_yellow(),
{
    let r = vec![
        Color { r: 255, g: 255, b: 0 },
    ];
    proof {
        assert(r@ =~= spec_r_yellow());
    }
    r
}

/// A single yellow-green, as a color sequence.
pub open spec fn spec_r_yellow_green() -> Seq<Color> {
    seq![
        Color { r: 127, g: 255, b: 0 },
    ]
}

/// A single yellow-green.
pub fn r_yellow_green() -> (r: Vec<Color>)
    ensures
        r@ == spec_r_yellow_green(),
{
    let r = vec![
        Color { r: 127, g: 255, b: 0 },
    ];
    proof {
        assert(r@ =~= spec_r_yellow_green());
    }
    r
}

/// A single green, as a color sequence.
pub open spec fn spec_r_green() -> Seq<Color> {
    seq![
        Color { r: 0, g: 255, b: 0 },
    ]
}

/// A single green.
pub fn r_green() -> (r: Vec<Color>)
    ensures
        r@ == spec_r_green(),
{
    let r = vec![
        Color { r: 0, g: 255, b: 0 },
    ];
    proof {
        assert(r@ =~= spec_r_green());
    }
    r
}

/// A single green-blue, as a color sequence.
pub open spec fn spec_r_green_blue() -> Seq<Color> {
    seq![
        Color { r: 0, g: 255, b: 127 },
    ]
}

/// A single green-blue.
pub fn r_green_blue() -> (r: Vec<Color>)
    ensures
        r@ == spec_r_green_blue(),
{
    let r = vec![
        Color { r: 0, g: 255, b: 127 },
    ];
    proof {
        assert(r@ =~= spec_r_green_blue());
    }
    r
}

/// A single sky blue, as a color sequence.
pub open spec fn spec_r_sky_blue() -> Seq<Color> {
    seq![
        Color { r: 0, g: 255, b: 255 },
    ]
}

/// A single sky blue.
pub fn r_sky_blue() -> (r: Vec<Color>)
    ensures
        r@ == spec_r_sky_blue(),
{
    let r = vec![
        Color { r: 0, g: 255, b: 255 },
    ];
    proof {
        assert(r@ =~= spec_r_sky_blue());
    }
    r
}

/// A single deep blue, as a color sequence.
pub open spec fn spec_r_deep_blue() -> Seq<Color> {
    seq![
        Color { r: 0, g: 127, b: 255 },
    ]
}

/// A single deep blue.
pub fn r_deep_blue() -> (r: Vec<Color>)
    ensures
        r@ == spec_r_deep_blue(),
{
    let r = vec![
        Color { r: 0, g: 127, b: 255 },
    ];
    proof {
        assert(r@ =~= spec_r_deep_blue());
    }
    r
}

/// A single blue, as a color sequence.
pub open spec fn spec_r_blue() -> Seq<Color> {
    seq![
        Color { r: 0, g: 0, b: 255 },
    ]
}

/// A single blue.
pub fn r_blue() -> (r: Vec<Color>)
    ensures
        r@ == spec_r_blue(),
{
    let r = vec![
        Color { r: 0, g: 0, b: 255 },
    ];
    proof {
        assert(r@ =~= spec_r_blue());
    }
    r
}

/// A single blue-purple, as a color sequence.
pub open spec fn spec_r_blue_purple() -> Seq<Color> {
    seq![
        Color { r: 127, g: 0, b: 255 },
    ]
}

/// A single blue-purple.
pub fn r_blue_purple() -> (r: Vec<Color>)
    ensures
        r@ == spec_r_blue_purple(),
{
    let r = vec![
        Color { r: 127, g: 0, b: 255 },
    ];
    proof {
        assert(r@ =~= spec_r_blue_purple());
    }
    r
}

/// A single purple, as a color sequence.
pub open spec fn spec_r_purple() -> Seq<Color> {
    seq![
        Color { r: 255, g: 0, b: 255 },
    ]
}

/// A single purple.
pub fn r_purple() -> (r: Vec<Color>)
    ensures
        r@ == spec_r_purple(),
{
    let r = vec![
        Color { r: 255, g: 0, b: 255 },
    ];
    proof {
        assert(r@ =~= spec_r_purple());
    }
    r
}

/// A single dark purple, as a color sequence.
pub open spec fn spec_r_dark_purple() -> Seq<Color> {
    seq![
        Color { r: 255, g: 0, b: 127 },
    ]
}

/// A single dark purple.
pub fn r_dark_purple() -> (r: Vec<Color>)
    ensures
        r@ == spec_r_dark_purple(),
{
    let r = vec![
        Color { r: 255, g: 0, b: 127 },
    ];
    proof {
        assert(r@ =~= spec_r_dark_purple());
    }
    r
}

/// The classic six-color rainbow, as a color sequence.
pub open spec fn spec_r_roygbiv() -> Seq<Color> {
    seq![
        Color { r: 255, g: 0, b: 0 },
        Color { r: 255, g: 127, b: 0 },
        Color { r: 255, g: 255, b: 0 },
        Color { r: 0, g: 255, b: 0 },
        Color { r: 0, g: 0, b: 255 },
        Color { r: 255, g: 0, b: 127 },
    ]
}

/// The classic six-color rainbow.
pub fn r_roygbiv() -> (r: Vec<Color>)
    ensures
        r@ == spec_r_roygbiv(),
{
    let r = vec![
        Color { r: 255, g: 0, b: 0 },
        Color { r: 255, g: 127, b: 0 },
        Color { r: 255, g: 255, b: 0 },
        Color { r: 0, g: 255, b: 0 },
        Color { r: 0, g: 0, b: 255 },
        Color { r: 255, g: 0, b: 127 },
    ];
    proof {
        assert(r@ =~= spec_r_roygbiv());
    }
    r
}

/// Red, yellow and blue, separated by off, as a color sequence.
pub open spec fn spec_r_ryb() -> Seq<Color> {
    seq![
        Color { r: 255, g: 0, b: 0 },
        Color { r: 0, g: 0, b: 0 },
        Color { r: 255, g: 255, b: 0 },
        Color { r: 0, g: 0, b: 0 },
        Color { r: 0, g: 0, b: 255 },
        Color { r: 0, g: 0, b: 0 },
    ]
}

/// Red, yellow and blue, separated by off.
pub fn r_ryb() -> (r: Vec<Color>)
    ensures
        r@ == spec_r_ryb(),
{
    let r = vec![
        Color { r: 255, g: 0, b: 0 },
        Color { r: 0, g: 0, b: 0 },
        Color { r: 255, g: 255, b: 0 },
        Color { r: 0, g: 0, b: 0 },
        Color { r: 0, g: 0, b: 255 },
        Color { r: 0, g: 0, b: 0 },
    ];
    proof {
        assert(r@ =~= spec_r_ryb());
    }
    r
}

/// Orange, green and purple, separated by off, as a color sequence.
pub open spec fn spec_r_ogp() -> Seq<Color> {
    seq![
        Color { r: 255, g: 127, b: 0 },
        Color { r: 0, g: 0, b: 0 },
        Color { r: 0, g: 255, b: 0 },
        Color { r: 0, g: 0, b: 0 },
        Color { r: 255, g: 0, b: 255 },
        Color { r: 0, g: 0, b: 0 },
    ]
}

/// Orange, green and purple, separated by off.
pub fn r_ogp() -> (r: Vec<Color>)
    ensures
        r@ == spec_r_ogp(),
{
    let r = vec![
        Color { r: 255, g: 127, b: 0 },
        Color { r: 0, g: 0, b: 0 },
        Color { r: 0, g: 255, b: 0 },
        Color { r: 0, g: 0, b: 0 },
        Color { r: 255, g: 0, b: 255 },
        Color { r: 0, g: 0, b: 0 },
    ];
    proof {
        assert(r@ =~= spec_r_ogp());
    }
    r
}

/// Red, green and blue, separated by off, as a color sequence.
pub open spec fn spec_r_rgb() -> Seq<Color> {
    seq![
        Color { r: 255, g: 0, b: 0 },
        Color { r: 0, g: 0, b: 0 },
        Color { r: 0, g: 255, b: 0 },
        Color { r: 0, g: 0, b: 0 },
        Color { r: 0, g: 0, b: 255 },
        Color { r: 0, g: 0, b: 0 },
    ]
}

/// Red, green and blue, separated by off.
pub fn r_rgb() -> (r: Vec<Color>)
    ensures
        r@ == spec_r_rgb(),
{
    let r = vec![
        Color { r: 255, g: 0, b: 0 },
        Color { r: 0, g: 0, b: 0 },
        Color { r: 0, g: 255, b: 0 },
        Color { r: 0, g: 0, b: 0 },
        Color { r: 0, g: 0, b: 255 },
        Color { r: 0, g: 0, b: 0 },
    ];
    proof {
        assert(r@ =~= spec_r_rgb());
    }
    r
}

/// Blue and yellow, separated by off, as a color sequence.
pub open spec fn spec_r_by() -> Seq<Color> {
    seq![
        Color { r: 0, g: 0, b: 255 },
        Color { r: 0, g: 0, b: 0 },
        Color { r: 255, g: 255, b: 0 },
        Color { r: 0, g: 0, b: 0 },
    ]
}

/// Blue and yellow, separated by off.
pub fn r_by() -> (r: Vec<Color>)
    ensures
        r@ == spec_r_by(),
{
    let r = vec![
        Color { r: 0, g: 0, b: 255 },
        Color { r: 0, g: 0, b: 0 },
        Color { r: 255, g: 255, b: 0 },
        Color { r: 0, g: 0, b: 0 },
    ];
    proof {
        assert(r@ =~= spec_r_by());
    }
    r
}

/// Red and sky blue, separated by off, as a color sequence.
pub open spec fn spec_r_rb() -> Seq<Color> {
    seq![
        Color { r: 255, g: 0, b: 0 },
        Color { r: 0, g: 0, b: 0 },
        Color { r: 0, g: 255, b: 255 },
        Color { r: 0, g: 0, b: 0 },
    ]
}

/// Red and sky blue, separated by off.
pub fn r_rb() -> (r: Vec<Color>)
    ensures
        r@ == spec_r_rb(),
{
    let r = vec![
        Color { r: 255, g: 0, b: 0 },
        Color { r: 0, g: 0, b: 0 },
        Color { r: 0, g: 255, b: 255 },
        Color { r: 0, g: 0, b: 0 },
    ];
    proof {
        assert(r@ =~= spec_r_rb());
    }
    r
}

/// Orange and deep blue, separated by off, as a color sequence.
pub open spec fn spec_r_ob() -> Seq<Color> {
    seq![
        Color { r: 255, g: 127, b: 0 },
        Color { r: 0, g: 0, b: 0 },
        Color { r: 0, g: 127, b: 255 },
        Color { r: 0, g: 0, b: 0 },
    ]
}

/// Orange and deep blue, separated by off.
pub fn r_ob() -> (r: Vec<Color>)
    ensures
        r@ == spec_r_ob(),
{
    let r = vec![
        Color { r: 255, g: 127, b: 0 },
        Color { r: 0, g: 0, b: 0 },
        Color { r: 0, g: 127, b: 255 },
        Color { r: 0, g: 0, b: 0 },
    ];
    proof {
        assert(r@ =~= spec_r_ob());
    }
    r
}

/// Blue and white, separated by off, as a color sequence.
pub open spec fn spec_r_bw() -> Seq<Color> {
    seq![
        Color { r: 0, g: 0, b: 255 },
        Color { r: 0, g: 0, b: 0 },
        Color { r: 255, g: 255, b: 255 },
        Color { r: 0, g: 0, b: 0 },
    ]
}

/// Blue and white, separated by off.
pub fn r_bw() -> (r: Vec<Color>)
    ensures
        r@ == spec_r_bw(),
{
    let r = vec![
        Color { r: 0, g: 0, b: 255 },
        Color { r: 0, g: 0, b: 0 },
        Color { r: 255, g: 255, b: 255 },
        Color { r: 0, g: 0, b: 0 },
    ];
    proof {
        assert(r@ =~= spec_r_bw());
    }
    r
}

/// Red and white, separated by off, as a color sequence.
pub open spec fn spec_r_rw() -> Seq<Color> {
    seq![
        Color { r: 255, g: 0, b: 0 },
        Color { r: 0, g: 0, b: 0 },
        Color { r: 255, g: 255, b: 255 },
        Color { r: 0, g: 0, b: 0 },
    ]
}

/// Red and white, separated by off.
pub fn r_rw() -> (r: Vec<Color>)
    ensures
        r@ == spec_r_rw(),
{
    let r = vec![
        Color { r: 255, g: 0, b: 0 },
        Color { r: 0, g: 0, b: 0 },
        Color { r: 255, g: 255, b: 255 },
        Color { r: 0, g: 0, b: 0 },
    ];
    proof {
        assert(r@ =~= spec_r_rw());
    }
    r
}

/// Green and white, separated by off, as a color sequence.
pub open spec fn spec_r_gw() -> Seq<Color> {
    seq![
        Color { r: 0, g: 255, b: 0 },
        Color { r: 0, g: 0, b: 0 },
        Color { r: 255, g: 255, b: 255 },
        Color { r: 0, g: 0, b: 0 },
    ]
}

/// Green and white, separated by off.
pub fn r_gw() -> (r: Vec<Color>)
    ensures
        r@ == spec_r_gw(),
{
    let r = vec![
        Color { r: 0, g: 255, b: 0 },
        Color { r: 0, g: 0, b: 0 },
        Color { r: 255, g: 255, b: 255 },
        Color { r: 0, g: 0, b: 0 },
    ];
    proof {
        assert(r@ =~= spec_r_gw());
    }
    r
}

/// The dark pattern built on red, as a color sequence.
pub open spec fn spec_r_dark_red_pattern() -> Seq<Color> {
    seq![
        Color { r: 127, g: 0, b: 0 },
        Color { r: 63, g: 0, b: 0 },
        Color { r: 127, g: 0, b: 0 },
        Color { r: 63, g: 0, b: 0 },
        Color { r: 127, g: 0, b: 0 },
        Color { r: 63, g: 0, b: 0 },
    ]
}

/// The dark pattern built on red.
pub fn r_dark_red_pattern() -> (r: Vec<Color>)
    ensures
        r@ == spec_r_dark_red_pattern(),
{
    let r = vec![
        Color { r: 127, g: 0, b: 0 },
        Color { r: 63, g: 0, b: 0 },
        Color { r: 127, g: 0, b: 0 },
        Color { r: 63, g: 0, b: 0 },
        Color { r: 127, g: 0, b: 0 },
        Color { r: 63, g: 0, b: 0 },
    ];
    proof {
        assert(r@ =~= spec_r_dark_red_pattern());
    }
    r
}

/// The dark pattern built on yellow, as a color sequence.
pub open spec fn spec_r_dark_yellow_pattern() -> Seq<Color> {
    seq![
        Color { r: 127, g: 127, b: 0 },
        Color { r: 63, g: 63, b: 0 },
        Color { r: 127, g: 127, b: 0 },
        Color { r: 63, g: 63, b: 0 },
        Color { r: 127, g: 127, b: 0 },
        Color { r: 63, g: 63, b: 0 },
    ]
}

/// The dark pattern built on yellow.
pub fn r_dark_yellow_pattern() -> (r: Vec<Color>)
    ensures
        r@ == spec_r_dark_yellow_pattern(),
{
    let r = vec![
        Color { r: 127, g: 127, b: 0 },
        Color { r: 63, g: 63, b: 0 },
        Color { r: 127, g: 127, b: 0 },
        Color { r: 63, g: 63, b: 0 },
        Color { r: 127, g: 127, b: 0 },
        Color { r: 63, g: 63, b: 0 },
    ];
    proof {
        assert(r@ =~= spec_r_dark_yellow_pattern());
    }
    r
}

/// The dark pattern built on green, as a color sequence.
pub open spec fn spec_r_dark_green_pattern() -> Seq<Color> {
    seq![
        Color { r: 0, g: 127, b: 0 },
        Color { r: 0, g: 63, b: 0 },
        Color { r: 0, g: 127, b: 0 },
        Color { r: 0, g: 63, b: 0 },
        Color { r: 0, g: 127, b: 0 },
        Color { r: 0, g: 63, b: 0 },
    ]
}

/// The dark pattern built on green.
pub fn r_dark_green_pattern() -> (r: Vec<Color>)
    ensures
        r@ == spec_r_dark_green_pattern(),
{
    let r = vec![
        Color { r: 0, g: 127, b: 0 },
        Color { r: 0, g: 63, b: 0 },
        Color { r: 0, g: 127, b: 0 },
        Color { r: 0, g: 63, b: 0 },
        Color { r: 0, g: 127, b: 0 },
        Color { r: 0, g: 63, b: 0 },
    ];
    proof {
        assert(r@ =~= spec_r_dark_green_pattern());
    }
    r
}

/// The dark pattern built on sky blue, as a color sequence.
pub open spec fn spec_r_dark_sky_blue_pattern() -> Seq<Color> {
    seq![
        Color { r: 0, g: 127, b: 127 },
        Color { r: 0, g: 63, b: 63 },
        Color { r: 0, g: 127, b: 127 },
        Color { r: 0, g: 63, b: 63 },
        Color { r: 0, g: 127, b: 127 },
        Color { r: 0, g: 63, b: 63 },
    ]
}

/// The dark pattern built on sky blue.
pub fn r_dark_sky_blue_pattern() -> (r: Vec<Color>)
    ensures
        r@ == spec_r_dark_sky_blue_pattern(),
{
    let r = vec![
        Color { r: 0, g: 127, b: 127 },
        Color { r: 0, g: 63, b: 63 },
        Color { r: 0, g: 127, b: 127 },
        Color { r: 0, g: 63, b: 63 },
        Color { r: 0, g: 127, b: 127 },
        Color { r: 0, g: 63, b: 63 },
    ];
    proof {
        assert(r@ =~= spec_r_dark_sky_blue_pattern());
    }
    r
}

/// The dark pattern built on blue, as a color sequence.
pub open spec fn spec_r_dark_blue_pattern() -> Seq<Color> {
    seq![
        Color { r: 0, g: 0, b: 127 },
        Color { r: 0, g: 0, b: 63 },
        Color { r: 0, g: 0, b: 127 },
        Color { r: 0, g: 0, b: 63 },
        Color { r: 0, g: 0, b: 127 },
        Color { r: 0, g: 0, b: 63 },
    ]
}

/// The dark pattern built on blue.
pub fn r_dark_blue_pattern() -> (r: Vec<Color>)
    ensures
        r@ == spec_r_dark_blue_pattern(),
{
    let r = vec![
        Color { r: 0, g: 0, b: 127 },
        Color { r: 0, g: 0, b: 63 },
        Color { r: 0, g: 0, b: 127 },
        Color { r: 0, g: 0, b: 63 },
        Color { r: 0, g: 0, b: 127 },
        Color { r: 0, g: 0, b: 63 },
    ];
    proof {
        assert(r@ =~= spec_r_dark_blue_pattern());
    }
    r
}

/// The dark pattern built on purple, as a color sequence.
pub open spec fn spec_r_dark_purple_pattern() -> Seq<Color> {
    seq![
        Color { r: 127, g: 0, b: 127 },
        Color { r: 63, g: 0, b: 63 },
        Color { r: 127, g: 0, b: 127 },
        Color { r: 63, g: 0, b: 63 },
        Color { r: 127, g: 0, b: 127 },
        Color { r: 63, g: 0, b: 63 },
    ]
}

/// The dark pattern built on purple.
pub fn r_dark_purple_pattern() -> (r: Vec<Color>)
    ensures
        r@ == spec_r_dark_purple_pattern(),
{
    let r = vec![
        Color { r: 127, g: 0, b: 127 },
        Color { r: 63, g: 0, b: 63 },
        Color { r: 127, g: 0, b: 127 },
        Color { r: 63, g: 0, b: 63 },
        Color { r: 127, g: 0, b: 127 },
        Color { r: 63, g: 0, b: 63 },
    ];
    proof {
        assert(r@ =~= spec_r_dark_purple_pattern());
    }
    r
}

/// The dark pattern built on white, as a color sequence.
pub open spec fn spec_r_white_pattern() -> Seq<Color> {
    seq![
        Color { r: 127, g: 127, b: 127 },
        Color { r: 63, g: 63, b: 63 },
        Color { r: 127, g: 127, b: 127 },
        Color { r: 63, g: 63, b: 63 },
        Color { r: 127, g: 127, b: 127 },
        Color { r: 63, g: 63, b: 63 },
    ]
}

/// The dark pattern built on white.
pub fn r_white_pattern() -> (r: Vec<Color>)
    ensures
        r@ == spec_r_white_pattern(),
{
    let r = vec![
        Color { r: 127, g: 127, b: 127 },
        Color { r: 63, g: 63, b: 63 },
        Color { r: 127, g: 127, b: 127 },
        Color { r: 63, g: 63, b: 63 },
        Color { r: 127, g: 127, b: 127 },
        Color { r: 63, g: 63, b: 63 },
    ];
    proof {
        assert(r@ =~= spec_r_white_pattern());
    }
    r
}

/// A single warm white, as a color sequence.
pub open spec fn spec_r_t_3000k() -> Seq<Color> {
    seq![
        Color { r: 255, g: 209, b: 163 },
    ]
}

/// A single warm white.
pub fn r_t_3000k() -> (r: Vec<Color>)
    ensures
        r@ == spec_r_t_3000k(),
{
    let r = vec![
        Color { r: 255, g: 209, b: 163 },
    ];
    proof {
        assert(r@ =~= spec_r_t_3000k());
    }
    r
}

/// A single warm white, as a color sequence.
pub open spec fn spec_r_t_3500k() -> Seq<Color> {
    seq![
        Color { r: 255, g: 209, b: 163 },
    ]
}

/// A single warm white.
pub fn r_t_3500k() -> (r: Vec<Color>)
    ensures
        r@ == spec_r_t_3500k(),
{
    let r = vec![
        Color { r: 255, g: 209, b: 163 },
    ];
    proof {
        assert(r@ =~= spec_r_t_3500k());
    }
    r
}

/// A single neutral white, as a color sequence.
pub open spec fn spec_r_t_4000k() -> Seq<Color> {
    seq![
        Color { r: 255, g: 209, b: 163 },
    ]
}

/// A single neutral white.
pub fn r_t_4000k() -> (r: Vec<Color>)
    ensures
        r@ == spec_r_t_4000k(),
{
    let r = vec![
        Color { r: 255, g: 209, b: 163 },
    ];
    proof {
        assert(r@ =~= spec_r_t_4000k());
    }
    r
}

/// A single neutral white, as a color sequence.
pub open spec fn spec_r_t_5000k() -> Seq<Color> {
    seq![
        Color { r: 255, g: 209, b: 163 },
    ]
}

/// A single neutral white.
pub fn r_t_5000k() -> (r: Vec<Color>)
    ensures
        r@ == spec_r_t_5000k(),
{
    let r = vec![
        Color { r: 255, g: 209, b: 163 },
    ];
    proof {
        assert(r@ =~= spec_r_t_5000k());
    }
    r
}

/// The VU-meter scale: green up to yellow and red at the top, as a color sequence.
pub open spec fn spec_r_vu_meter() -> Seq<Color> {
    seq![
        Color { r: 0, g: 255, b: 0 },
        Color { r: 0, g: 255, b: 0 },
        Color { r: 0, g: 255, b: 0 },
        Color { r: 0, g: 255, b: 0 },
        Color { r: 0, g: 255, b: 0 },
        Color { r: 0, g: 255, b: 0 },
        Color { r: 0, g: 255, b: 0 },
        Color { r: 255, g: 255, b: 0 },
        Color { r: 255, g: 255, b: 0 },
        Color { r: 255, g: 0, b: 0 },
    ]
}

/// The VU-meter scale: green up to yellow and red at the top.
pub fn r_vu_meter() -> (r: Vec<Color>)
    ensures
        r@ == spec_r_vu_meter(),
{
    let r = vec![
        Color { r: 0, g: 255, b: 0 },
        Color { r: 0, g: 255, b: 0 },
        Color { r: 0, g: 255, b: 0 },
        Color { r: 0, g: 255, b: 0 },
        Color { r: 0, g: 255, b: 0 },
        Color { r: 0, g: 255, b: 0 },
        Color { r: 0, g: 255, b: 0 },
        Color { r: 255, g: 255, b: 0 },
        Color { r: 255, g: 255, b: 0 },
        Color { r: 255, g: 0, b: 0 },
    ];
    proof {
        assert(r@ =~= spec_r_vu_meter());
    }
    r
}

/// A dimmed six-entry pattern built from a base color: half-brightness and
/// quarter-brightness entries alternating.
pub fn dark_pattern(base: Color) -> (colors: Vec<Color>)
    ensures
        colors@ == spec_dark_pattern(base),
{
    let half = Color { r: base.r / 2, g: base.g / 2, b: base.b / 2 };
    let quarter = Color { r: base.r / 4, g: base.g / 4, b: base.b / 4 };
    let colors = vec![half, quarter, half, quarter, half, quarter];
    proof {
        assert(colors@ =~= spec_dark_pattern(base));
    }
    colors
}

/// The pattern `dark_pattern` builds: half- and quarter-brightness entries
/// of the base color, alternating.
pub open spec fn spec_dark_pattern(base: Color) -> Seq<Color> {
    let half = Color { r: (base.r / 2) as u8, g: (base.g / 2) as u8, b: (base.b / 2) as u8 };
    let quarter = Color { r: (base.r / 4) as u8, g: (base.g / 4) as u8, b: (base.b / 4) as u8 };
    seq![half, quarter, half, quarter, half, quarter]
}

/// How many rainbows `rainbow_array` returns.
pub const NUM_RAINBOWS: usize = 31;

/// All the plain and dark-pattern rainbows in a fixed order, so that
/// animations can cycle through rainbows by index.
pub open spec fn spec_rainbow_array() -> Seq<Seq<Color>> {
    seq![
        spec_r_off(),
        spec_r_on(),
        spec_r_red(),
        spec_r_orange(),
        spec_r_yellow(),
        spec_r_yellow_green(),
        spec_r_green(),
        spec_r_green_blue(),
        spec_r_sky_blue(),
        spec_r_deep_blue(),
        spec_r_blue(),
        spec_r_blue_purple(),
        spec_r_purple(),
        spec_r_dark_purple(),
        spec_r_roygbiv(),
        spec_r_ryb(),
        spec_r_ogp(),
        spec_r_rgb(),
        spec_r_by(),
        spec_r_rb(),
        spec_r_ob(),
        spec_r_bw(),
        spec_r_rw(),
        spec_r_gw(),
        spec_r_dark_red_pattern(),
        spec_r_dark_yellow_pattern(),
        spec_r_dark_green_pattern(),
        spec_r_dark_sky_blue_pattern(),
        spec_r_dark_blue_pattern(),
        spec_r_dark_purple_pattern(),
        spec_r_white_pattern(),
    ]
}

/// Builds the rainbow list of `spec_rainbow_array`.
pub fn rainbow_array() -> (r: Vec<Vec<Color>>)
    ensures
        r@.len() == NUM_RAINBOWS,
        forall|i: int| 0 <= i < r@.len() ==> (#[trigger] r@[i])@ == spec_rainbow_array()[i],
{
    let mut r: Vec<Vec<Color>> = Vec::new();
    r.push(r_off());
    r.push(r_on());
    r.push(r_red());
    r.push(r_orange());
    r.push(r_yellow());
    r.push(r_yellow_green());
    r.push(r_green());
    r.push(r_green_blue());
    r.push(r_sky_blue());
    r.push(r_deep_blue());
    r.push(r_blue());
    r.push(r_blue_purple());
    r.push(r_purple());
    r.push(r_dark_purple());
    r.push(r_roygbiv());
    r.push(r_ryb());
    r.push(r_ogp());
    r.push(r_rgb());
    r.push(r_by());
    r.push(r_rb());
    r.push(r_ob());
    r.push(r_bw());
    r.push(r_rw());
    r.push(r_gw());
    r.push(r_dark_red_pattern());
    r.push(r_dark_yellow_pattern());
    r.push(r_dark_green_pattern());
    r.push(r_dark_sky_blue_pattern());
    r.push(r_dark_blue_pattern());
    r.push(r_dark_purple_pattern());
    r.push(r_white_pattern());
    r
}

} // verus!
