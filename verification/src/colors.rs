//! Colorspace tools for RGB LEDs.
//!
//! A [`Color`] is an immutable triple of 8-bit channel values. It can be
//! built directly from channel values or derived from HSV or HSL inputs
//! with fixed-point 8-bit arithmetic: hue 0-255 spans the color circle in
//! six 43-wide sectors, and saturation, value and lightness 0-255 stand
//! for 0-100%. All divisions are floor divisions and all clamping is
//! saturating, so conversions are deterministic down to the exact banding
//! at sector boundaries.

use vstd::prelude::*;

verus! {

use vstd::arithmetic::mul::lemma_mul_upper_bound;

/// Representation of a color in RGB colorspace.
#[derive(Clone, Copy, Debug, PartialEq, Eq, Structural, Hash)]
pub struct Color(pub u8, pub u8, pub u8);

/// RGB Black.
pub fn black() -> (c: Color)
    ensures
        c == (Color(0, 0, 0)),
{
    Color(0, 0, 0)
}

/// RGB White.
pub fn white() -> (c: Color)
    ensures
        c == (Color(255, 255, 255)),
{
    Color(255, 255, 255)
}

/// RGB Red.
pub fn pure_red() -> (c: Color)
    ensures
        c == (Color(255, 0, 0)),
{
    Color(255, 0, 0)
}

/// RGB Green.
pub fn pure_green() -> (c: Color)
    ensures
        c == (Color(0, 255, 0)),
{
    Color(0, 255, 0)
}

/// RGB Blue.
pub fn pure_blue() -> (c: Color)
    ensures
        c == (Color(0, 0, 255)),
{
    Color(0, 0, 255)
}

/// RGB Yellow.
pub fn yellow() -> (c: Color)
    ensures
        c == (Color(255, 255, 0)),
{
    Color(255, 255, 0)
}

/// RGB Cyan.
pub fn cyan() -> (c: Color)
    ensures
        c == (Color(0, 255, 255)),
{
    Color(0, 255, 255)
}

/// RGB Magenta.
pub fn magenta() -> (c: Color)
    ensures
        c == (Color(255, 0, 255)),
{
    Color(255, 0, 255)
}

/// An integer clamped to the largest 8-bit value.
pub open spec fn cap_255(x: int) -> int {
    if x > 255 {
        255
    } else {
        x
    }
}

/// An integer clamped to the largest 16-bit value.
pub open spec fn cap_65535(x: int) -> int {
    if x > 65535 {
        65535
    } else {
        x
    }
}

/// The hue sector, 0 to 5: which of the six 43-wide arcs of the color
/// circle the hue falls in.
pub open spec fn hue_region(hue: u8) -> int {
    hue as int / 43
}

/// The position within the hue sector, scaled back up to a 0-255 range.
pub open spec fn hue_fraction(hue: u8) -> int {
    (hue as int % 43) * 6
}

/// The channel triple that HSV inputs convert to.
///
/// Zero saturation yields the greyscale triple of the value. Otherwise the
/// classic fixed-point auxiliary quantities `p`, `q` and `t` are computed
/// with floor division by 256, and the hue sector selects the channel
/// ordering.
pub open spec fn hsv_rgb(hue: u8, saturation: u8, value: u8) -> (int, int, int) {
    if saturation == 0 {
        (value as int, value as int, value as int)
    } else {
        let f = hue_fraction(hue);
        let v = value as int;
        let s = saturation as int;
        let p = v * (255 - s) / 256;
        let q = v * (255 - s * f / 256) / 256;
        let t = v * (255 - s * (255 - f) / 256) / 256;
        let region = hue_region(hue);
        if region == 0 {
            (v, t, p)
        } else if region == 1 {
            (q, v, p)
        } else if region == 2 {
            (p, v, t)
        } else if region == 3 {
            (p, q, v)
        } else if region == 4 {
            (t, p, v)
        } else {
            (v, p, q)
        }
    }
}

/// The channel triple that HSL inputs convert to.
///
/// Zero saturation yields the greyscale triple of the lightness. Otherwise
/// the chroma comes from an asymmetric branch on whether saturation is
/// below 128, the base level `m` is the lightness less half the chroma
/// (clamped at zero), and the channel values add the chroma contributions
/// onto `m` with saturation at 255; products of the chroma with the hue
/// fraction saturate at the 16-bit boundary before the floor division by
/// 256.
pub open spec fn hsl_rgb(hue: u8, saturation: u8, lightness: u8) -> (int, int, int) {
    if saturation == 0 {
        (lightness as int, lightness as int, lightness as int)
    } else {
        let f = hue_fraction(hue);
        let s = saturation as int;
        let l = lightness as int;
        let chroma = if saturation < 128 {
            s * l / 128
        } else {
            s * (255 - l) / 128
        };
        let m = if l - chroma / 2 >= 0 {
            l - chroma / 2
        } else {
            0
        };
        let c = cap_255(chroma + m);
        let x1 = cap_255(cap_65535(chroma * f) / 256 + m);
        let x2 = cap_255(cap_65535(chroma * (255 - f)) / 256 + m);
        let region = hue_region(hue);
        if region == 0 {
            (c, x1, m)
        } else if region == 1 {
            (x2, c, m)
        } else if region == 2 {
            (m, c, x1)
        } else if region == 3 {
            (m, x2, c)
        } else if region == 4 {
            (x1, m, c)
        } else {
            (c, m, x2)
        }
    }
}

/// Addition of two 8-bit values, clamped to 255.
fn saturating_add_u8(a: u8, b: u8) -> (r: u8)
    ensures
        r as int == cap_255(a as int + b as int),
{
    let sum: u16 = a as u16 + b as u16;
    if sum > 255 {
        255
    } else {
        sum as u8
    }
}

/// Multiplication of two 16-bit values, clamped to 65535.
fn saturating_mul_u16(a: u16, b: u16) -> (r: u16)
    ensures
        r as int == cap_65535(a as int * b as int),
{
    proof {
        lemma_mul_upper_bound(a as int, 65535, b as int, 65535);
    }
    let wide: u32 = (a as u32) * (b as u32);
    if wide > 65535 {
        65535
    } else {
        wide as u16
    }
}

impl Color {
    /// The channel triple of this color as mathematical integers.
    pub open spec fn rgb(&self) -> (int, int, int) {
        (self.0 as int, self.1 as int, self.2 as int)
    }

    /// Create a new `Color` from red, green, and blue components.
    pub fn from_rgb(red: u8, green: u8, blue: u8) -> (c: Color)
        ensures
            c.rgb() == (red as int, green as int, blue as int),
    {
        Color(red, green, blue)
    }

    /// Create a new `Color` from hue, saturation, and value components.
    ///
    /// Hue is the angle on a circle, with 0 equal to 0 degrees and 255
    /// equal to 360 degrees. Saturation and value are percents, with 0
    /// equal to 0% and 255 equal to 100%.
    pub fn from_hsv(hue: u8, saturation: u8, value: u8) -> (c: Color)
        ensures
            c.rgb() == hsv_rgb(hue, saturation, value),
    {
        if saturation == 0 {
            // color is greyscale
            return Color(value, value, value);
        }
        // hue sector 0-5 and intra-sector position scaled to 0-255
        let region: u8 = hue / 43;
        let fpart: u8 = (hue % 43) * 6;

        let f: u16 = fpart as u16;
        let v: u16 = value as u16;
        let s: u16 = saturation as u16;

        proof {
            lemma_mul_upper_bound(v as int, 255, (255 - s) as int, 255);
            lemma_mul_upper_bound(s as int, 255, f as int, 255);
            lemma_mul_upper_bound(s as int, 255, (255 - f) as int, 255);
        }
        let p: u8 = ((v * (255 - s)) / 256) as u8;
        let sf: u16 = (s * f) / 256;
        let sg: u16 = (s * (255 - f)) / 256;
        proof {
            lemma_mul_upper_bound(v as int, 255, (255 - sf) as int, 255);
            lemma_mul_upper_bound(v as int, 255, (255 - sg) as int, 255);
        }
        let q: u8 = ((v * (255 - sf)) / 256) as u8;
        let t: u8 = ((v * (255 - sg)) / 256) as u8;

        match region {
            0 => Color(value, t, p),
            1 => Color(q, value, p),
            2 => Color(p, value, t),
            3 => Color(p, q, value),
            4 => Color(t, p, value),
            _ => Color(value, p, q),
        }
    }

    /// Create a new `Color` from hue, saturation, and lightness components.
    ///
    /// Hue is the angle on a circle, with 0 equal to 0 degrees and 255
    /// equal to 360 degrees. Saturation and lightness are percents, with 0
    /// equal to 0% and 255 equal to 100%.
    pub fn from_hsl(hue: u8, saturation: u8, lightness: u8) -> (c: Color)
        ensures
            c.rgb() == hsl_rgb(hue, saturation, lightness),
    {
        if saturation == 0 {
            // color is greyscale
            return Color(lightness, lightness, lightness);
        }
        // hue sector 0-5 and intra-sector position scaled to 0-255
        let region: u8 = hue / 43;
        let fpart: u8 = (hue % 43) * 6;

        let f: u16 = fpart as u16;
        let l: u16 = lightness as u16;
        let s: u16 = saturation as u16;

        proof {
            lemma_mul_upper_bound(s as int, 255, l as int, 255);
            lemma_mul_upper_bound(s as int, 255, (255 - l) as int, 255);
        }
        let chroma: u16 = if saturation < 128 {
            (s * l) / 128
        } else {
            (s * (255 - l)) / 128
        };

        let half: u16 = chroma / 2;
        let m: u8 = if l >= half {
            (l - half) as u8
        } else {
            0
        };
        let chroma_sum: u16 = chroma + (m as u16);
        let c0: u8 = if chroma_sum > 255 {
            255
        } else {
            chroma_sum as u8
        };
        let x1: u8 = saturating_add_u8((saturating_mul_u16(chroma, f) / 256) as u8, m);
        let x2: u8 = saturating_add_u8((saturating_mul_u16(chroma, 255 - f) / 256) as u8, m);

        match region {
            0 => Color(c0, x1, m),
            1 => Color(x2, c0, m),
            2 => Color(m, c0, x1),
            3 => Color(m, x2, c0),
            4 => Color(x1, m, c0),
            _ => Color(c0, m, x2),
        }
    }

    /// The red component.
    pub fn red(&self) -> (r: u8)
        ensures
            r == self.0,
    {
        self.0
    }

    /// The green component.
    pub fn green(&self) -> (r: u8)
        ensures
            r == self.1,
    {
        self.1
    }

    /// The blue component.
    pub fn blue(&self) -> (r: u8)
        ensures
            r == self.2,
    {
        self.2
    }
}

/// A zero-saturation conversion is greyscale: for every hue, both HSV and
/// HSL inputs with saturation 0 convert to the triple that repeats the
/// value or lightness on all three channels.
pub proof fn lemma_greyscale_conversions(hue: u8, level: u8)
    ensures
        hsv_rgb(hue, 0, level) == (level as int, level as int, level as int),
        hsl_rgb(hue, 0, level) == (level as int, level as int, level as int),
{
}

} // verus!
