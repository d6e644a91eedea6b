//! The sampled colour and its textual forms.

use vstd::prelude::*;
use crate::error::CaptureError;
use crate::text::{decimal_text, hex_pair_text, push_decimal, push_hex_pair};

verus! {

/// The integer nearest to `num / den`; a tie goes to the larger one.
pub open spec fn round_ratio(num: int, den: int) -> int
    recommends
        0 <= num,
        0 < den,
{
    (2 * num + den) / (2 * den)
}

/// The largest of the three channels.
pub open spec fn max_channel(r: u8, g: u8, b: u8) -> int {
    if r >= g && r >= b {
        r as int
    } else if g >= b {
        g as int
    } else {
        b as int
    }
}

/// Cyan, magenta, yellow and key of a colour, each as a whole percentage.
///
/// Black is `(0, 0, 0, 100)`. For any other colour, with `max` the largest
/// channel, the key is `(255 - max) / 255` and each of the other three is
/// `(max - channel) / max`, as percentages rounded to the nearest integer.
pub open spec fn cmyk_percent(r: u8, g: u8, b: u8) -> (int, int, int, int) {
    let max = max_channel(r, g, b);
    if max == 0 {
        (0, 0, 0, 100)
    } else {
        (
            round_ratio(100 * (max - r), max),
            round_ratio(100 * (max - g), max),
            round_ratio(100 * (max - b), max),
            round_ratio(100 * (255 - max), 255),
        )
    }
}

/// `#RRGGBB`, upper-case.
pub open spec fn hex_text(r: u8, g: u8, b: u8) -> Seq<char> {
    seq!['#'] + hex_pair_text(r) + hex_pair_text(g) + hex_pair_text(b)
}

/// `rgb(R, G, B)`, the channels in decimal.
pub open spec fn rgb_text(r: u8, g: u8, b: u8) -> Seq<char> {
    seq!['r', 'g', 'b', '('] + decimal_text(r as nat) + seq![',', ' '] + decimal_text(g as nat)
        + seq![',', ' '] + decimal_text(b as nat) + seq![')']
}

/// `cmyk(C%, M%, Y%, K%)`, the percentages in decimal.
pub open spec fn cmyk_text(r: u8, g: u8, b: u8) -> Seq<char> {
    let (c, m, y, k) = cmyk_percent(r, g, b);
    seq!['c', 'm', 'y', 'k', '('] + decimal_text(c as nat) + seq!['%', ',', ' '] + decimal_text(
        m as nat,
    ) + seq!['%', ',', ' '] + decimal_text(y as nat) + seq!['%', ',', ' '] + decimal_text(k as nat)
        + seq!['%', ')']
}

/// `round_ratio` is the nearest integer: it lies within one half of the
/// ratio, and takes the upper of two that are equally near.
pub proof fn lemma_round_ratio_nearest(num: int, den: int)
    requires
        0 <= num,
        0 < den,
    ensures
        2 * den * round_ratio(num, den) - den <= 2 * num < 2 * den * round_ratio(num, den) + den,
        0 <= round_ratio(num, den),
{
    let q = round_ratio(num, den);
    let n = 2 * num + den;
    let d = 2 * den;
    vstd::arithmetic::div_mod::lemma_fundamental_div_mod(n, d);
    vstd::arithmetic::div_mod::lemma_mod_bound(n, d);
    assert(n == d * q + n % d);
    assert(d * q == 2 * den * q) by (nonlinear_arith)
        requires
            d == 2 * den,
    ;
    if q < 0 {
        assert(d * q <= -d) by (nonlinear_arith)
            requires
                q <= -1,
                d > 0,
        ;
    }
}

/// Every component of `cmyk_percent` is a percentage.
pub proof fn lemma_cmyk_percent_range(r: u8, g: u8, b: u8)
    ensures
        0 <= cmyk_percent(r, g, b).0 <= 100,
        0 <= cmyk_percent(r, g, b).1 <= 100,
        0 <= cmyk_percent(r, g, b).2 <= 100,
        0 <= cmyk_percent(r, g, b).3 <= 100,
{
    let max = max_channel(r, g, b);
    if max != 0 {
        lemma_percent_of_part(max - r, max);
        lemma_percent_of_part(max - g, max);
        lemma_percent_of_part(max - b, max);
        lemma_percent_of_part(255 - max, 255);
    }
}

proof fn lemma_percent_of_part(part: int, whole: int)
    requires
        0 <= part <= whole,
        0 < whole,
    ensures
        0 <= round_ratio(100 * part, whole) <= 100,
{
    lemma_round_ratio_nearest(100 * part, whole);
    let q = round_ratio(100 * part, whole);
    if q > 100 {
        assert(2 * whole * q >= 2 * whole * 101) by (nonlinear_arith)
            requires
                q >= 101,
                whole > 0,
        ;
    }
}

/// RGB to CMYK, as whole percentages `(c, m, y, k)`.
pub fn rgb_to_cmyk(r: u8, g: u8, b: u8) -> (out: (u8, u8, u8, u8))
    ensures
        (out.0 as int, out.1 as int, out.2 as int, out.3 as int) == cmyk_percent(r, g, b),
        out.0 <= 100 && out.1 <= 100 && out.2 <= 100 && out.3 <= 100,
{
    proof {
        lemma_cmyk_percent_range(r, g, b);
    }
    if r == 0 && g == 0 && b == 0 {
        return (0, 0, 0, 100);
    }
    let max: u32 = if r >= g && r >= b {
        r as u32
    } else if g >= b {
        g as u32
    } else {
        b as u32
    };
    let c: u32 = (200 * (max - r as u32) + max) / (2 * max);
    let m: u32 = (200 * (max - g as u32) + max) / (2 * max);
    let y: u32 = (200 * (max - b as u32) + max) / (2 * max);
    let k: u32 = (200 * (255 - max) + 255) / 510;
    (c as u8, m as u8, y as u8, k as u8)
}

/// A sampled colour: its three channels and the three texts derived from
/// them. The texts are always those of the channels.
#[derive(Debug)]
pub struct PixelColor {
    r: u8,
    g: u8,
    b: u8,
    hex: String,
    rgb: String,
    cmyk: String,
}

impl View for PixelColor {
    type V = (u8, u8, u8);

    closed spec fn view(&self) -> (u8, u8, u8) {
        (self.r, self.g, self.b)
    }
}

impl Clone for PixelColor {
    fn clone(&self) -> (out: Self)
        ensures
            out@ == self@,
            out.texts() == self.texts(),
    {
        proof {
            use_type_invariant(self);
        }
        PixelColor {
            r: self.r,
            g: self.g,
            b: self.b,
            hex: self.hex.clone(),
            rgb: self.rgb.clone(),
            cmyk: self.cmyk.clone(),
        }
    }
}

impl PixelColor {
    #[verifier::type_invariant]
    spec fn texts_follow_channels(self) -> bool {
        &&& self.hex@ == hex_text(self.r, self.g, self.b)
        &&& self.rgb@ == rgb_text(self.r, self.g, self.b)
        &&& self.cmyk@ == cmyk_text(self.r, self.g, self.b)
    }

    /// The three texts that the colour carries: hex, rgb and cmyk.
    pub closed spec fn texts(&self) -> (Seq<char>, Seq<char>, Seq<char>) {
        (self.hex@, self.rgb@, self.cmyk@)
    }

    /// Red channel.
    pub fn r(&self) -> (v: u8)
        ensures
            v == self@.0,
    {
        self.r
    }

    /// Green channel.
    pub fn g(&self) -> (v: u8)
        ensures
            v == self@.1,
    {
        self.g
    }

    /// Blue channel.
    pub fn b(&self) -> (v: u8)
        ensures
            v == self@.2,
    {
        self.b
    }

    /// `#RRGGBB`.
    pub fn hex(&self) -> (s: &str)
        ensures
            s@ == self.texts().0,
            s@ == hex_text(self@.0, self@.1, self@.2),
    {
        proof {
            use_type_invariant(self);
        }
        self.hex.as_str()
    }

    /// `rgb(R, G, B)`.
    pub fn rgb(&self) -> (s: &str)
        ensures
            s@ == self.texts().1,
            s@ == rgb_text(self@.0, self@.1, self@.2),
    {
        proof {
            use_type_invariant(self);
        }
        self.rgb.as_str()
    }

    /// `cmyk(C%, M%, Y%, K%)`.
    pub fn cmyk(&self) -> (s: &str)
        ensures
            s@ == self.texts().2,
            s@ == cmyk_text(self@.0, self@.1, self@.2),
    {
        proof {
            use_type_invariant(self);
        }
        self.cmyk.as_str()
    }
}

/// Builds the colour of the channels `r`, `g`, `b`, with its texts. It
/// never fails.
pub fn build_pixel_color(r: u8, g: u8, b: u8) -> (out: Result<PixelColor, CaptureError>)
    ensures
        out is Ok,
        out->Ok_0@ == (r, g, b),
        out->Ok_0.texts() == (hex_text(r, g, b), rgb_text(r, g, b), cmyk_text(r, g, b)),
{
    let mut hex = String::new();
    hex.push('#');
    push_hex_pair(&mut hex, r);
    push_hex_pair(&mut hex, g);
    push_hex_pair(&mut hex, b);

    let mut rgb = String::new();
    rgb.push('r');
    rgb.push('g');
    rgb.push('b');
    rgb.push('(');
    push_decimal(&mut rgb, r as u32);
    rgb.push(',');
    rgb.push(' ');
    push_decimal(&mut rgb, g as u32);
    rgb.push(',');
    rgb.push(' ');
    push_decimal(&mut rgb, b as u32);
    rgb.push(')');

    let (c, m, y, k) = rgb_to_cmyk(r, g, b);
    let mut cmyk = String::new();
    cmyk.push('c');
    cmyk.push('m');
    cmyk.push('y');
    cmyk.push('k');
    cmyk.push('(');
    push_decimal(&mut cmyk, c as u32);
    cmyk.push('%');
    cmyk.push(',');
    cmyk.push(' ');
    push_decimal(&mut cmyk, m as u32);
    cmyk.push('%');
    cmyk.push(',');
    cmyk.push(' ');
    push_decimal(&mut cmyk, y as u32);
    cmyk.push('%');
    cmyk.push(',');
    cmyk.push(' ');
    push_decimal(&mut cmyk, k as u32);
    cmyk.push('%');
    cmyk.push(')');

    assert(hex@ =~= hex_text(r, g, b));
    assert(rgb@ =~= rgb_text(r, g, b));
    assert(cmyk@ =~= cmyk_text(r, g, b));
    Ok(PixelColor { r, g, b, hex, rgb, cmyk })
}

} // verus!
