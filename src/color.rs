//! The color model: a color stored as hue, saturation, brightness and alpha
//! in fixed point, and every other form (RGB bytes, hex, HSL, HWB, CMYK and
//! their text) derived from it on read.
use vstd::prelude::*;
use crate::utils::{chars_of, decimal, hex_byte, push_decimal, push_hex_byte};

verus! {

/// A full turn of hue, in hundredths of a degree.
pub const HUE_TURN: u32 = 36000;

/// The fixed-point value of one: saturation, brightness and alpha are stored
/// in ten-thousandths.
pub const FULL: u32 = 10000;

/// Hue `h` (hundredths of a degree) wrapped into `[0, HUE_TURN)`.
pub open spec fn wrap_hue(h: int) -> int {
    h % (HUE_TURN as int)
}

/// `x` clamped into `[0, FULL]`.
pub open spec fn clamp_unit(x: int) -> int {
    if x < 0 {
        0
    } else if x > FULL as int {
        FULL as int
    } else {
        x
    }
}

/// Wraps a hue given in hundredths of a degree into `[0, HUE_TURN)`.
pub fn normalize_hue(h: i64) -> (r: u32)
    ensures
        r < HUE_TURN,
        r as int == wrap_hue(h as int),
{
    let m: i64 = h % (HUE_TURN as i64);
    let r: i64 = if m < 0 { m + HUE_TURN as i64 } else { m };
    r as u32
}

/// Clamps a fixed-point fraction into `[0, FULL]`.
pub fn clamp01(x: i64) -> (r: u32)
    ensures
        r <= FULL,
        r as int == clamp_unit(x as int),
{
    if x < 0 {
        0
    } else if x > FULL as i64 {
        FULL
    } else {
        x as u32
    }
}


/// Wrapping a hue always lands in `[0, HUE_TURN)`, and hues that differ by
/// whole turns wrap to the same value.
pub proof fn lemma_wrap_hue_turns(h: int, k: int)
    ensures
        0 <= wrap_hue(h) < HUE_TURN,
        wrap_hue(h + (HUE_TURN as int) * k) == wrap_hue(h),
{
    vstd::arithmetic::div_mod::lemma_mod_multiples_vanish(k, h, HUE_TURN as int);
    assert(h + (HUE_TURN as int) * k == (HUE_TURN as int) * k + h) by (nonlinear_arith);
}

/// Clamping a clamped value changes nothing.
pub proof fn lemma_clamp_idempotent(x: int)
    ensures
        0 <= clamp_unit(x) <= FULL,
        clamp_unit(clamp_unit(x)) == clamp_unit(x),
{
}

/// A color in HSV form: the one stored representation, from which every other
/// form is derived on read.
///
/// `hue` is in hundredths of a degree; `saturation`, `brightness` and `alpha`
/// are fractions in ten-thousandths.
#[derive(Clone, Copy, Debug, PartialEq, Eq, Structural)]
pub struct Color {
    pub hue: u32,
    pub saturation: u32,
    pub brightness: u32,
    pub alpha: u32,
}

impl Color {
    /// Hue wrapped, the three fractions clamped.
    pub open spec fn wf(self) -> bool {
        &&& self.hue < HUE_TURN
        &&& self.saturation <= FULL
        &&& self.brightness <= FULL
        &&& self.alpha <= FULL
    }

    pub open spec fn new_spec(hue: i64, saturation: i64, brightness: i64, alpha: i64) -> Color {
        Color {
            hue: wrap_hue(hue as int) as u32,
            saturation: clamp_unit(saturation as int) as u32,
            brightness: clamp_unit(brightness as int) as u32,
            alpha: clamp_unit(alpha as int) as u32,
        }
    }

    /// Builds a color from possibly out-of-range components: the hue is
    /// wrapped, never clamped; saturation, brightness and alpha are clamped.
    pub fn new(hue: i64, saturation: i64, brightness: i64, alpha: i64) -> (c: Color)
        ensures
            c.wf(),
            c.hue == wrap_hue(hue as int),
            c.saturation == clamp_unit(saturation as int),
            c.brightness == clamp_unit(brightness as int),
            c.alpha == clamp_unit(alpha as int),
            c == Color::new_spec(hue, saturation, brightness, alpha),
    {
        Color {
            hue: normalize_hue(hue),
            saturation: clamp01(saturation),
            brightness: clamp01(brightness),
            alpha: clamp01(alpha),
        }
    }

    /// The red, green and blue bytes of this color.
    pub fn to_rgb(&self) -> (rgb: (u8, u8, u8))
        requires
            self.wf(),
        ensures
            rgb == hsv_rgb(self.hue as int, self.saturation as int, self.brightness as int),
    {
        hsv_to_rgb(self.hue, self.saturation, self.brightness)
    }
}

/// The common denominator of the HSV to RGB arithmetic: a channel of value
/// `t` stands for the real `t / RGB_DENOM`. It is `FULL * FULL * SECTOR`.
pub const RGB_DENOM: u64 = 600_000_000_000;

/// One sixth of a turn of hue, in hundredths of a degree.
pub const SECTOR: u32 = 6000;

/// `t / RGB_DENOM` scaled to `[0, 255]` and rounded half up.
pub open spec fn to_byte(t: int) -> int {
    (255 * t + RGB_DENOM as int / 2) / (RGB_DENOM as int)
}

/// The six-sector HSV to RGB conversion, exact up to the final rounding:
/// chroma `c = v * s`, second component `x = c * (1 - |(h / 60) mod 2 - 1|)`,
/// offset `m = v - c`; the sector `h / 60` orders `(c, x, 0)` into red,
/// green and blue before `m` is added.
pub open spec fn hsv_rgb(h: int, s: int, v: int) -> (u8, u8, u8) {
    let sector = h / SECTOR as int;
    let f = h % SECTOR as int;
    let c = v * s * SECTOR as int;
    let x = if sector % 2 == 0 { v * s * f } else { v * s * (SECTOR as int - f) };
    let m = v * (FULL as int) * (SECTOR as int) - c;
    let (r, g, b) = if sector == 0 {
        (c, x, 0)
    } else if sector == 1 {
        (x, c, 0)
    } else if sector == 2 {
        (0, c, x)
    } else if sector == 3 {
        (0, x, c)
    } else if sector == 4 {
        (x, 0, c)
    } else {
        (c, 0, x)
    };
    (to_byte(r + m) as u8, to_byte(g + m) as u8, to_byte(b + m) as u8)
}

proof fn lemma_to_byte_bound(t: int)
    requires
        0 <= t <= RGB_DENOM as int,
    ensures
        0 <= to_byte(t) <= 255,
{
    assert(255 * t + RGB_DENOM as int / 2 < 256 * (RGB_DENOM as int)) by (nonlinear_arith)
        requires
            0 <= t <= RGB_DENOM as int,
    ;
}

fn channel_byte(t: u64) -> (r: u8)
    requires
        t <= RGB_DENOM,
    ensures
        r as int == to_byte(t as int),
{
    proof {
        lemma_to_byte_bound(t as int);
    }
    ((255 * t + RGB_DENOM / 2) / RGB_DENOM) as u8
}

/// Converts hue (hundredths of a degree), saturation and value
/// (ten-thousandths) to red, green and blue bytes.
pub fn hsv_to_rgb(h: u32, s: u32, v: u32) -> (rgb: (u8, u8, u8))
    requires
        h < HUE_TURN,
        s <= FULL,
        v <= FULL,
    ensures
        rgb == hsv_rgb(h as int, s as int, v as int),
{
    let sector: u32 = h / SECTOR;
    let f: u32 = h % SECTOR;
    assert(v * s <= FULL * FULL) by (nonlinear_arith)
        requires
            v <= FULL,
            s <= FULL,
    ;
    let vs: u64 = v as u64 * s as u64;
    let c: u64 = vs * SECTOR as u64;
    assert(vs * f <= vs * SECTOR && vs * (SECTOR - f) <= vs * SECTOR) by (nonlinear_arith)
        requires
            f < SECTOR,
    ;
    let x: u64 = if sector % 2 == 0 { vs * f as u64 } else { vs * (SECTOR - f) as u64 };
    assert(x <= c) by (nonlinear_arith)
        requires
            x == vs * f || x == vs * (SECTOR - f),
            c == vs * SECTOR,
            f < SECTOR,
    ;
    let full_v: u64 = v as u64 * FULL as u64 * SECTOR as u64;
    assert(c <= full_v) by (nonlinear_arith)
        requires
            c == v * s * SECTOR,
            full_v == v * FULL * SECTOR,
            s <= FULL,
    ;
    assert(full_v <= RGB_DENOM) by (nonlinear_arith)
        requires
            full_v == v * FULL * SECTOR,
            v <= FULL,
    ;
    let m: u64 = full_v - c;
    let (r, g, b): (u64, u64, u64) = if sector == 0 {
        (c, x, 0)
    } else if sector == 1 {
        (x, c, 0)
    } else if sector == 2 {
        (0, c, x)
    } else if sector == 3 {
        (0, x, c)
    } else if sector == 4 {
        (x, 0, c)
    } else {
        (c, 0, x)
    };
    (channel_byte(r + m), channel_byte(g + m), channel_byte(b + m))
}


/// `n / d` rounded half up.
pub open spec fn round_div(n: int, d: int) -> int {
    (2 * n + d) / (2 * d)
}

fn round_div_exec(n: u64, d: u64) -> (r: u64)
    requires
        d > 0,
        n <= 1_000_000_000,
        d <= 1_000_000_000,
    ensures
        r as int == round_div(n as int, d as int),
{
    (2 * n + d) / (2 * d)
}

pub open spec fn max3(r: int, g: int, b: int) -> int {
    if r >= g && r >= b {
        r
    } else if g >= b {
        g
    } else {
        b
    }
}

pub open spec fn min3(r: int, g: int, b: int) -> int {
    if r <= g && r <= b {
        r
    } else if g <= b {
        g
    } else {
        b
    }
}

/// The hue of a red, green, blue triple, in hundredths of a degree, by the
/// max/min chroma construction that HSV, HSL and HWB share: zero for a gray,
/// else sixty degrees times the position between the two channels next to
/// the largest one, rounded half up and wrapped into `[0, HUE_TURN)`.
pub open spec fn rgb_hue(r: int, g: int, b: int) -> int {
    let hi = max3(r, g, b);
    let delta = hi - min3(r, g, b);
    if delta == 0 {
        0
    } else {
        let pos = if hi == r {
            if g >= b {
                g - b
            } else {
                g - b + 6 * delta
            }
        } else if hi == g {
            b - r + 2 * delta
        } else {
            r - g + 4 * delta
        };
        round_div(SECTOR as int * pos, delta) % HUE_TURN as int
    }
}

/// Hue, saturation and lightness of a red, green, blue triple; saturation and
/// lightness in ten-thousandths, rounded half up.
pub open spec fn rgb_hsl(r: int, g: int, b: int) -> (u32, u32, u32) {
    let hi = max3(r, g, b);
    let lo = min3(r, g, b);
    let delta = hi - lo;
    let l = round_div((hi + lo) * FULL as int, 510);
    let span = if hi + lo >= 255 { 510 - hi - lo } else { hi + lo };
    let s = if delta == 0 { 0 } else { round_div(delta * FULL as int, span) };
    (rgb_hue(r, g, b) as u32, s as u32, l as u32)
}

/// Hue, whiteness and blackness of a red, green, blue triple: whiteness is
/// `min / 255`, blackness `1 - max / 255`, both in ten-thousandths.
pub open spec fn rgb_hwb(r: int, g: int, b: int) -> (u32, u32, u32) {
    let w = round_div(min3(r, g, b) * FULL as int, 255);
    let k = round_div((255 - max3(r, g, b)) * FULL as int, 255);
    (rgb_hue(r, g, b) as u32, w as u32, k as u32)
}

/// Cyan, magenta, yellow and key of a red, green, blue triple, in
/// ten-thousandths: `k = 1 - max / 255`; for black (`k = 1`) the other three
/// are zero, else `c = (1 - r / 255 - k) / (1 - k)`, which is
/// `(max - r) / max`, and likewise for magenta and yellow.
pub open spec fn rgb_cmyk(r: int, g: int, b: int) -> (u32, u32, u32, u32) {
    let hi = max3(r, g, b);
    let k = round_div((255 - hi) * FULL as int, 255);
    if hi == 0 {
        (0, 0, 0, k as u32)
    } else {
        (
            round_div((hi - r) * FULL as int, hi) as u32,
            round_div((hi - g) * FULL as int, hi) as u32,
            round_div((hi - b) * FULL as int, hi) as u32,
            k as u32,
        )
    }
}

fn max_u8(r: u8, g: u8, b: u8) -> (m: u8)
    ensures
        m == max3(r as int, g as int, b as int),
{
    if r >= g && r >= b {
        r
    } else if g >= b {
        g
    } else {
        b
    }
}

fn min_u8(r: u8, g: u8, b: u8) -> (m: u8)
    ensures
        m == min3(r as int, g as int, b as int),
{
    if r <= g && r <= b {
        r
    } else if g <= b {
        g
    } else {
        b
    }
}

/// The hue of a red, green, blue triple, in hundredths of a degree.
pub fn rgb_to_hue(r: u8, g: u8, b: u8) -> (h: u32)
    ensures
        h as int == rgb_hue(r as int, g as int, b as int),
        h < HUE_TURN,
{
    let hi = max_u8(r, g, b);
    let lo = min_u8(r, g, b);
    let delta: u64 = (hi - lo) as u64;
    if delta == 0 {
        return 0;
    }
    let (r, g, b) = (r as u64, g as u64, b as u64);
    let pos: u64 = if hi as u64 == r {
        if g >= b {
            g - b
        } else {
            6 * delta + g - b
        }
    } else if hi as u64 == g {
        2 * delta + b - r
    } else {
        4 * delta + r - g
    };
    assert(SECTOR * pos <= 10_000_000) by (nonlinear_arith)
        requires
            pos <= 6 * delta,
            delta <= 255,
    ;
    (round_div_exec(SECTOR as u64 * pos, delta) % HUE_TURN as u64) as u32
}

/// Hue (hundredths of a degree), saturation and lightness (ten-thousandths)
/// of a red, green, blue triple.
pub fn rgb_to_hsl(r: u8, g: u8, b: u8) -> (hsl: (u32, u32, u32))
    ensures
        hsl == rgb_hsl(r as int, g as int, b as int),
{
    let hi = max_u8(r, g, b) as u64;
    let lo = min_u8(r, g, b) as u64;
    let delta: u64 = hi - lo;
    assert((hi + lo) * FULL <= 10_000_000 && delta * FULL <= 10_000_000) by (nonlinear_arith)
        requires
            hi <= 255,
            lo <= hi,
            delta == hi - lo,
    ;
    let l = round_div_exec((hi + lo) * FULL as u64, 510);
    let span: u64 = if hi + lo >= 255 { 510 - hi - lo } else { hi + lo };
    let s: u64 = if delta == 0 { 0 } else { round_div_exec(delta * FULL as u64, span) };
    (rgb_to_hue(r, g, b), s as u32, l as u32)
}

/// Hue (hundredths of a degree), whiteness and blackness (ten-thousandths) of
/// a red, green, blue triple.
pub fn rgb_to_hwb(r: u8, g: u8, b: u8) -> (hwb: (u32, u32, u32))
    ensures
        hwb == rgb_hwb(r as int, g as int, b as int),
{
    let hi = max_u8(r, g, b) as u64;
    let lo = min_u8(r, g, b) as u64;
    proof {
        lemma_round_fraction(lo as int, 255);
        lemma_round_fraction(255 - hi, 255);
    }
    let w = round_div_exec(lo * FULL as u64, 255);
    let k = round_div_exec((255 - hi) * FULL as u64, 255);
    (rgb_to_hue(r, g, b), w as u32, k as u32)
}

/// Cyan, magenta, yellow and key (ten-thousandths) of a red, green, blue
/// triple.
pub fn rgb_to_cmyk(r: u8, g: u8, b: u8) -> (cmyk: (u32, u32, u32, u32))
    ensures
        cmyk == rgb_cmyk(r as int, g as int, b as int),
{
    let hi = max_u8(r, g, b) as u64;
    proof {
        lemma_cmyk_bounds(r as int, g as int, b as int);
        lemma_round_fraction(255 - hi, 255);
    }
    let k = round_div_exec((255 - hi) * FULL as u64, 255);
    if hi == 0 {
        (0, 0, 0, k as u32)
    } else {
        proof {
            lemma_round_fraction(hi - r, hi as int);
            lemma_round_fraction(hi - g, hi as int);
            lemma_round_fraction(hi - b, hi as int);
        }
        let c = round_div_exec((hi - r as u64) * FULL as u64, hi);
        let m = round_div_exec((hi - g as u64) * FULL as u64, hi);
        let y = round_div_exec((hi - b as u64) * FULL as u64, hi);
        (c as u32, m as u32, y as u32, k as u32)
    }
}


/// The text forms a color can be rendered in.
#[allow(clippy::upper_case_acronyms)]
#[derive(Clone, Copy, Debug, PartialEq, Eq, Structural)]
pub enum ColorFormat {
    RGB,
    HSL,
    HSV,
    HEX,
    HWB,
    CMYK,
}

/// A fraction in ten-thousandths as a whole percentage, rounded half up,
/// with its percent sign.
pub open spec fn percent_text(x: int) -> Seq<char> {
    decimal(round_div(x, 100) as nat) + seq!['%']
}

/// A hue in hundredths of a degree as whole degrees, rounded half up and
/// wrapped into `[0, 360)`.
pub open spec fn degree_text(h: int) -> Seq<char> {
    decimal((round_div(h, 100) % 360) as nat)
}

/// `name(a, b, c)`.
pub open spec fn triple_text(name: Seq<char>, a: Seq<char>, b: Seq<char>, c: Seq<char>) -> Seq<
    char,
> {
    name + seq!['('] + a + seq![',', ' '] + b + seq![',', ' '] + c + seq![')']
}

/// `#rrggbb`, two lowercase hexadecimal digits per channel.
pub open spec fn hex_text(r: u8, g: u8, b: u8) -> Seq<char> {
    seq!['#'] + hex_byte(r) + hex_byte(g) + hex_byte(b)
}

/// `rgb(r, g, b)` with the bytes in decimal.
pub open spec fn rgb_text(r: u8, g: u8, b: u8) -> Seq<char> {
    triple_text(seq!['r', 'g', 'b'], decimal(r as nat), decimal(g as nat), decimal(b as nat))
}

/// `hsl(h, s%, l%)` of a red, green, blue triple.
pub open spec fn hsl_text(r: u8, g: u8, b: u8) -> Seq<char> {
    let (h, s, l) = rgb_hsl(r as int, g as int, b as int);
    triple_text(
        seq!['h', 's', 'l'],
        degree_text(h as int),
        percent_text(s as int),
        percent_text(l as int),
    )
}

/// `hsv(h, s%, v%)` of the stored fields of a color.
pub open spec fn hsv_text(c: Color) -> Seq<char> {
    triple_text(
        seq!['h', 's', 'v'],
        degree_text(c.hue as int),
        percent_text(c.saturation as int),
        percent_text(c.brightness as int),
    )
}

/// `hwb(h, w%, b%)` of a red, green, blue triple.
pub open spec fn hwb_text(r: u8, g: u8, b: u8) -> Seq<char> {
    let (h, w, k) = rgb_hwb(r as int, g as int, b as int);
    triple_text(
        seq!['h', 'w', 'b'],
        degree_text(h as int),
        percent_text(w as int),
        percent_text(k as int),
    )
}

/// `cmyk(c%, m%, y%, k%)` of a red, green, blue triple.
pub open spec fn cmyk_text(r: u8, g: u8, b: u8) -> Seq<char> {
    let (cy, m, y, k) = rgb_cmyk(r as int, g as int, b as int);
    triple_text(
        seq!['c', 'm', 'y', 'k'],
        percent_text(cy as int),
        percent_text(m as int),
        percent_text(y as int) + seq![',', ' '] + percent_text(k as int),
    )
}

/// The text of a color in a format. Every form but HSV is derived from the
/// color's bytes; HSV is read off the stored fields. Degrees and percentages
/// are whole numbers, rounded half up.
pub open spec fn format_text(c: Color, f: ColorFormat) -> Seq<char> {
    let (r, g, b) = hsv_rgb(c.hue as int, c.saturation as int, c.brightness as int);
    match f {
        ColorFormat::HEX => hex_text(r, g, b),
        ColorFormat::RGB => rgb_text(r, g, b),
        ColorFormat::HSL => hsl_text(r, g, b),
        ColorFormat::HSV => hsv_text(c),
        ColorFormat::HWB => hwb_text(r, g, b),
        ColorFormat::CMYK => cmyk_text(r, g, b),
    }
}

fn push_percent(s: &mut String, x: u32)
    requires
        x <= FULL,
    ensures
        final(s)@ == old(s)@ + percent_text(x as int),
{
    push_decimal(s, round_div_exec(x as u64, 100));
    s.push('%');
    proof {
        assert(final(s)@ =~= old(s)@ + percent_text(x as int));
    }
}

fn push_degrees(s: &mut String, h: u32)
    requires
        h < HUE_TURN,
    ensures
        final(s)@ == old(s)@ + degree_text(h as int),
{
    push_decimal(s, round_div_exec(h as u64, 100) % 360);
}

fn push_separator(s: &mut String)
    ensures
        final(s)@ == old(s)@ + seq![',', ' '],
{
    s.push(',');
    s.push(' ');
    proof {
        assert(final(s)@ =~= old(s)@ + seq![',', ' ']);
    }
}

fn push_name(s: &mut String, a: char, b: char, c: char)
    ensures
        final(s)@ == old(s)@ + seq![a, b, c],
{
    s.push(a);
    s.push(b);
    s.push(c);
    proof {
        assert(final(s)@ =~= old(s)@ + seq![a, b, c]);
    }
}

/// `#rrggbb` of a red, green, blue triple, in lowercase.
pub fn rgb_to_hex(r: u8, g: u8, b: u8) -> (t: String)
    ensures
        t@ == hex_text(r, g, b),
{
    let mut t = String::new();
    t.push('#');
    push_hex_byte(&mut t, r);
    push_hex_byte(&mut t, g);
    push_hex_byte(&mut t, b);
    proof {
        assert(t@ =~= hex_text(r, g, b));
    }
    t
}

/// `rgb(r, g, b)` of a red, green, blue triple.
pub fn rgb_to_rgb_string(r: u8, g: u8, b: u8) -> (t: String)
    ensures
        t@ == rgb_text(r, g, b),
{
    let mut t = String::new();
    push_name(&mut t, 'r', 'g', 'b');
    t.push('(');
    push_decimal(&mut t, r as u64);
    push_separator(&mut t);
    push_decimal(&mut t, g as u64);
    push_separator(&mut t);
    push_decimal(&mut t, b as u64);
    t.push(')');
    proof {
        assert(t@ =~= rgb_text(r, g, b));
    }
    t
}

/// `hsl(h, s%, l%)` of a red, green, blue triple.
pub fn rgb_to_hsl_string(r: u8, g: u8, b: u8) -> (t: String)
    ensures
        t@ == hsl_text(r, g, b),
{
    let (h, s, l) = rgb_to_hsl(r, g, b);
    proof {
        lemma_hsl_bounds(r as int, g as int, b as int);
    }
    let mut t = String::new();
    push_name(&mut t, 'h', 's', 'l');
    t.push('(');
    push_degrees(&mut t, h);
    push_separator(&mut t);
    push_percent(&mut t, s);
    push_separator(&mut t);
    push_percent(&mut t, l);
    t.push(')');
    proof {
        assert(t@ =~= hsl_text(r, g, b));
    }
    t
}

/// `hwb(h, w%, b%)` of a red, green, blue triple.
pub fn rgb_to_hwb_string(r: u8, g: u8, b: u8) -> (t: String)
    ensures
        t@ == hwb_text(r, g, b),
{
    let (h, w, k) = rgb_to_hwb(r, g, b);
    proof {
        lemma_hwb_bounds(r as int, g as int, b as int);
    }
    let mut t = String::new();
    push_name(&mut t, 'h', 'w', 'b');
    t.push('(');
    push_degrees(&mut t, h);
    push_separator(&mut t);
    push_percent(&mut t, w);
    push_separator(&mut t);
    push_percent(&mut t, k);
    t.push(')');
    proof {
        assert(t@ =~= hwb_text(r, g, b));
    }
    t
}

/// `cmyk(c%, m%, y%, k%)` of a red, green, blue triple.
pub fn rgb_to_cmyk_string(r: u8, g: u8, b: u8) -> (t: String)
    ensures
        t@ == cmyk_text(r, g, b),
{
    let (cy, m, y, k) = rgb_to_cmyk(r, g, b);
    proof {
        lemma_cmyk_bounds(r as int, g as int, b as int);
    }
    let mut t = String::new();
    t.push('c');
    push_name(&mut t, 'm', 'y', 'k');
    t.push('(');
    push_percent(&mut t, cy);
    push_separator(&mut t);
    push_percent(&mut t, m);
    push_separator(&mut t);
    push_percent(&mut t, y);
    push_separator(&mut t);
    push_percent(&mut t, k);
    t.push(')');
    proof {
        assert(t@ =~= cmyk_text(r, g, b));
    }
    t
}

impl Color {
    /// `hsv(h, s%, v%)` of this color's stored fields.
    pub fn to_hsv_string(&self) -> (t: String)
        requires
            self.wf(),
        ensures
            t@ == hsv_text(*self),
    {
        let mut t = String::new();
        push_name(&mut t, 'h', 's', 'v');
        t.push('(');
        push_degrees(&mut t, self.hue);
        push_separator(&mut t);
        push_percent(&mut t, self.saturation);
        push_separator(&mut t);
        push_percent(&mut t, self.brightness);
        t.push(')');
        proof {
            assert(t@ =~= hsv_text(*self));
        }
        t
    }

    /// The text of this color in the format `f`.
    pub fn format(&self, f: ColorFormat) -> (t: String)
        requires
            self.wf(),
        ensures
            t@ == format_text(*self, f),
    {
        let (r, g, b) = self.to_rgb();
        match f {
            ColorFormat::HEX => rgb_to_hex(r, g, b),
            ColorFormat::RGB => rgb_to_rgb_string(r, g, b),
            ColorFormat::HSL => rgb_to_hsl_string(r, g, b),
            ColorFormat::HSV => self.to_hsv_string(),
            ColorFormat::HWB => rgb_to_hwb_string(r, g, b),
            ColorFormat::CMYK => rgb_to_cmyk_string(r, g, b),
        }
    }
}

proof fn lemma_round_fraction(n: int, d: int)
    requires
        0 <= n <= d,
        d > 0,
    ensures
        0 <= n * FULL <= d * FULL,
        0 <= round_div(n * FULL as int, d) <= FULL,
{
    assert(0 <= n * 10000 <= d * 10000) by (nonlinear_arith)
        requires
            0 <= n <= d,
    ;
    assert(0 <= round_div(n * 10000, d) <= 10000) by (nonlinear_arith)
        requires
            0 <= n <= d,
            d > 0,
    ;
}

proof fn lemma_hsl_bounds(r: int, g: int, b: int)
    requires
        0 <= r <= 255,
        0 <= g <= 255,
        0 <= b <= 255,
    ensures
        rgb_hsl(r, g, b).0 < HUE_TURN,
        rgb_hsl(r, g, b).1 <= FULL,
        rgb_hsl(r, g, b).2 <= FULL,
{
    let hi = max3(r, g, b);
    let lo = min3(r, g, b);
    let span = if hi + lo >= 255 { 510 - hi - lo } else { hi + lo };
    lemma_round_fraction(hi + lo, 510);
    if hi - lo != 0 {
        lemma_round_fraction(hi - lo, span);
    }
}

proof fn lemma_hwb_bounds(r: int, g: int, b: int)
    requires
        0 <= r <= 255,
        0 <= g <= 255,
        0 <= b <= 255,
    ensures
        rgb_hwb(r, g, b).0 < HUE_TURN,
        rgb_hwb(r, g, b).1 <= FULL,
        rgb_hwb(r, g, b).2 <= FULL,
{
    lemma_round_fraction(min3(r, g, b), 255);
    lemma_round_fraction(255 - max3(r, g, b), 255);
}

proof fn lemma_cmyk_bounds(r: int, g: int, b: int)
    requires
        0 <= r <= 255,
        0 <= g <= 255,
        0 <= b <= 255,
    ensures
        rgb_cmyk(r, g, b).0 <= FULL,
        rgb_cmyk(r, g, b).1 <= FULL,
        rgb_cmyk(r, g, b).2 <= FULL,
        rgb_cmyk(r, g, b).3 <= FULL,
{
    let hi = max3(r, g, b);
    lemma_round_fraction(255 - hi, 255);
    if hi != 0 {
        lemma_round_fraction(hi - r, hi);
        lemma_round_fraction(hi - g, hi);
        lemma_round_fraction(hi - b, hi);
    }
}


/// The format a name selects: the upper-case name of a format selects it;
/// any other name falls back to HEX.
pub open spec fn format_named(name: Seq<char>) -> ColorFormat {
    if name == seq!['R', 'G', 'B'] {
        ColorFormat::RGB
    } else if name == seq!['H', 'S', 'L'] {
        ColorFormat::HSL
    } else if name == seq!['H', 'S', 'V'] {
        ColorFormat::HSV
    } else if name == seq!['H', 'W', 'B'] {
        ColorFormat::HWB
    } else if name == seq!['C', 'M', 'Y', 'K'] {
        ColorFormat::CMYK
    } else {
        ColorFormat::HEX
    }
}

fn spells(cs: &Vec<char>, word: &[char]) -> (r: bool)
    ensures
        r == (cs@ == word@),
{
    if cs.len() != word.len() {
        return false;
    }
    let mut i: usize = 0;
    while i < cs.len()
        invariant
            cs@.len() == word@.len(),
            i <= cs@.len(),
            forall|k: int| 0 <= k < i ==> cs@[k] == word@[k],
        decreases cs.len() - i,
    {
        if cs[i] != word[i] {
            return false;
        }
        i = i + 1;
    }
    proof {
        assert(cs@ =~= word@);
    }
    true
}

impl ColorFormat {
    /// The format a name selects, falling back to HEX for a name that is
    /// not one of `RGB`, `HSL`, `HSV`, `HEX`, `HWB`, `CMYK`.
    pub fn from_name(name: &str) -> (f: ColorFormat)
        ensures
            f == format_named(name@),
    {
        let cs = chars_of(name);
        if spells(&cs, &['R', 'G', 'B']) {
            ColorFormat::RGB
        } else if spells(&cs, &['H', 'S', 'L']) {
            ColorFormat::HSL
        } else if spells(&cs, &['H', 'S', 'V']) {
            ColorFormat::HSV
        } else if spells(&cs, &['H', 'W', 'B']) {
            ColorFormat::HWB
        } else if spells(&cs, &['C', 'M', 'Y', 'K']) {
            ColorFormat::CMYK
        } else {
            ColorFormat::HEX
        }
    }
}

} // verus!
