//! Pointer geometry: measured rectangles, and the maps between pointer
//! positions and hue or saturation/brightness, with their inverses that place
//! the cursor glyphs.
use vstd::prelude::*;
use crate::color::{clamp01, clamp_unit, normalize_hue, wrap_hue, FULL, HUE_TURN};

verus! {

/// A point in page coordinates.
#[derive(Clone, Copy, Debug, PartialEq, Eq, Structural)]
pub struct Point {
    pub x: i64,
    pub y: i64,
}

/// An axis-aligned rectangle in page coordinates: its top-left corner and
/// its size. The all-zero rectangle stands for a region not measured yet.
#[derive(Clone, Copy, Debug, PartialEq, Eq, Structural)]
pub struct BoundingRect {
    pub x: i64,
    pub y: i64,
    pub width: u32,
    pub height: u32,
}

impl BoundingRect {
    /// The rectangle of a region that has not been measured yet.
    pub fn zero() -> (r: BoundingRect)
        ensures
            r == (BoundingRect { x: 0, y: 0, width: 0, height: 0 }),
    {
        BoundingRect { x: 0, y: 0, width: 0, height: 0 }
    }

    /// A rectangle with an area: one that a pointer can be mapped through.
    pub open spec fn measured(self) -> bool {
        self.width > 0 && self.height > 0
    }

    /// Whether the rectangle has an area.
    pub fn is_measured(&self) -> (r: bool)
        ensures
            r == self.measured(),
    {
        self.width > 0 && self.height > 0
    }

    pub open spec fn holds(self, p: Point) -> bool {
        &&& self.x <= p.x <= self.x + self.width
        &&& self.y <= p.y <= self.y + self.height
    }

    /// Whether `p` lies in the rectangle, edges included.
    pub fn contains(&self, p: Point) -> (r: bool)
        ensures
            r == self.holds(p),
    {
        self.x <= p.x && (p.x as i128) <= self.x as i128 + self.width as i128 && self.y <= p.y
            && (p.y as i128) <= self.y as i128 + self.height as i128
    }
}

/// The side of the box that cursor glyphs are drawn in, in hundredths of
/// its unit: the box spans 100 units.
pub const VIEW_SPAN: u32 = 10000;

/// The turn applied to the raw pointer direction so that the hue ring's
/// gradient and the hues agree: ninety degrees, in hundredths.
pub const RING_OFFSET: u32 = 9000;

/// Horizontal glyph position for a saturation: `saturation * 100` units.
pub fn saturation_to_x_axis(saturation: u32) -> (x: u32)
    requires
        saturation <= FULL,
    ensures
        x == saturation * VIEW_SPAN / FULL as int,
{
    assert(saturation * VIEW_SPAN / FULL as int <= VIEW_SPAN) by (nonlinear_arith)
        requires
            saturation <= FULL,
    ;
    (saturation as u64 * VIEW_SPAN as u64 / FULL as u64) as u32
}

/// Vertical glyph position for a brightness: `100 - brightness * 100`
/// units, so full brightness sits at the top.
pub fn brightness_to_y_axis(brightness: u32) -> (y: u32)
    requires
        brightness <= FULL,
    ensures
        y == (FULL - brightness) * VIEW_SPAN / FULL as int,
{
    assert((FULL - brightness) * VIEW_SPAN / FULL as int <= VIEW_SPAN) by (nonlinear_arith)
        requires
            brightness <= FULL,
    ;
    ((FULL - brightness) as u64 * VIEW_SPAN as u64 / FULL as u64) as u32
}

/// Saturation at a horizontal position of the box, clamped to the box.
pub fn x_axis_to_saturation(x: i64) -> (saturation: u32)
    ensures
        saturation == clamp_unit(x * FULL / VIEW_SPAN as int),
{
    clamp01(x)
}

/// Brightness at a vertical position of the box, clamped to the box: one
/// at the top, zero at the bottom.
pub fn y_axis_to_brightness(y: i64) -> (brightness: u32)
    ensures
        brightness == FULL - clamp_unit(y * FULL / VIEW_SPAN as int),
{
    FULL - clamp01(y)
}

/// Position along the box for a page offset `local` from its corner, with
/// the box `width` wide: `local * 100 / width` units, floored.
pub open spec fn scaled(local: int, width: int) -> int {
    local * VIEW_SPAN as int / width
}

/// Saturation and brightness under a pointer at `p` over the box `rect`.
pub open spec fn sv_at(p: Point, rect: BoundingRect) -> (u32, u32) {
    let sx = scaled(p.x - rect.x, rect.width as int);
    let sy = scaled(p.y - rect.y, rect.width as int);
    (clamp_unit(sx) as u32, (FULL - clamp_unit(sy)) as u32)
}

fn scale_to_box(local: i128, width: u32) -> (r: i64)
    requires
        width > 0,
        -0x1_0000_0000_0000_0000 <= local <= 0x1_0000_0000_0000_0000,
    ensures
        clamp_unit(r as int) == clamp_unit(scaled(local as int, width as int)),
{
    if local <= 0 {
        assert(scaled(local as int, width as int) <= 0) by (nonlinear_arith)
            requires
                local <= 0,
                width > 0,
        ;
        0
    } else if local >= width as i128 {
        assert(scaled(local as int, width as int) >= FULL) by (nonlinear_arith)
            requires
                local >= width,
                width > 0,
        ;
        FULL as i64
    } else {
        assert(local * VIEW_SPAN <= width * VIEW_SPAN) by (nonlinear_arith)
            requires
                local <= width,
        ;
        ((local as u64 * VIEW_SPAN as u64) / width as u64) as i64
    }
}

/// Saturation and brightness under a pointer at `p` over the box `rect`:
/// the pointer's offset from the box's corner is scaled so that the box
/// spans 100 units across (the box is taken to be square), then saturation
/// is the clamped horizontal position over 100 and brightness one less the
/// clamped vertical position over 100.
pub fn pointer_to_sv(p: Point, rect: BoundingRect) -> (sv: (u32, u32))
    requires
        rect.width > 0,
    ensures
        sv == sv_at(p, rect),
        sv.0 <= FULL,
        sv.1 <= FULL,
{
    let sx = scale_to_box(p.x as i128 - rect.x as i128, rect.width);
    let sy = scale_to_box(p.y as i128 - rect.y as i128, rect.width);
    (x_axis_to_saturation(sx), y_axis_to_brightness(sy))
}

/// Page position of the box's cursor for a saturation and brightness:
/// `saturation * 100` and `100 - brightness * 100` units from the box's
/// corner, in page units of the box `rect`, floored.
pub open spec fn cursor_at(rect: BoundingRect, s: int, b: int) -> Point {
    Point {
        x: (rect.x + s * rect.width / FULL as int) as i64,
        y: (rect.y + (FULL - b) * rect.width / FULL as int) as i64,
    }
}

/// Page position of the box's cursor for a saturation and brightness.
pub fn sv_to_cursor_position(rect: BoundingRect, saturation: u32, brightness: u32) -> (p: Point)
    requires
        saturation <= FULL,
        brightness <= FULL,
        rect.x + rect.width <= i64::MAX,
        rect.y + rect.width <= i64::MAX,
    ensures
        p == cursor_at(rect, saturation as int, brightness as int),
{
    let w = rect.width as u64;
    assert(saturation * w / FULL as int <= w && (FULL - brightness) * w / FULL as int <= w)
        by (nonlinear_arith)
        requires
            saturation <= FULL,
            brightness <= FULL,
    ;
    let dx = saturation as u64 * w / FULL as u64;
    let dy = (FULL - brightness) as u64 * w / FULL as u64;
    Point { x: rect.x + dx as i64, y: rect.y + dy as i64 }
}

/// The hue read from a pointer direction `angle` (hundredths of a degree):
/// the angle less ninety degrees, wrapped.
pub open spec fn hue_at(angle: int) -> int {
    wrap_hue(angle - RING_OFFSET)
}

/// The turn of the ring's cursor glyph for a hue: `(450 - hue) mod 360`
/// degrees, in hundredths.
pub open spec fn rotation_for(hue: int) -> int {
    wrap_hue(45000 - hue)
}

/// The direction, as a pointer over the ring reads it, of a glyph drawn at
/// the ring's top and turned clockwise by `rotation`.
pub open spec fn glyph_angle(rotation: int) -> int {
    18000 - rotation
}

/// The hue under a pointer whose direction from the ring's center is
/// `angle`: that direction is `atan2(dx, dy)` of the offset `(dx, dy)` from
/// the center (axes swapped, so that it counts from straight down), in
/// hundredths of a degree. The hue is that angle less ninety degrees,
/// wrapped into `[0, HUE_TURN)`.
pub fn pointer_to_hue(angle: i64) -> (hue: u32)
    ensures
        hue < HUE_TURN,
        hue == hue_at(angle as int),
{
    let positive = normalize_hue(angle);
    proof {
        let m = HUE_TURN as int;
        vstd::arithmetic::div_mod::lemma_add_mod_noop(angle as int, -(RING_OFFSET as int), m);
        vstd::arithmetic::div_mod::lemma_add_mod_noop(
            positive as int,
            -(RING_OFFSET as int),
            m,
        );
        vstd::arithmetic::div_mod::lemma_mod_twice(angle as int, m);
    }
    normalize_hue(positive as i64 - RING_OFFSET as i64)
}

/// The rotation, in hundredths of a degree, that carries a glyph drawn at
/// the ring's top to the place of `hue`: `(450 - hue) mod 360` degrees.
pub fn hue_to_cursor_rotation(hue: u32) -> (rotation: u32)
    ensures
        rotation < HUE_TURN,
        rotation == rotation_for(hue as int),
{
    normalize_hue(45000 - hue as i64)
}

/// The direction from the ring's center, measured as `pointer_to_hue`
/// reads it, of a glyph drawn at the ring's top and turned clockwise by
/// `rotation`: the top points along `(0, -1)`, which reads as 180 degrees,
/// and a clockwise turn takes that reading down by the same amount.
pub fn glyph_direction(rotation: u32) -> (angle: i64)
    ensures
        angle == glyph_angle(rotation as int),
{
    18000 - rotation as i64
}

/// Placing the ring's cursor for a hue and reading the hue back from where
/// the cursor sits gives the same hue.
pub proof fn lemma_hue_ring_round_trip(hue: int)
    requires
        0 <= hue < HUE_TURN,
    ensures
        hue_at(glyph_angle(rotation_for(hue))) == hue,
{
}

/// Placing the box's cursor for a saturation and brightness and reading them
/// back from where the cursor sits never overshoots, and misses by less
/// than one page unit's worth of the box: saturation may come back low and
/// brightness high, each by under `FULL / width + 1`. Where the box's width
/// lets the cursor land on a whole page unit (`s * width` and
/// `(FULL - b) * width` multiples of `FULL`), both come back exactly.
pub proof fn lemma_sv_box_round_trip(rect: BoundingRect, s: int, b: int)
    requires
        rect.width > 0,
        0 <= s <= FULL,
        0 <= b <= FULL,
        rect.x + rect.width <= i64::MAX,
        rect.y + rect.width <= i64::MAX,
    ensures
        ({
            let back = sv_at(cursor_at(rect, s, b), rect);
            let w = rect.width as int;
            &&& back.0 <= s
            &&& (s - back.0) * w < FULL + w
            &&& back.1 >= b
            &&& (back.1 - b) * w < FULL + w
            &&& (s * w) % FULL as int == 0 ==> back.0 == s
            &&& ((FULL - b) * w) % FULL as int == 0 ==> back.1 == b
        }),
{
    let w = rect.width as int;
    let p = cursor_at(rect, s, b);
    let px = s * w / FULL as int;
    let py = (FULL - b) * w / FULL as int;
    assert(0 <= px <= w && 0 <= py <= w) by (nonlinear_arith)
        requires
            px == s * w / FULL as int,
            py == (FULL - b) * w / FULL as int,
            0 <= s <= FULL,
            0 <= b <= FULL,
            w > 0,
    ;
    assert(p.x - rect.x == px);
    assert(p.y - rect.y == py);
    lemma_floor_round_trip(s, w, px);
    lemma_floor_round_trip(FULL - b, w, py);
}

/// Scaling `v` (out of `FULL`) to a width, flooring, and scaling back,
/// flooring again: the result lies in `(v - FULL / w - 1, v]` and is `v`
/// itself when the first scaling is exact.
proof fn lemma_floor_round_trip(v: int, w: int, p: int)
    requires
        0 <= v <= FULL,
        w > 0,
        p == v * w / FULL as int,
    ensures
        0 <= p * VIEW_SPAN as int / w <= v,
        (v - p * VIEW_SPAN as int / w) * w < FULL + w,
        (v * w) % FULL as int == 0 ==> p * VIEW_SPAN as int / w == v,
{
    let back = p * VIEW_SPAN as int / w;
    assert(0 <= back <= v && (v - back) * w < FULL + w) by (nonlinear_arith)
        requires
            0 <= v <= FULL,
            w > 0,
            p == v * w / 10000,
            back == p * 10000 / w,
    ;
    if (v * w) % FULL as int == 0 {
        assert(back == v) by (nonlinear_arith)
            requires
                w > 0,
                (v * w) % 10000 == 0,
                p == v * w / 10000,
                back == p * 10000 / w,
        ;
    }
}

} // verus!
