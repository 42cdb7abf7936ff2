//! Display-point geometry in fixed point, and its conversion to device pixels.
//!
//! Coordinates in display points (DP) are counted in thousandths of a point, and
//! a scale factor is counted in thousandths too (`1000` is a scale of 1.0). A DP
//! coordinate `v` under scale `s` lies at `v * s / 1_000_000` device pixels.
use vstd::prelude::*;
use vstd::arithmetic::div_mod::{lemma_fundamental_div_mod, lemma_mod_bound};

verus! {

/// Thousandths of a display point in one display point.
pub const UNITS_PER_DP: i64 = 1000;

/// A scale of 1.0, in thousandths.
pub const UNIT_SCALE: u32 = 1000;

/// The largest scale factor accepted, in thousandths (a scale of 1000.0).
pub const MAX_SCALE: u32 = 1_000_000;

/// The largest magnitude of a coordinate that the conversions accept.
pub const MAX_COORD: i64 = 4_000_000_000_000;

/// The largest magnitude of a coordinate handed in by a caller.
pub const MAX_INPUT_COORD: i64 = 1_000_000_000_000;

/// DP thousandths times scale thousandths per device pixel.
pub const PX_DENOM: i64 = 1_000_000;

/// `a / d` rounded down.
pub open spec fn floor_div(a: int, d: int) -> int {
    a / d
}

/// `a / d` rounded up.
pub open spec fn ceil_div(a: int, d: int) -> int {
    -((-a) / d)
}

pub open spec fn coord_ok(v: int) -> bool {
    -MAX_COORD <= v <= MAX_COORD
}

pub open spec fn input_coord_ok(v: int) -> bool {
    -MAX_INPUT_COORD <= v <= MAX_INPUT_COORD
}

pub open spec fn scale_ok(s: int) -> bool {
    0 < s <= MAX_SCALE
}

/// The device pixel at or before DP coordinate `v` under scale `s`.
pub open spec fn px_floor(v: int, s: int) -> int {
    floor_div(v * s, PX_DENOM as int)
}

/// The device pixel at or after DP coordinate `v` under scale `s`.
pub open spec fn px_ceil(v: int, s: int) -> int {
    ceil_div(v * s, PX_DENOM as int)
}

/// The DP coordinate at or before device pixel `p` under scale `s`.
pub open spec fn dp_floor(p: int, s: int) -> int {
    floor_div(p * PX_DENOM, s)
}

/// The DP coordinate at or after device pixel `p` under scale `s`.
pub open spec fn dp_ceil(p: int, s: int) -> int {
    ceil_div(p * PX_DENOM, s)
}

pub proof fn lemma_floor_div_bounds(a: int, d: int)
    requires
        d > 0,
    ensures
        floor_div(a, d) * d <= a < floor_div(a, d) * d + d,
{
    lemma_fundamental_div_mod(a, d);
    lemma_mod_bound(a, d);
    assert(d * (a / d) == (a / d) * d) by (nonlinear_arith);
}

pub proof fn lemma_ceil_div_bounds(a: int, d: int)
    requires
        d > 0,
    ensures
        ceil_div(a, d) * d - d < a <= ceil_div(a, d) * d,
{
    lemma_floor_div_bounds(-a, d);
    assert(ceil_div(a, d) * d == -(floor_div(-a, d) * d)) by (nonlinear_arith);
}

/// A quotient is pinned down by the interval it falls in.
pub proof fn lemma_floor_div_unique(a: int, d: int, q: int)
    requires
        d > 0,
        q * d <= a < q * d + d,
    ensures
        q == floor_div(a, d),
{
    lemma_floor_div_bounds(a, d);
    let f = floor_div(a, d);
    if q < f {
        assert(q * d + d <= f * d) by (nonlinear_arith)
            requires q + 1 <= f, d > 0;
    } else if q > f {
        assert(f * d + d <= q * d) by (nonlinear_arith)
            requires f + 1 <= q, d > 0;
    }
}

/// `a / d` rounded down, for a positive `d`.
fn div_floor(a: i64, d: i64) -> (q: i64)
    requires
        d > 0,
        a > i64::MIN,
    ensures
        q == floor_div(a as int, d as int),
{
    if a >= 0 {
        let q = ((a as u64) / (d as u64)) as i64;
        proof {
            lemma_fundamental_div_mod(a as int, d as int);
            lemma_mod_bound(a as int, d as int);
            assert(d * (a / d) == (a / d) * d) by (nonlinear_arith);
            lemma_floor_div_unique(a as int, d as int, q as int);
        }
        q
    } else {
        let n = (-a) as u64;
        let du = d as u64;
        let c = (n / du) as i64;
        let q: i64 = if n % du == 0 { -c } else { -c - 1 };
        proof {
            lemma_fundamental_div_mod(n as int, du as int);
            lemma_mod_bound(n as int, du as int);
            assert(du * (n / du) == (n / du) * du) by (nonlinear_arith);
            assert(c * d <= n < c * d + d);
            if n % du == 0 {
                assert(q * d == -(c * d)) by (nonlinear_arith)
                    requires q == -c;
                assert(n == c * d);
            } else {
                assert(q * d == -(c * d) - d) by (nonlinear_arith)
                    requires q == -c - 1;
                assert(c * d < n);
            }
            lemma_floor_div_unique(a as int, d as int, q as int);
        }
        q
    }
}

/// `a / d` rounded up, for a positive `d`.
fn div_ceil(a: i64, d: i64) -> (q: i64)
    requires
        d > 0,
        a > i64::MIN,
    ensures
        q == ceil_div(a as int, d as int),
{
    let f = div_floor(-a, d);
    proof {
        lemma_floor_div_bounds(-(a as int), d as int);
        let m = i64::MAX as int;
        assert(f >= -m) by (nonlinear_arith)
            requires f * d + d > -(a as int), -(a as int) >= -m, d >= 1, m > 0;
    }
    -f
}

/// A factor from display points to device pixels, per axis, in thousandths.
/// Both factors are positive and at most `MAX_SCALE`.
#[derive(Clone, Copy, Debug, PartialEq, Eq, Structural)]
pub struct Scale {
    x: u32,
    y: u32,
}

impl Scale {
    #[verifier::type_invariant]
    spec fn inv(&self) -> bool {
        scale_ok(self.x as int) && scale_ok(self.y as int)
    }

    pub closed spec fn x_spec(self) -> u32 {
        self.x
    }

    pub closed spec fn y_spec(self) -> u32 {
        self.y
    }

    pub open spec fn valid(self) -> bool {
        scale_ok(self.x_spec() as int) && scale_ok(self.y_spec() as int)
    }

    /// Brings the bounds that every scale meets into a proof.
    pub fn ensure_valid(&self)
        ensures
            self.valid(),
    {
        proof {
            use_type_invariant(self);
        }
    }

    /// A scale of `x / 1000` horizontally and `y / 1000` vertically.
    pub fn new(x: u32, y: u32) -> (r: Scale)
        requires
            scale_ok(x as int),
            scale_ok(y as int),
        ensures
            r.x_spec() == x,
            r.y_spec() == y,
    {
        Scale { x, y }
    }

    /// The scale of 1.0 on both axes.
    pub fn identity() -> (r: Scale)
        ensures
            r.x_spec() == UNIT_SCALE,
            r.y_spec() == UNIT_SCALE,
    {
        Scale { x: UNIT_SCALE, y: UNIT_SCALE }
    }

    pub fn x(&self) -> (r: u32)
        ensures
            r == self.x_spec(),
    {
        self.x
    }

    pub fn y(&self) -> (r: u32)
        ensures
            r == self.y_spec(),
    {
        self.y
    }
}

/// A point in display points (thousandths).
#[derive(Clone, Copy, Debug, PartialEq, Eq, Structural)]
pub struct Point {
    pub x: i64,
    pub y: i64,
}

impl Point {
    pub fn new(x: i64, y: i64) -> (r: Point)
        ensures
            r.x == x,
            r.y == y,
    {
        Point { x, y }
    }

    /// The origin.
    pub fn zero() -> (r: Point)
        ensures
            r.x == 0,
            r.y == 0,
    {
        Point { x: 0, y: 0 }
    }

    /// The display point at or before device pixel position `(px, py)`.
    pub fn from_px(px: i64, py: i64, scale: Scale) -> (r: Point)
        requires
            input_coord_ok(px as int),
            input_coord_ok(py as int),
        ensures
            r.x == dp_floor(px as int, scale.x_spec() as int),
            r.y == dp_floor(py as int, scale.y_spec() as int),
    {
        proof {
            use_type_invariant(&scale);
        }
        Point { x: px_to_dp_floor(px, scale.x), y: px_to_dp_floor(py, scale.y) }
    }
}

/// A size in display points (thousandths); neither side is negative or larger
/// than `MAX_INPUT_COORD`.
#[derive(Clone, Copy, Debug, PartialEq, Eq, Structural)]
pub struct Size {
    width: i64,
    height: i64,
}

pub open spec fn side_ok(v: int) -> bool {
    0 <= v <= MAX_INPUT_COORD
}

impl Size {
    #[verifier::type_invariant]
    spec fn inv(&self) -> bool {
        side_ok(self.width as int) && side_ok(self.height as int)
    }

    pub closed spec fn width_spec(self) -> i64 {
        self.width
    }

    pub closed spec fn height_spec(self) -> i64 {
        self.height
    }

    pub open spec fn valid(self) -> bool {
        side_ok(self.width_spec() as int) && side_ok(self.height_spec() as int)
    }

    /// Brings the bounds that every size meets into a proof.
    pub fn ensure_valid(&self)
        ensures
            self.valid(),
    {
        proof {
            use_type_invariant(self);
        }
    }

    pub fn new(width: i64, height: i64) -> (r: Size)
        requires
            side_ok(width as int),
            side_ok(height as int),
        ensures
            r.width_spec() == width,
            r.height_spec() == height,
    {
        Size { width, height }
    }

    /// The empty size.
    pub fn zero() -> (r: Size)
        ensures
            r.width_spec() == 0,
            r.height_spec() == 0,
    {
        Size { width: 0, height: 0 }
    }

    pub fn width(&self) -> (r: i64)
        ensures
            r == self.width_spec(),
    {
        self.width
    }

    pub fn height(&self) -> (r: i64)
        ensures
            r == self.height_spec(),
    {
        self.height
    }

    /// The rectangle from the origin to this size.
    pub open spec fn to_rect_spec(self) -> Rect {
        Rect { x0: 0, y0: 0, x1: self.width_spec(), y1: self.height_spec() }
    }

    /// The size in display points of `width` by `height` device pixels, rounded
    /// down, where both sides are in range.
    pub closed spec fn from_px_spec(width: u32, height: u32, scale: Scale) -> Option<Size> {
        let w = dp_floor(width as int, scale.x_spec() as int);
        let h = dp_floor(height as int, scale.y_spec() as int);
        if side_ok(w) && side_ok(h) {
            Some(Size { width: w as i64, height: h as i64 })
        } else {
            None
        }
    }

    /// The rectangle from the origin to this size.
    pub fn to_rect(&self) -> (r: Rect)
        ensures
            r == self.to_rect_spec(),
            r.input_ok(),
    {
        proof {
            use_type_invariant(self);
        }
        Rect { x0: 0, y0: 0, x1: self.width, y1: self.height }
    }

    /// The size in display points of `width` by `height` device pixels, rounded
    /// down, or `None` where a side would be larger than `MAX_INPUT_COORD`.
    pub fn from_px(width: u32, height: u32, scale: Scale) -> (r: Option<Size>)
        ensures
            r == Size::from_px_spec(width, height, scale),
            ({
                let w = dp_floor(width as int, scale.x_spec() as int);
                let h = dp_floor(height as int, scale.y_spec() as int);
                match r {
                    Some(sz) => side_ok(w) && side_ok(h) && sz.width_spec() == w
                        && sz.height_spec() == h,
                    None => !(side_ok(w) && side_ok(h)),
                }
            }),
    {
        proof {
            use_type_invariant(&scale);
        }
        let w = px_to_dp_floor(width as i64, scale.x);
        let h = px_to_dp_floor(height as i64, scale.y);
        proof {
            lemma_floor_div_bounds(width as int * PX_DENOM, scale.x as int);
            lemma_floor_div_bounds(height as int * PX_DENOM, scale.y as int);
            assert(w >= 0) by (nonlinear_arith)
                requires
                    w * scale.x + scale.x > width as int * PX_DENOM,
                    width >= 0,
                    scale.x > 0,
            ;
            assert(h >= 0) by (nonlinear_arith)
                requires
                    h * scale.y + scale.y > height as int * PX_DENOM,
                    height >= 0,
                    scale.y > 0,
            ;
        }
        if w <= MAX_INPUT_COORD && h <= MAX_INPUT_COORD {
            Some(Size { width: w, height: h })
        } else {
            None
        }
    }
}

/// An axis-aligned rectangle in display points (thousandths): `x0 <= x < x1`, `y0 <= y < y1`.
#[derive(Clone, Copy, Debug, PartialEq, Eq, Structural)]
pub struct Rect {
    pub x0: i64,
    pub y0: i64,
    pub x1: i64,
    pub y1: i64,
}

/// An axis-aligned rectangle in whole device pixels.
#[derive(Clone, Copy, Debug, PartialEq, Eq, Structural)]
pub struct IRect {
    pub left: i64,
    pub top: i64,
    pub right: i64,
    pub bottom: i64,
}

impl Rect {
    pub fn new(x0: i64, y0: i64, x1: i64, y1: i64) -> (r: Rect)
        ensures
            r == (Rect { x0, y0, x1, y1 }),
    {
        Rect { x0, y0, x1, y1 }
    }

    /// All four coordinates are in the range that callers may hand in.
    pub open spec fn input_ok(self) -> bool {
        input_coord_ok(self.x0 as int) && input_coord_ok(self.y0 as int) && input_coord_ok(
            self.x1 as int,
        ) && input_coord_ok(self.y1 as int)
    }

    /// All four coordinates are in the range that the conversions accept.
    pub open spec fn coords_ok(self) -> bool {
        coord_ok(self.x0 as int) && coord_ok(self.y0 as int) && coord_ok(self.x1 as int)
            && coord_ok(self.y1 as int)
    }

    pub open spec fn is_empty_spec(self) -> bool {
        self.x1 <= self.x0 || self.y1 <= self.y0
    }

    /// The point `(x, y)` lies in the rectangle.
    pub open spec fn contains(self, x: int, y: int) -> bool {
        self.x0 <= x < self.x1 && self.y0 <= y < self.y1
    }

    /// The rectangle covers `other` wholly.
    pub open spec fn covers(self, other: Rect) -> bool {
        self.x0 <= other.x0 && self.y0 <= other.y0 && other.x1 <= self.x1 && other.y1
            <= self.y1
    }

    /// The smallest pixel rectangle that covers this one under `scale`.
    pub open spec fn px_spec(self, scale: Scale) -> IRect {
        IRect {
            left: px_floor(self.x0 as int, scale.x_spec() as int) as i64,
            top: px_floor(self.y0 as int, scale.y_spec() as int) as i64,
            right: px_ceil(self.x1 as int, scale.x_spec() as int) as i64,
            bottom: px_ceil(self.y1 as int, scale.y_spec() as int) as i64,
        }
    }

    /// The rectangle grown outward to the pixel grid of `scale`.
    pub open spec fn expand_spec(self, scale: Scale) -> Rect {
        self.px_spec(scale).dp_spec(scale)
    }

    pub fn is_empty(&self) -> (r: bool)
        ensures
            r == self.is_empty_spec(),
    {
        self.x1 <= self.x0 || self.y1 <= self.y0
    }

    /// All four coordinates are in the range that the conversions accept.
    pub fn in_range(&self) -> (r: bool)
        ensures
            r == self.coords_ok(),
    {
        -MAX_COORD <= self.x0 && self.x0 <= MAX_COORD && -MAX_COORD <= self.y0 && self.y0
            <= MAX_COORD && -MAX_COORD <= self.x1 && self.x1 <= MAX_COORD && -MAX_COORD
            <= self.y1 && self.y1 <= MAX_COORD
    }

    /// All four coordinates are in the range that callers may hand in.
    pub fn in_input_range(&self) -> (r: bool)
        ensures
            r == self.input_ok(),
    {
        -MAX_INPUT_COORD <= self.x0 && self.x0 <= MAX_INPUT_COORD && -MAX_INPUT_COORD
            <= self.y0 && self.y0 <= MAX_INPUT_COORD && -MAX_INPUT_COORD <= self.x1 && self.x1
            <= MAX_INPUT_COORD && -MAX_INPUT_COORD <= self.y1 && self.y1 <= MAX_INPUT_COORD
    }

    /// The smallest rectangle of whole device pixels that covers this one.
    pub fn to_px(&self, scale: Scale) -> (r: IRect)
        requires
            self.coords_ok(),
        ensures
            r == self.px_spec(scale),
            r.coords_ok(),
    {
        proof {
            use_type_invariant(&scale);
        }
        let r = IRect {
            left: dp_to_px_floor(self.x0, scale.x),
            top: dp_to_px_floor(self.y0, scale.y),
            right: dp_to_px_ceil(self.x1, scale.x),
            bottom: dp_to_px_ceil(self.y1, scale.y),
        };
        r
    }

    /// Grows the rectangle outward to the pixel grid of `scale`, so that no edge
    /// falls inside a device pixel.
    pub fn expand_to_pixels(&self, scale: Scale) -> (r: Rect)
        requires
            self.input_ok(),
        ensures
            r == self.expand_spec(scale),
            r.coords_ok(),
            r.covers(*self),
    {
        proof {
            use_type_invariant(&scale);
            lemma_expand_covers(*self, scale);
        }
        let p = self.to_px(scale);
        p.to_dp(scale)
    }
}

impl IRect {
    pub fn new(left: i64, top: i64, right: i64, bottom: i64) -> (r: IRect)
        ensures
            r == (IRect { left, top, right, bottom }),
    {
        IRect { left, top, right, bottom }
    }

    pub open spec fn coords_ok(self) -> bool {
        coord_ok(self.left as int) && coord_ok(self.top as int) && coord_ok(self.right as int)
            && coord_ok(self.bottom as int)
    }

    /// The smallest DP rectangle that covers this pixel rectangle under `scale`.
    pub open spec fn dp_spec(self, scale: Scale) -> Rect {
        Rect {
            x0: dp_floor(self.left as int, scale.x_spec() as int) as i64,
            y0: dp_floor(self.top as int, scale.y_spec() as int) as i64,
            x1: dp_ceil(self.right as int, scale.x_spec() as int) as i64,
            y1: dp_ceil(self.bottom as int, scale.y_spec() as int) as i64,
        }
    }

    /// The smallest DP rectangle that covers this pixel rectangle.
    pub fn to_dp(&self, scale: Scale) -> (r: Rect)
        requires
            self.coords_ok(),
        ensures
            r == self.dp_spec(scale),
    {
        proof {
            use_type_invariant(&scale);
        }
        Rect {
            x0: px_to_dp_floor(self.left, scale.x),
            y0: px_to_dp_floor(self.top, scale.y),
            x1: px_to_dp_ceil(self.right, scale.x),
            y1: px_to_dp_ceil(self.bottom, scale.y),
        }
    }
}

/// `rect` turned a quarter and shifted down by `h`.
pub open spec fn rotated(rect: IRect, h: i64) -> IRect {
    IRect {
        left: (h - rect.bottom) as i64,
        top: rect.left,
        right: (h - rect.top) as i64,
        bottom: rect.right,
    }
}

/// Rotates a clip rectangle a quarter turn and shifts it down by `h`, to match a
/// display mounted in portrait whose content is drawn in landscape.
pub fn transform_clip_rect(rect: IRect, h: i64) -> (r: IRect)
    requires
        coord_ok(rect.top as int),
        coord_ok(rect.bottom as int),
        input_coord_ok(h as int),
    ensures
        r == rotated(rect, h),
{
    let (x1, y1) = (rect.left, rect.bottom);
    let (x2, y2) = (rect.right, rect.top);
    let (left, bottom) = (h - y1, x2);
    let (right, top) = (h - y2, x1);
    IRect::new(left, top, right, bottom)
}

proof fn lemma_px_range(v: int, s: int)
    requires
        coord_ok(v),
        scale_ok(s),
    ensures
        -MAX_COORD * MAX_SCALE <= v * s <= MAX_COORD * MAX_SCALE,
        coord_ok(px_floor(v, s)),
        coord_ok(px_ceil(v, s)),
{
    assert(-MAX_COORD * MAX_SCALE <= v * s <= MAX_COORD * MAX_SCALE) by (nonlinear_arith)
        requires
            -MAX_COORD <= v <= MAX_COORD,
            0 < s <= MAX_SCALE,
    ;
    lemma_floor_div_bounds(v * s, PX_DENOM as int);
    lemma_ceil_div_bounds(v * s, PX_DENOM as int);
}

/// Growing a coordinate down to the pixel grid moves it by less than one pixel.
proof fn lemma_low_edge(v: int, s: int)
    requires
        coord_ok(v),
        scale_ok(s),
    ensures
        dp_floor(px_floor(v, s), s) <= v,
        dp_floor(px_floor(v, s), s) >= v - PX_DENOM - 1,
        (v - dp_floor(px_floor(v, s), s)) * s < PX_DENOM + s,
        px_floor(v, s) - 1 <= px_floor(dp_floor(px_floor(v, s), s), s) <= px_floor(v, s),
{
    let d = PX_DENOM as int;
    lemma_px_range(v, s);
    let p = px_floor(v, s);
    let q = dp_floor(p, s);
    lemma_floor_div_bounds(v * s, d);
    lemma_floor_div_bounds(p * d, s);
    assert(q <= v) by (nonlinear_arith)
        requires q * s <= p * d, p * d <= v * s, s > 0;
    assert(q >= v - d - 1) by (nonlinear_arith)
        requires q * s + s > p * d, p * d + d > v * s, 0 < s <= d;
    assert((v - q) * s < d + s) by (nonlinear_arith)
        requires q * s + s > p * d, p * d + d > v * s;
    let t = px_floor(q, s);
    lemma_floor_div_bounds(q * s, d);
    assert(t <= p) by (nonlinear_arith)
        requires t * d <= q * s, q * s <= p * d, d > 0;
    assert(t >= p - 1) by (nonlinear_arith)
        requires t * d + d > q * s, q * s + s > p * d, 0 < s <= d;
}

/// Growing a coordinate up to the pixel grid moves it by less than one pixel.
proof fn lemma_high_edge(v: int, s: int)
    requires
        coord_ok(v),
        scale_ok(s),
    ensures
        dp_ceil(px_ceil(v, s), s) >= v,
        dp_ceil(px_ceil(v, s), s) <= v + PX_DENOM + 1,
        (dp_ceil(px_ceil(v, s), s) - v) * s < PX_DENOM + s,
        px_ceil(v, s) <= px_ceil(dp_ceil(px_ceil(v, s), s), s) <= px_ceil(v, s) + 1,
{
    let d = PX_DENOM as int;
    lemma_px_range(v, s);
    let p = px_ceil(v, s);
    let q = dp_ceil(p, s);
    lemma_ceil_div_bounds(v * s, d);
    lemma_ceil_div_bounds(p * d, s);
    assert(q >= v) by (nonlinear_arith)
        requires q * s >= p * d, p * d >= v * s, s > 0;
    assert(q <= v + d + 1) by (nonlinear_arith)
        requires q * s - s < p * d, p * d - d < v * s, 0 < s <= d;
    assert((q - v) * s < d + s) by (nonlinear_arith)
        requires q * s - s < p * d, p * d - d < v * s;
    let t = px_ceil(q, s);
    lemma_ceil_div_bounds(q * s, d);
    assert(t >= p) by (nonlinear_arith)
        requires t * d >= q * s, q * s >= p * d, d > 0;
    assert(t <= p + 1) by (nonlinear_arith)
        requires t * d - d < q * s, q * s - s < p * d, 0 < s <= d;
}

/// The rectangle grown to the pixel grid covers the rectangle and stays in range.
pub proof fn lemma_expand_covers(r: Rect, scale: Scale)
    requires
        r.input_ok(),
        scale.valid(),
    ensures
        r.px_spec(scale).coords_ok(),
        r.expand_spec(scale).coords_ok(),
        r.expand_spec(scale).covers(r),
{
    lemma_px_range(r.x0 as int, scale.x_spec() as int);
    lemma_px_range(r.y0 as int, scale.y_spec() as int);
    lemma_px_range(r.x1 as int, scale.x_spec() as int);
    lemma_px_range(r.y1 as int, scale.y_spec() as int);
    lemma_low_edge(r.x0 as int, scale.x_spec() as int);
    lemma_low_edge(r.y0 as int, scale.y_spec() as int);
    lemma_high_edge(r.x1 as int, scale.x_spec() as int);
    lemma_high_edge(r.y1 as int, scale.y_spec() as int);
}

/// Converting a rectangle grown to the pixel grid back to device pixels gives the
/// pixel rectangle it was grown from, to within one pixel on each edge.
pub proof fn lemma_expand_round_trip(r: Rect, scale: Scale)
    requires
        r.input_ok(),
        scale.valid(),
    ensures
        ({
            let p = r.px_spec(scale);
            let q = r.expand_spec(scale).px_spec(scale);
            &&& p.left - 1 <= q.left <= p.left
            &&& p.top - 1 <= q.top <= p.top
            &&& p.right <= q.right <= p.right + 1
            &&& p.bottom <= q.bottom <= p.bottom + 1
        }),
{
    lemma_expand_covers(r, scale);
    let e = r.expand_spec(scale);
    let p = r.px_spec(scale);
    lemma_px_range(r.x0 as int, scale.x_spec() as int);
    lemma_px_range(r.y0 as int, scale.y_spec() as int);
    lemma_px_range(r.x1 as int, scale.x_spec() as int);
    lemma_px_range(r.y1 as int, scale.y_spec() as int);
    lemma_low_edge(r.x0 as int, scale.x_spec() as int);
    lemma_low_edge(r.y0 as int, scale.y_spec() as int);
    lemma_high_edge(r.x1 as int, scale.x_spec() as int);
    lemma_high_edge(r.y1 as int, scale.y_spec() as int);
    assert(p.left as int == px_floor(r.x0 as int, scale.x_spec() as int));
    assert(p.top as int == px_floor(r.y0 as int, scale.y_spec() as int));
    assert(p.right as int == px_ceil(r.x1 as int, scale.x_spec() as int));
    assert(p.bottom as int == px_ceil(r.y1 as int, scale.y_spec() as int));
    assert(e.x0 as int == dp_floor(p.left as int, scale.x_spec() as int));
    assert(e.y0 as int == dp_floor(p.top as int, scale.y_spec() as int));
    assert(e.x1 as int == dp_ceil(p.right as int, scale.x_spec() as int));
    assert(e.y1 as int == dp_ceil(p.bottom as int, scale.y_spec() as int));
    lemma_px_range(e.x0 as int, scale.x_spec() as int);
    lemma_px_range(e.y0 as int, scale.y_spec() as int);
    lemma_px_range(e.x1 as int, scale.x_spec() as int);
    lemma_px_range(e.y1 as int, scale.y_spec() as int);
}

/// Each edge of a rectangle grown to the pixel grid moves outward by less than
/// one device pixel plus one thousandth of a point: for scale `s` a device pixel
/// spans `PX_DENOM / s` thousandths of a point, so the move `m` meets
/// `m * s < PX_DENOM + s`.
pub proof fn lemma_expand_within_a_pixel(r: Rect, scale: Scale)
    requires
        r.input_ok(),
        scale.valid(),
    ensures
        ({
            let e = r.expand_spec(scale);
            let sx = scale.x_spec() as int;
            let sy = scale.y_spec() as int;
            &&& 0 <= r.x0 - e.x0 && (r.x0 - e.x0) * sx < PX_DENOM + sx
            &&& 0 <= r.y0 - e.y0 && (r.y0 - e.y0) * sy < PX_DENOM + sy
            &&& 0 <= e.x1 - r.x1 && (e.x1 - r.x1) * sx < PX_DENOM + sx
            &&& 0 <= e.y1 - r.y1 && (e.y1 - r.y1) * sy < PX_DENOM + sy
        }),
{
    lemma_expand_covers(r, scale);
    let e = r.expand_spec(scale);
    let p = r.px_spec(scale);
    lemma_px_range(r.x0 as int, scale.x_spec() as int);
    lemma_px_range(r.y0 as int, scale.y_spec() as int);
    lemma_px_range(r.x1 as int, scale.x_spec() as int);
    lemma_px_range(r.y1 as int, scale.y_spec() as int);
    lemma_low_edge(r.x0 as int, scale.x_spec() as int);
    lemma_low_edge(r.y0 as int, scale.y_spec() as int);
    lemma_high_edge(r.x1 as int, scale.x_spec() as int);
    lemma_high_edge(r.y1 as int, scale.y_spec() as int);
    assert(p.left as int == px_floor(r.x0 as int, scale.x_spec() as int));
    assert(p.top as int == px_floor(r.y0 as int, scale.y_spec() as int));
    assert(p.right as int == px_ceil(r.x1 as int, scale.x_spec() as int));
    assert(p.bottom as int == px_ceil(r.y1 as int, scale.y_spec() as int));
    assert(e.x0 as int == dp_floor(p.left as int, scale.x_spec() as int));
    assert(e.y0 as int == dp_floor(p.top as int, scale.y_spec() as int));
    assert(e.x1 as int == dp_ceil(p.right as int, scale.x_spec() as int));
    assert(e.y1 as int == dp_ceil(p.bottom as int, scale.y_spec() as int));
}

/// The device pixel at or before DP coordinate `v`.
fn dp_to_px_floor(v: i64, s: u32) -> (r: i64)
    requires
        coord_ok(v as int),
        scale_ok(s as int),
    ensures
        r == px_floor(v as int, s as int),
        coord_ok(r as int),
{
    proof {
        lemma_px_range(v as int, s as int);
    }
    div_floor(v * (s as i64), PX_DENOM)
}

/// The device pixel at or after DP coordinate `v`.
fn dp_to_px_ceil(v: i64, s: u32) -> (r: i64)
    requires
        coord_ok(v as int),
        scale_ok(s as int),
    ensures
        r == px_ceil(v as int, s as int),
        coord_ok(r as int),
{
    proof {
        lemma_px_range(v as int, s as int);
    }
    div_ceil(v * (s as i64), PX_DENOM)
}

/// The DP coordinate at or before device pixel `p`.
fn px_to_dp_floor(p: i64, s: u32) -> (r: i64)
    requires
        coord_ok(p as int),
        scale_ok(s as int),
    ensures
        r == dp_floor(p as int, s as int),
{
    div_floor(p * PX_DENOM, s as i64)
}

/// The DP coordinate at or after device pixel `p`.
fn px_to_dp_ceil(p: i64, s: u32) -> (r: i64)
    requires
        coord_ok(p as int),
        scale_ok(s as int),
    ensures
        r == dp_ceil(p as int, s as int),
{
    div_ceil(p * PX_DENOM, s as i64)
}

} // verus!
