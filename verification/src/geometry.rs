use vstd::prelude::*;

verus! {

// The zoom transform works in fixed-point arithmetic: a zoom factor is an
// integer count of millionths, so one million stands for the identity
// factor.  Cursor positions and window origins are screen-space pixels.

/// One million: the fixed-point unit of a zoom factor.
pub const ZOOM_UNIT: u64 = 1000000;

/// Zoom sensitivity: millionths of zoom per pixel of cursor travel.
pub const ZOOM_SPEED: u64 = 3000;

/// No window dimension may fall below this many pixels.
pub const MIN_WINDOW_SIZE: u64 = 100;

/// Bound on coordinates and window dimensions the model admits.
pub const COORD_LIMIT: u64 = 1048576;

/// The largest axis factor an admissible cursor travel can produce.
pub const FACTOR_MAX: u64 = ZOOM_UNIT + 5 * COORD_LIMIT * ZOOM_SPEED;

/// A rendering-surface viewport: origin and size, with the origin measured
/// from the bottom-left corner of the screen.
pub struct Viewport {
    pub x: i64,
    pub y: i64,
    pub width: u64,
    pub height: u64,
}

/// Division rounding half away from zero; the divisor is positive.
pub open spec fn round_div(n: int, d: int) -> int {
    if n >= 0 {
        (n + d / 2) / d
    } else {
        -(((-n) + d / 2) / d)
    }
}

/// The zoom factor one signed fixed-point cursor delta contributes.
pub open spec fn factor_micro(d: int) -> int {
    let unit = ZOOM_UNIT as int;
    if d >= 0 {
        unit + d
    } else {
        (unit * unit) / (unit - d)
    }
}

/// The unclamped zoom factor for a cursor displacement, in millionths.
/// A move right or up zooms in; a move left or down zooms out.
pub open spec fn raw_zoom(dx: int, dy: int) -> int {
    factor_micro(dx * (ZOOM_SPEED as int)) * factor_micro(-dy * (ZOOM_SPEED as int)) / (
    ZOOM_UNIT as int)
}

pub open spec fn clamp_zoom(z: int, lo: int, hi: int) -> int {
    if z < lo {
        lo
    } else if z > hi {
        hi
    } else {
        z
    }
}

/// A dimension scaled by a zoom factor, rounded to pixels.
pub open spec fn scaled_size(dim: int, z: int) -> int {
    round_div(dim * z, ZOOM_UNIT as int)
}

/// The window origin that keeps the captured cursor position fixed on
/// screen while the window scales around it.
pub open spec fn zoomed_origin(origin: int, cursor: int, z: int) -> int {
    round_div((origin - cursor) * z, ZOOM_UNIT as int) + cursor
}

/// The geometry snapshot taken when a zoom gesture starts.  It never
/// changes during the gesture; every viewport is computed afresh from it
/// and the current cursor position alone, so nothing drifts.
pub struct ZoomContext {
    /// Cursor position in screen space at capture time.
    pub cursor_x: i64,
    pub cursor_y: i64,
    /// Window origin at capture time.
    pub origin_x: i64,
    pub origin_y: i64,
    /// Window size at capture time.
    pub width: u64,
    pub height: u64,
    /// Screen size at capture time.
    pub screen_width: u64,
    pub screen_height: u64,
    /// Smallest and largest zoom factor the gesture may reach.
    pub zoom_min: u64,
    pub zoom_max: u64,
}

impl ZoomContext {
    /// The larger of the captured window dimensions, the one the lower
    /// zoom bound holds at the usability floor.
    pub open spec fn major_dimension(self) -> int {
        if self.width > self.height {
            self.width as int
        } else {
            self.height as int
        }
    }

    pub open spec fn wf(self) -> bool {
        &&& 0 < self.width <= COORD_LIMIT
        &&& 0 < self.height <= COORD_LIMIT
        &&& 0 < self.screen_width <= COORD_LIMIT
        &&& 0 < self.screen_height <= COORD_LIMIT
        &&& -(COORD_LIMIT as int) <= self.origin_x as int <= COORD_LIMIT as int
        &&& -(COORD_LIMIT as int) <= self.origin_y as int <= COORD_LIMIT as int
        &&& -2 * (COORD_LIMIT as int) <= self.cursor_x as int <= 2 * (COORD_LIMIT as int)
        &&& -2 * (COORD_LIMIT as int) <= self.cursor_y as int <= 2 * (COORD_LIMIT as int)
        &&& self.zoom_min as int == spec_zoom_min(self.width as int, self.height as int)
        &&& self.zoom_max as int == spec_zoom_max(
            self.width as int,
            self.height as int,
            self.screen_width as int,
            self.screen_height as int,
        )
    }

    /// Captures the zoom snapshot.  The cursor arrives in window
    /// coordinates and is moved to screen space here.
    pub fn capture(
        cursor_in_window_x: i64,
        cursor_in_window_y: i64,
        origin_x: i64,
        origin_y: i64,
        width: u64,
        height: u64,
        screen_width: u64,
        screen_height: u64,
    ) -> (r: ZoomContext)
        requires
            0 < width <= COORD_LIMIT,
            0 < height <= COORD_LIMIT,
            0 < screen_width <= COORD_LIMIT,
            0 < screen_height <= COORD_LIMIT,
            -(COORD_LIMIT as int) <= origin_x as int <= COORD_LIMIT as int,
            -(COORD_LIMIT as int) <= origin_y as int <= COORD_LIMIT as int,
            -(COORD_LIMIT as int) <= cursor_in_window_x as int <= COORD_LIMIT as int,
            -(COORD_LIMIT as int) <= cursor_in_window_y as int <= COORD_LIMIT as int,
        ensures
            r.wf(),
            r.cursor_x as int == cursor_in_window_x as int + origin_x as int,
            r.cursor_y as int == cursor_in_window_y as int + origin_y as int,
            r.origin_x == origin_x,
            r.origin_y == origin_y,
            r.width == width,
            r.height == height,
            r.screen_width == screen_width,
            r.screen_height == screen_height,
    {
        let major = if width > height {
            width
        } else {
            height
        };
        // ceiling division keeps the floor dimension at or above the floor
        let zoom_min = (MIN_WINDOW_SIZE * ZOOM_UNIT + major - 1) / major;
        // the screen-fit bound binds on the axis the screen has least
        // relative room for
        proof {
            assert((screen_width as int) * (height as int) <= (COORD_LIMIT as int) * (
            COORD_LIMIT as int)) by (nonlinear_arith)
                requires
                    screen_width <= COORD_LIMIT,
                    height <= COORD_LIMIT,
            ;
            assert((width as int) * (screen_height as int) <= (COORD_LIMIT as int) * (
            COORD_LIMIT as int)) by (nonlinear_arith)
                requires
                    width <= COORD_LIMIT,
                    screen_height <= COORD_LIMIT,
            ;
        }
        let zoom_max = if (screen_width as u128) * (height as u128) > (width as u128) * (
        screen_height as u128) {
            screen_height * ZOOM_UNIT / height
        } else {
            screen_width * ZOOM_UNIT / width
        };
        ZoomContext {
            cursor_x: cursor_in_window_x + origin_x,
            cursor_y: cursor_in_window_y + origin_y,
            origin_x,
            origin_y,
            width,
            height,
            screen_width,
            screen_height,
            zoom_min,
            zoom_max,
        }
    }

    /// The clamped zoom factor the cursor position asks for.
    pub open spec fn zoom_of(self, cursor_x: int, cursor_y: int) -> int {
        clamp_zoom(
            raw_zoom(cursor_x - self.cursor_x as int, cursor_y - self.cursor_y as int),
            self.zoom_min as int,
            self.zoom_max as int,
        )
    }

    /// Recomputes the viewport for the current cursor position in screen
    /// space: the window scales by the zoom factor around the captured
    /// cursor position, and the vertical coordinate is flipped into the
    /// bottom-left-origin convention of the rendering surface.
    pub fn compute_viewport(&self, cursor_x: i64, cursor_y: i64) -> (r: Viewport)
        requires
            self.wf(),
            -2 * (COORD_LIMIT as int) <= cursor_x as int <= 2 * (COORD_LIMIT as int),
            -2 * (COORD_LIMIT as int) <= cursor_y as int <= 2 * (COORD_LIMIT as int),
        ensures
            ({
                let z = self.zoom_of(cursor_x as int, cursor_y as int);
                &&& r.width == scaled_size(self.width as int, z)
                &&& r.height == scaled_size(self.height as int, z)
                &&& r.x == zoomed_origin(self.origin_x as int, self.cursor_x as int, z)
                &&& r.y as int == self.screen_height as int - (zoomed_origin(
                    self.origin_y as int,
                    self.cursor_y as int,
                    z,
                ) + r.height as int)
                &&& r.width <= 1100000000000
                &&& r.height <= 1100000000000
                &&& -3400000000000 <= r.x <= 3400000000000
                &&& -5000000000000 <= r.y <= 5000000000000
            }),
    {
        let z = self.zoom_factor(cursor_x, cursor_y);
        proof {
            lemma_zoom_factor_range(*self, cursor_x as int, cursor_y as int);
        }
        let width = scale_round(self.width, z);
        let height = scale_round(self.height, z);
        let x = Self::scale_about(self.origin_x, self.cursor_x, z);
        let y = Self::scale_about(self.origin_y, self.cursor_y, z);
        Viewport { x, y: self.screen_height as i64 - (y + height as i64), width, height }
    }

    /// The clamped zoom factor, computed in fixed point.
    pub fn zoom_factor(&self, cursor_x: i64, cursor_y: i64) -> (z: u64)
        requires
            self.wf(),
            -2 * (COORD_LIMIT as int) <= cursor_x as int <= 2 * (COORD_LIMIT as int),
            -2 * (COORD_LIMIT as int) <= cursor_y as int <= 2 * (COORD_LIMIT as int),
        ensures
            z as int == self.zoom_of(cursor_x as int, cursor_y as int),
    {
        let unit: u128 = ZOOM_UNIT as u128;
        let dx = cursor_x - self.cursor_x;
        let dy = cursor_y - self.cursor_y;
        let fx = Self::axis_factor(dx);
        // a downward cursor move is a negative vertical delta
        let fy = Self::axis_factor(-dy);
        proof {
            assert(FACTOR_MAX <= 15729640000);
            assert((fx as int) * (fy as int) <= 15729640000 * 15729640000) by (
            nonlinear_arith)
                requires
                    fx <= 15729640000,
                    fy <= 15729640000,
            ;
        }
        let raw: u128 = fx as u128 * fy as u128 / unit;
        let ghost r = raw_zoom(dx as int, dy as int);
        assert(raw == r);
        if raw < self.zoom_min as u128 {
            self.zoom_min
        } else if raw > self.zoom_max as u128 {
            self.zoom_max
        } else {
            raw as u64
        }
    }

    /// One axis of the multiplicative zoom model: `1 + d` going in,
    /// `1 / (1 - d)` going out, in millionths.
    fn axis_factor(d: i64) -> (f: u64)
        requires
            -5 * (COORD_LIMIT as int) <= d as int <= 5 * (COORD_LIMIT as int),
        ensures
            f as int == factor_micro((d as int) * (ZOOM_SPEED as int)),
            f <= FACTOR_MAX,
    {
        proof {
            lemma_axis_factor_bound(d as int);
        }
        if d >= 0 {
            ZOOM_UNIT + (d as u64) * ZOOM_SPEED
        } else {
            let mag = (-d) as u64;
            let unit = ZOOM_UNIT as u128;
            let f = ((unit * unit) / (unit + mag as u128 * ZOOM_SPEED as u128)) as u64;
            f
        }
    }

    /// Scales the distance from `cursor` to `origin` by `z` and lands back
    /// at screen coordinates.
    fn scale_about(origin: i64, cursor: i64, z: u64) -> (r: i64)
        requires
            -(COORD_LIMIT as int) <= origin as int <= COORD_LIMIT as int,
            -2 * (COORD_LIMIT as int) <= cursor as int <= 2 * (COORD_LIMIT as int),
            z as int <= (COORD_LIMIT as int) * (ZOOM_UNIT as int),
        ensures
            r as int == zoomed_origin(origin as int, cursor as int, z as int),
            -3400000000000 <= r as int <= 3400000000000,
    {
        let unit: u128 = ZOOM_UNIT as u128;
        let k = origin - cursor;
        proof {
            lemma_scale_magnitude(if k >= 0 { k as int } else { -(k as int) }, z as int);
        }
        if k >= 0 {
            let m = ((k as u128 * z as u128 + unit / 2) / unit) as i64;
            m + cursor
        } else {
            let mag = (-k) as u128;
            let m = ((mag * z as u128 + unit / 2) / unit) as i64;
            proof {
                lemma_neg_round_div(k as int, z as int);
            }
            cursor - m
        }
    }
}

/// The lower zoom bound: the factor that takes the larger window dimension
/// down to the usability floor, rounded up.
pub open spec fn spec_zoom_min(width: int, height: int) -> int {
    let major = if width > height {
        width
    } else {
        height
    };
    ((MIN_WINDOW_SIZE * ZOOM_UNIT) as int + major - 1) / major
}

/// The upper zoom bound: the factor that makes the window just fit the
/// screen, rounded down.
pub open spec fn spec_zoom_max(width: int, height: int, screen_w: int, screen_h: int) -> int {
    if screen_w * height > width * screen_h {
        screen_h * (ZOOM_UNIT as int) / height
    } else {
        screen_w * (ZOOM_UNIT as int) / width
    }
}

proof fn lemma_neg_round_div(k: int, z: int)
    requires
        k < 0,
        z >= 0,
    ensures
        round_div(k * z, ZOOM_UNIT as int) == -round_div((-k) * z, ZOOM_UNIT as int),
{
    assert(k * z <= 0) by (nonlinear_arith)
        requires
            k < 0,
            z >= 0,
    ;
    assert((-k) * z == -(k * z)) by (nonlinear_arith);
    if k * z == 0 {
        assert(round_div(0int, ZOOM_UNIT as int) == 0);
    }
}

/// An axis factor never exceeds the fully zoomed-in factor for the widest
/// admissible cursor travel, and never drops to zero.
proof fn lemma_axis_factor_bound(d: int)
    requires
        -5 * (COORD_LIMIT as int) <= d <= 5 * (COORD_LIMIT as int),
    ensures
        0 < factor_micro(d * ZOOM_SPEED as int),
        factor_micro(d * ZOOM_SPEED as int) <= ZOOM_UNIT as int + 5 * (COORD_LIMIT as int) * (
        ZOOM_SPEED as int),
{
    let unit = ZOOM_UNIT as int;
    let s = d * ZOOM_SPEED as int;
    if d >= 0 {
        assert(s <= 5 * (COORD_LIMIT as int) * (ZOOM_SPEED as int)) by (nonlinear_arith)
            requires
                d <= 5 * (COORD_LIMIT as int),
                s == d * ZOOM_SPEED as int,
        ;
        assert(s >= 0) by (nonlinear_arith)
            requires
                d >= 0,
                s == d * ZOOM_SPEED as int,
        ;
    } else {
        assert(s < 0) by (nonlinear_arith)
            requires
                d < 0,
                s == d * ZOOM_SPEED as int,
        ;
        assert(unit - s > unit);
        vstd::arithmetic::div_mod::lemma_div_pos_is_pos(unit * unit, unit - s);
        assert(unit * unit / (unit - s) <= unit * unit / unit) by {
            vstd::arithmetic::div_mod::lemma_div_is_ordered_by_denominator(
                unit * unit,
                unit,
                unit - s,
            );
        }
        assert(unit * unit / unit == unit) by {
            vstd::arithmetic::div_mod::lemma_div_multiples_vanish(unit, unit);
        }
        assert(factor_micro(s) > 0) by {
            assert(unit * unit >= unit - s) by (nonlinear_arith)
                requires
                    s >= -(5 * (COORD_LIMIT as int)) * (ZOOM_SPEED as int),
                    unit == ZOOM_UNIT as int,
            ;
            vstd::arithmetic::div_mod::lemma_div_non_zero(unit * unit, unit - s);
        }
    }
}

/// The clamped zoom factor stays within machine range.
proof fn lemma_zoom_factor_range(ctx: ZoomContext, cx: int, cy: int)
    requires
        ctx.wf(),
    ensures
        0 <= ctx.zoom_of(cx, cy),
        ctx.zoom_of(cx, cy) <= (COORD_LIMIT as int) * (ZOOM_UNIT as int),
{
    let unit = ZOOM_UNIT as int;
    let zmin = ctx.zoom_min as int;
    let zmax = ctx.zoom_max as int;
    assert(zmin <= MIN_WINDOW_SIZE as int * unit) by {
        let major = ctx.major_dimension();
        assert(major >= 1);
        assert((MIN_WINDOW_SIZE * ZOOM_UNIT) as int + major - 1 < (MIN_WINDOW_SIZE as int * unit
            + 1) * major) by (nonlinear_arith)
            requires
                major >= 1,
                unit == ZOOM_UNIT as int,
        ;
        assert(major * (MIN_WINDOW_SIZE as int * unit + 1) == (MIN_WINDOW_SIZE as int * unit
            + 1) * major) by (nonlinear_arith);
        vstd::arithmetic::div_mod::lemma_multiply_divide_lt(
            (MIN_WINDOW_SIZE * ZOOM_UNIT) as int + major - 1,
            major,
            MIN_WINDOW_SIZE as int * unit + 1,
        );
    }
    assert(zmax <= COORD_LIMIT as int * unit) by {
        let sw = ctx.screen_width as int;
        let sh = ctx.screen_height as int;
        let w = ctx.width as int;
        let h = ctx.height as int;
        if sw * h > w * sh {
            assert(sh * unit / h <= sh * unit) by {
                vstd::arithmetic::div_mod::lemma_div_is_ordered_by_denominator(sh * unit, 1, h);
                assert(sh * unit / 1 == sh * unit);
            }
            assert(sh * unit <= COORD_LIMIT as int * unit) by (nonlinear_arith)
                requires
                    sh <= COORD_LIMIT as int,
                    unit > 0,
            ;
        } else {
            assert(sw * unit / w <= sw * unit) by {
                vstd::arithmetic::div_mod::lemma_div_is_ordered_by_denominator(sw * unit, 1, w);
                assert(sw * unit / 1 == sw * unit);
            }
            assert(sw * unit <= COORD_LIMIT as int * unit) by (nonlinear_arith)
                requires
                    sw <= COORD_LIMIT as int,
                    unit > 0,
            ;
        }
    }
    let z = ctx.zoom_of(cx, cy);
    let r = raw_zoom(cx - ctx.cursor_x as int, cy - ctx.cursor_y as int);
    assert(r >= 0) by {
        lemma_raw_zoom_nonneg(cx - ctx.cursor_x as int, cy - ctx.cursor_y as int);
    }
    assert(zmin >= 0) by {
        let major = ctx.major_dimension();
        vstd::arithmetic::div_mod::lemma_div_pos_is_pos(
            (MIN_WINDOW_SIZE * ZOOM_UNIT) as int + major - 1,
            major,
        );
    }
    assert(MIN_WINDOW_SIZE as int * unit <= COORD_LIMIT as int * unit) by (nonlinear_arith)
        requires
            unit == ZOOM_UNIT as int,
    ;
}

proof fn lemma_raw_zoom_nonneg(dx: int, dy: int)
    ensures
        raw_zoom(dx, dy) >= 0,
{
    let unit = ZOOM_UNIT as int;
    let sx = dx * (ZOOM_SPEED as int);
    let sy = -dy * (ZOOM_SPEED as int);
    let fx = factor_micro(sx);
    let fy = factor_micro(sy);
    assert(fx >= 0) by {
        if sx < 0 {
            vstd::arithmetic::div_mod::lemma_div_pos_is_pos(unit * unit, unit - sx);
        }
    }
    assert(fy >= 0) by {
        if sy < 0 {
            vstd::arithmetic::div_mod::lemma_div_pos_is_pos(unit * unit, unit - sy);
        }
    }
    assert(fx * fy >= 0) by (nonlinear_arith)
        requires
            fx >= 0,
            fy >= 0,
    ;
    vstd::arithmetic::div_mod::lemma_div_pos_is_pos(fx * fy, unit);
}

/// One dimension scaled by a zoom factor, rounded to whole pixels.
fn scale_round(dim: u64, z: u64) -> (r: u64)
    requires
        dim <= COORD_LIMIT,
        z as int <= (COORD_LIMIT as int) * (ZOOM_UNIT as int),
    ensures
        r as int == scaled_size(dim as int, z as int),
        r as int <= (COORD_LIMIT as int) * (COORD_LIMIT as int) + 1,
{
    proof {
        assert((dim as int) * (z as int) <= (COORD_LIMIT as int) * ((COORD_LIMIT as int) * (
        ZOOM_UNIT as int))) by (nonlinear_arith)
            requires
                dim <= COORD_LIMIT,
                z as int <= (COORD_LIMIT as int) * (ZOOM_UNIT as int),
        ;
        lemma_scaled_size_bound(dim as int, z as int);
    }
    ((dim as u128 * z as u128 + (ZOOM_UNIT / 2) as u128) / ZOOM_UNIT as u128) as u64
}

/// The scaled distance from the cursor to the origin stays within machine
/// range.
proof fn lemma_scale_magnitude(mag: int, z: int)
    requires
        0 <= mag <= 3 * (COORD_LIMIT as int),
        0 <= z <= (COORD_LIMIT as int) * (ZOOM_UNIT as int),
    ensures
        0 <= (mag * z + (ZOOM_UNIT as int) / 2) / (ZOOM_UNIT as int) <= 3300000000000,
{
    let unit = ZOOM_UNIT as int;
    assert(mag * z >= 0) by (nonlinear_arith)
        requires
            mag >= 0,
            z >= 0,
    ;
    assert(mag * z <= 3 * (COORD_LIMIT as int) * ((COORD_LIMIT as int) * unit)) by (
    nonlinear_arith)
        requires
            0 <= mag <= 3 * (COORD_LIMIT as int),
            0 <= z <= (COORD_LIMIT as int) * unit,
    ;
    vstd::arithmetic::div_mod::lemma_div_pos_is_pos(mag * z + unit / 2, unit);
    assert(mag * z + unit / 2 < unit * 3300000000001) by (nonlinear_arith)
        requires
            mag * z <= 3 * (COORD_LIMIT as int) * ((COORD_LIMIT as int) * unit),
            unit == ZOOM_UNIT as int,
    ;
    vstd::arithmetic::div_mod::lemma_multiply_divide_lt(
        mag * z + unit / 2,
        unit,
        3300000000001,
    );
}

/// A scaled dimension stays within machine range for admissible inputs.
proof fn lemma_scaled_size_bound(dim: int, z: int)
    requires
        0 <= dim <= COORD_LIMIT as int,
        0 <= z <= (COORD_LIMIT as int) * (ZOOM_UNIT as int),
    ensures
        0 <= scaled_size(dim, z) <= (COORD_LIMIT as int) * (COORD_LIMIT as int) + 1,
{
    let unit = ZOOM_UNIT as int;
    let cap = (COORD_LIMIT as int) * (COORD_LIMIT as int);
    assert(dim * z >= 0) by (nonlinear_arith)
        requires
            dim >= 0,
            z >= 0,
    ;
    assert(dim * z <= cap * unit) by (nonlinear_arith)
        requires
            0 <= dim <= COORD_LIMIT as int,
            0 <= z <= (COORD_LIMIT as int) * unit,
            cap == (COORD_LIMIT as int) * (COORD_LIMIT as int),
    ;
    vstd::arithmetic::div_mod::lemma_div_pos_is_pos(dim * z + unit / 2, unit);
    assert((dim * z + unit / 2) < unit * (cap + 2)) by (nonlinear_arith)
        requires
            dim * z <= cap * unit,
            unit == ZOOM_UNIT as int,
    ;
    vstd::arithmetic::div_mod::lemma_multiply_divide_lt(dim * z + unit / 2, unit, cap + 2);
}

/// Rounded scaling by the identity factor returns the length unchanged.
proof fn lemma_unit_round(k: int)
    ensures
        round_div(k * (ZOOM_UNIT as int), ZOOM_UNIT as int) == k,
{
    let unit = ZOOM_UNIT as int;
    if k >= 0 {
        assert(k * unit >= 0) by (nonlinear_arith)
            requires
                k >= 0,
                unit > 0,
        ;
        vstd::arithmetic::div_mod::lemma_fundamental_div_mod_converse(
            k * unit + unit / 2,
            unit,
            k,
            unit / 2,
        );
    } else {
        assert(k * unit < 0) by (nonlinear_arith)
            requires
                k < 0,
                unit > 0,
        ;
        assert((-(k * unit)) == (-k) * unit) by (nonlinear_arith);
        vstd::arithmetic::div_mod::lemma_fundamental_div_mod_converse(
            (-k) * unit + unit / 2,
            unit,
            -k,
            unit / 2,
        );
    }
}

/// Law: holding the cursor where it was captured is the identity
/// transform.  The zoom factor is exactly one unit, and size and origin
/// come back as captured, whenever the bounds admit the identity factor.
/// (A window larger than the screen at capture time has an upper bound
/// below one and is excluded.)
pub proof fn lemma_zoom_identity(ctx: ZoomContext)
    requires
        ctx.wf(),
        ctx.zoom_min <= ZOOM_UNIT <= ctx.zoom_max,
    ensures
        ctx.zoom_of(ctx.cursor_x as int, ctx.cursor_y as int) == ZOOM_UNIT as int,
        scaled_size(ctx.width as int, ZOOM_UNIT as int) == ctx.width as int,
        scaled_size(ctx.height as int, ZOOM_UNIT as int) == ctx.height as int,
        zoomed_origin(ctx.origin_x as int, ctx.cursor_x as int, ZOOM_UNIT as int)
            == ctx.origin_x as int,
        zoomed_origin(ctx.origin_y as int, ctx.cursor_y as int, ZOOM_UNIT as int)
            == ctx.origin_y as int,
{
    let unit = ZOOM_UNIT as int;
    assert(factor_micro(0) == unit);
    assert(raw_zoom(0, 0) == unit * unit / unit);
    assert(unit * unit / unit == unit) by {
        vstd::arithmetic::div_mod::lemma_div_multiples_vanish(unit, unit);
    }
    lemma_unit_round(ctx.width as int);
    lemma_unit_round(ctx.height as int);
    lemma_unit_round(ctx.origin_x as int - ctx.cursor_x as int);
    lemma_unit_round(ctx.origin_y as int - ctx.cursor_y as int);
}

/// Law: the zoom factor is always clamped into the captured bounds.
pub proof fn lemma_zoom_within_bounds(ctx: ZoomContext, cx: int, cy: int)
    requires
        ctx.wf(),
        ctx.zoom_min <= ctx.zoom_max,
    ensures
        ctx.zoom_min as int <= ctx.zoom_of(cx, cy) <= ctx.zoom_max as int,
{
}

/// Law: the lower zoom bound keeps the larger window dimension at or
/// above the usability floor, at every cursor position.
pub proof fn lemma_zoom_min_holds_floor(ctx: ZoomContext, cx: int, cy: int)
    requires
        ctx.wf(),
        ctx.zoom_min <= ctx.zoom_max,
    ensures
        scaled_size(ctx.major_dimension(), ctx.zoom_of(cx, cy)) >= MIN_WINDOW_SIZE as int,
{
    let unit = ZOOM_UNIT as int;
    let m = ctx.major_dimension();
    let z = ctx.zoom_of(cx, cy);
    let zmin = ctx.zoom_min as int;
    let floor = MIN_WINDOW_SIZE as int;
    let x = floor * unit + m - 1;
    assert(zmin == x / m);
    assert(m * zmin >= floor * unit) by {
        vstd::arithmetic::div_mod::lemma_fundamental_div_mod(x, m);
        vstd::arithmetic::div_mod::lemma_mod_bound(x, m);
    }
    assert(z >= zmin);
    assert(m * z >= m * zmin) by {
        vstd::arithmetic::mul::lemma_mul_left_inequality(m, zmin, z);
    }
    assert(m * z + unit / 2 >= floor * unit);
    assert((m * z + unit / 2) / unit >= (floor * unit) / unit) by {
        vstd::arithmetic::div_mod::lemma_div_is_ordered(floor * unit, m * z + unit / 2, unit);
    }
    assert((floor * unit) / unit == floor) by {
        vstd::arithmetic::div_mod::lemma_div_by_multiple(floor, unit);
    }
    assert(m * z >= 0);
}

/// Law: the upper zoom bound never lets either scaled dimension exceed
/// the screen, at every cursor position.
pub proof fn lemma_zoom_max_fits_screen(ctx: ZoomContext, cx: int, cy: int)
    requires
        ctx.wf(),
        ctx.zoom_min <= ctx.zoom_max,
    ensures
        scaled_size(ctx.width as int, ctx.zoom_of(cx, cy)) <= ctx.screen_width as int,
        scaled_size(ctx.height as int, ctx.zoom_of(cx, cy)) <= ctx.screen_height as int,
{
    let unit = ZOOM_UNIT as int;
    let w = ctx.width as int;
    let h = ctx.height as int;
    let sw = ctx.screen_width as int;
    let sh = ctx.screen_height as int;
    let z = ctx.zoom_of(cx, cy);
    let zmax = ctx.zoom_max as int;
    assert(z >= 0) by {
        let x = (MIN_WINDOW_SIZE as int) * unit + ctx.major_dimension() - 1;
        vstd::arithmetic::div_mod::lemma_div_pos_is_pos(x, ctx.major_dimension());
    }
    assert(z <= zmax);
    if sw * h > w * sh {
        assert(zmax == sh * unit / h);
        assert(h * zmax <= sh * unit) by {
            vstd::arithmetic::div_mod::lemma_fundamental_div_mod(sh * unit, h);
            vstd::arithmetic::div_mod::lemma_mod_bound(sh * unit, h);
            assert(sh * unit == h * (sh * unit / h) + (sh * unit) % h);
        }
        assert(h * z <= h * zmax) by {
            vstd::arithmetic::mul::lemma_mul_left_inequality(h, z, zmax);
        }
        assert(w * zmax <= (w * (sh * unit)) / h) by {
            vstd::arithmetic::div_mod::lemma_mul_hoist_inequality(w, sh * unit, h);
        }
        assert(w * (sh * unit) <= (sw * h) * unit) by (nonlinear_arith)
            requires
                w * sh <= sw * h,
                unit > 0,
        ;
        assert(((sw * h) * unit) / h == sw * unit) by {
            assert((sw * h) * unit == (sw * unit) * h) by (nonlinear_arith);
            vstd::arithmetic::div_mod::lemma_div_by_multiple(sw * unit, h);
            assert(sw * unit >= 0) by (nonlinear_arith)
                requires
                    sw >= 0,
                    unit > 0,
            ;
        }
        assert((w * (sh * unit)) / h <= ((sw * h) * unit) / h) by {
            vstd::arithmetic::div_mod::lemma_div_is_ordered(
                w * (sh * unit),
                (sw * h) * unit,
                h,
            );
        }
        assert(w * z <= w * zmax) by {
            vstd::arithmetic::mul::lemma_mul_left_inequality(w, z, zmax);
        }
        assert(w * z <= sw * unit);
        assert(h * z <= sh * unit);
    } else {
        assert(zmax == sw * unit / w);
        assert(w * zmax <= sw * unit) by {
            vstd::arithmetic::div_mod::lemma_fundamental_div_mod(sw * unit, w);
            vstd::arithmetic::div_mod::lemma_mod_bound(sw * unit, w);
            assert(sw * unit == w * (sw * unit / w) + (sw * unit) % w);
        }
        assert(w * z <= w * zmax) by {
            vstd::arithmetic::mul::lemma_mul_left_inequality(w, z, zmax);
        }
        assert(h * zmax <= (h * (sw * unit)) / w) by {
            vstd::arithmetic::div_mod::lemma_mul_hoist_inequality(h, sw * unit, w);
        }
        assert(h * (sw * unit) <= (sh * w) * unit) by (nonlinear_arith)
            requires
                sw * h <= w * sh,
                unit > 0,
        ;
        assert(((sh * w) * unit) / w == sh * unit) by {
            assert((sh * w) * unit == (sh * unit) * w) by (nonlinear_arith);
            vstd::arithmetic::div_mod::lemma_div_by_multiple(sh * unit, w);
            assert(sh * unit >= 0) by (nonlinear_arith)
                requires
                    sh >= 0,
                    unit > 0,
            ;
        }
        assert((h * (sw * unit)) / w <= ((sh * w) * unit) / w) by {
            vstd::arithmetic::div_mod::lemma_div_is_ordered(
                h * (sw * unit),
                (sh * w) * unit,
                w,
            );
        }
        assert(h * z <= h * zmax) by {
            vstd::arithmetic::mul::lemma_mul_left_inequality(h, z, zmax);
        }
        assert(w * z <= sw * unit);
        assert(h * z <= sh * unit);
    }
    lemma_scaled_within(w, z, sw);
    lemma_scaled_within(h, z, sh);
}

/// If a scaled length in fixed point stays at or under a pixel bound,
/// rounding to pixels stays at or under it too.
proof fn lemma_scaled_within(dim: int, z: int, bound: int)
    requires
        dim >= 0,
        z >= 0,
        0 <= bound,
        dim * z <= bound * (ZOOM_UNIT as int),
    ensures
        scaled_size(dim, z) <= bound,
{
    let unit = ZOOM_UNIT as int;
    assert(dim * z >= 0) by (nonlinear_arith)
        requires
            dim >= 0,
            z >= 0,
    ;
    assert(dim * z + unit / 2 < unit * (bound + 1)) by (nonlinear_arith)
        requires
            dim * z <= bound * unit,
            unit == ZOOM_UNIT as int,
    ;
    vstd::arithmetic::div_mod::lemma_multiply_divide_lt(dim * z + unit / 2, unit, bound + 1);
}


} // verus!
