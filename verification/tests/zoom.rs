use pictor::geometry::{ZOOM_UNIT, ZoomContext};

// Window 400x400 at (100,100), screen 1600x1200, cursor at (100,100) in
// the window, so (200,200) on screen.
fn context() -> ZoomContext {
    ZoomContext::capture(100, 100, 100, 100, 400, 400, 1600, 1200)
}

#[test]
fn capture_computes_bounds() {
    let ctx = context();
    assert_eq!(ctx.cursor_x, 200);
    assert_eq!(ctx.cursor_y, 200);
    // floor: the larger dimension shrinks to 100 pixels at most
    assert_eq!(ctx.zoom_min, 100 * ZOOM_UNIT / 400);
    // screen fit: the height is the binding axis, 1200 / 400
    assert_eq!(ctx.zoom_max, 3 * ZOOM_UNIT);
}

#[test]
fn still_cursor_is_identity() {
    let ctx = context();
    assert_eq!(ctx.zoom_factor(200, 200), ZOOM_UNIT);
    let v = ctx.compute_viewport(200, 200);
    assert_eq!(v.width, 400);
    assert_eq!(v.height, 400);
    assert_eq!(v.x, 100);
    // the vertical coordinate is flipped: 1200 - (100 + 400)
    assert_eq!(v.y, 700);
}

#[test]
fn rightward_travel_zooms_in() {
    let ctx = context();
    // 100 px right: factor 1.3 exactly, at 0.003 zoom per pixel
    assert_eq!(ctx.zoom_factor(300, 200), 1300000);
    let v = ctx.compute_viewport(300, 200);
    assert_eq!(v.width, 520);
    assert_eq!(v.height, 520);
    // origin keeps the captured cursor fixed: (100-200)*1.3 + 200 = 70
    assert_eq!(v.x, 70);
    assert_eq!(v.y, 1200 - (70 + 520));
}

#[test]
fn downward_travel_zooms_out() {
    let ctx = context();
    // 100 px down: factor 1/1.3, rounded down in millionths
    assert_eq!(ctx.zoom_factor(200, 300), 1000000 * 1000000 / 1300000);
}

#[test]
fn zoom_factor_clamps_at_screen_fit() {
    let ctx = context();
    // a kilometre to the right asks for far more than 3x
    assert_eq!(ctx.zoom_factor(1000200, 200), ctx.zoom_max);
    let v = ctx.compute_viewport(1000200, 200);
    // at the bound the window exactly fits the screen's height
    assert_eq!(v.width, 1200);
    assert_eq!(v.height, 1200);
}

#[test]
fn zoom_factor_clamps_at_floor() {
    let ctx = context();
    // far to the left asks for far less than the floor
    assert_eq!(ctx.zoom_factor(-1000000, 200), ctx.zoom_min);
    let v = ctx.compute_viewport(-1000000, 200);
    // at the floor the larger dimension is held at 100 pixels
    assert_eq!(v.width, 100);
    assert_eq!(v.height, 100);
}

#[test]
fn wide_screen_binds_on_width() {
    // window 800x200 at origin, screen 1000x1000: width binds the fit
    let ctx = ZoomContext::capture(0, 0, 0, 0, 800, 200, 1000, 1000);
    // screen_w * h = 200000 < w * screen_h = 800000: width axis
    assert_eq!(ctx.zoom_max, 1000 * ZOOM_UNIT / 800);
    // the floor holds the larger dimension, the width
    assert_eq!(ctx.zoom_min, (100 * ZOOM_UNIT + 799) / 800);
}
