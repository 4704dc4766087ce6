use pictor::interaction::{Interface, InteractionState, RenderMode, UiEvent};
use pictor::picture::{PixelData, StillPicture};
use pictor::render::PaintOp;

fn machine() -> Interface {
    Interface::new(100, 100, 400, 300, 1600, 1200)
}

fn rgb_still(width: u32, height: u32) -> StillPicture {
    StillPicture::from_decoded(
        width,
        height,
        3,
        true,
        false,
        PixelData::EightBit(vec![50u8; (width * height * 3) as usize]),
        lcms2::Profile::new_srgb(),
    )
    .unwrap()
}

#[test]
fn machine_starts_disabled_and_blank() {
    let m = machine();
    assert!(matches!(m.state, InteractionState::Disabled));
    assert!(matches!(m.mode, RenderMode::Blank));
    assert!(!m.is_error());
}

#[test]
fn disabled_machine_ignores_presses() {
    let mut m = machine();
    let fx = m.refresh(UiEvent::LeftPressed);
    assert!(!fx.begin_drag);
    assert!(matches!(m.state, InteractionState::Disabled));
    let fx = m.refresh(UiEvent::RightPressed);
    assert!(!fx.apply_window);
    assert!(matches!(m.state, InteractionState::Disabled));
}

#[test]
fn show_blank_enables_and_fits() {
    let mut m = machine();
    let fx = m.show_blank(400, 300);
    assert!(matches!(m.state, InteractionState::Idle));
    assert!(fx.apply_window && fx.apply_viewport && fx.redraw);
    // 400x300 sits well within four fifths of 1600x1200: kept as is
    assert_eq!((m.width, m.height), (400, 300));
    assert_eq!((m.viewport.width, m.viewport.height), (400, 300));
    assert_eq!((m.viewport.x, m.viewport.y), (0, 0));
}

#[test]
fn oversized_picture_is_fitted_to_four_fifths() {
    let mut m = machine();
    let _ = m.show_blank(4000, 3000);
    // the screen-fit keeps the aspect: 1280 x 960
    assert_eq!((m.width, m.height), (1280, 960));
}

#[test]
fn tiny_picture_is_held_at_the_floor() {
    let mut m = machine();
    let _ = m.show_blank(10, 5);
    // the wider dimension is held at the floor and the aspect kept
    assert_eq!(m.width, 100);
    assert_eq!(m.height, 50);
}

#[test]
fn drag_runs_from_press_to_release() {
    let mut m = machine();
    let _ = m.show_blank(400, 300);
    let fx = m.refresh(UiEvent::LeftPressed);
    assert!(fx.begin_drag);
    assert!(matches!(m.state, InteractionState::Drag));
    // a second press changes nothing
    let fx = m.refresh(UiEvent::LeftPressed);
    assert!(!fx.begin_drag);
    let _ = m.refresh(UiEvent::LeftReleased);
    assert!(matches!(m.state, InteractionState::Idle));
}

#[test]
fn zoom_reparents_and_restores() {
    let mut m = machine();
    let _ = m.show_blank(400, 300);
    let (ox, oy, w, h) = (m.origin_x, m.origin_y, m.width, m.height);
    let fx = m.refresh(UiEvent::RightPressed);
    assert!(fx.apply_window && fx.apply_viewport);
    assert!(matches!(m.state, InteractionState::Zoom(_)));
    // the window now spans the screen and the viewport holds the old rect
    assert_eq!((m.origin_x, m.origin_y), (0, 0));
    assert_eq!((m.width, m.height), (1600, 1200));
    assert_eq!(m.viewport.x, ox);
    assert_eq!(m.viewport.y, 1200 - (oy + h as i64));
    assert_eq!((m.viewport.width, m.viewport.height), (w, h));
    // releasing converts the viewport back into window geometry
    let fx = m.refresh(UiEvent::RightReleased);
    assert!(fx.apply_window);
    assert!(matches!(m.state, InteractionState::Idle));
    assert_eq!((m.origin_x, m.origin_y), (ox, oy));
    assert_eq!((m.width, m.height), (w, h));
    assert_eq!((m.viewport.x, m.viewport.y), (0, 0));
}

#[test]
fn zoom_grows_the_window_around_the_cursor() {
    let mut m = machine();
    let _ = m.show_blank(400, 400);
    let _ = m.refresh(UiEvent::CursorMoved(100, 100));
    let (ox, oy) = (m.origin_x, m.origin_y);
    let _ = m.refresh(UiEvent::RightPressed);
    // after the re-parent the window spans the screen, so window
    // coordinates are screen coordinates; 100 px right of the capture
    let fx = m.refresh(UiEvent::CursorMoved(100 + ox + 100, 100 + oy));
    assert!(fx.apply_viewport && fx.redraw);
    match m.state {
        InteractionState::Zoom(ctx) => {
            // 100 px of rightward travel is a factor of exactly 1.3
            assert_eq!(m.viewport.width, ctx.width * 13 / 10);
        },
        _ => panic!("zoom ended unexpectedly"),
    }
}

#[test]
fn scale_change_forces_zoom_exit() {
    let mut m = machine();
    let _ = m.show_blank(400, 300);
    let _ = m.refresh(UiEvent::RightPressed);
    assert!(matches!(m.state, InteractionState::Zoom(_)));
    let fx = m.refresh(UiEvent::ScaleFactorChanged);
    assert!(fx.apply_window);
    assert!(matches!(m.state, InteractionState::Idle));
}

#[test]
fn scale_change_elsewhere_only_redraws() {
    let mut m = machine();
    let _ = m.show_blank(400, 300);
    let fx = m.refresh(UiEvent::ScaleFactorChanged);
    assert!(fx.redraw && !fx.apply_window && !fx.begin_drag);
    assert!(matches!(m.state, InteractionState::Idle));
}

#[test]
fn error_display_blocks_gestures() {
    let mut m = machine();
    let _ = m.show_error();
    assert!(m.is_error());
    assert!(matches!(m.state, InteractionState::Idle));
    let fx = m.refresh(UiEvent::LeftPressed);
    assert!(!fx.begin_drag);
    assert!(matches!(m.state, InteractionState::Idle));
    let fx = m.refresh(UiEvent::RightPressed);
    assert!(!fx.apply_window);
    assert!(matches!(m.state, InteractionState::Idle));
}

#[test]
fn error_box_scales_with_the_monitor() {
    let mut m = machine();
    m.set_scale_factor(1500);
    assert_eq!(m.error_box, [750, 750]);
    let _ = m.show_error();
    assert_eq!((m.width, m.height), (750, 750));
}

#[test]
fn show_picture_uploads_and_draws_a_blit() {
    let mut m = machine();
    let _ = m.show_blank(2, 2);
    let (w, h) = (m.width, m.height);
    let target = lcms2::Profile::new_srgb();
    let fx = m.show_picture(rgb_still(2, 2), &target);
    assert!(fx.redraw && !fx.apply_window);
    assert!(matches!(m.mode, RenderMode::Picture));
    // the picture never resizes the window: the placeholder already did
    assert_eq!((m.width, m.height), (w, h));
    match m.draw() {
        PaintOp::Blit { corners, swizzle, gamma } => {
            assert_eq!(swizzle, [0, 1, 2, 3]);
            assert_eq!(gamma, pictor::picture::Gamma { num: 1, den: 1 });
            assert_eq!(corners[0], [0, 0]);
            assert_eq!(corners[2], [m.viewport.width as i64, m.viewport.height as i64]);
        },
        _ => panic!("picture mode must blit"),
    }
}

#[test]
fn failed_transform_shows_the_error_instead() {
    let mut m = machine();
    let _ = m.show_blank(2, 2);
    // a gray picture against a colour target profile cannot transform
    let white = lcms2::CIExyY { x: 0.3127, y: 0.3290, Y: 1.0 };
    let curve = lcms2::ToneCurve::new(2.2);
    let gray_icc = lcms2::Profile::new_gray(&white, &curve).unwrap();
    let gray = StillPicture::from_decoded(
        2,
        2,
        1,
        false,
        false,
        PixelData::EightBit(vec![0u8; 4]),
        gray_icc,
    )
    .unwrap();
    let target = lcms2::Profile::new_srgb();
    let fx = m.show_picture(gray, &target);
    assert!(m.is_error());
    assert!(matches!(m.state, InteractionState::Idle));
    // the local recovery lays the error box out like show_error would
    assert!(fx.apply_window);
    assert_eq!((m.width, m.height), (500, 500));
}

#[test]
fn blank_and_error_draw_fills() {
    let mut m = machine();
    let _ = m.show_blank(400, 300);
    match m.draw() {
        PaintOp::Fill { color, corners } => {
            assert_eq!(color, [0, 0, 0, 1000]);
            assert_eq!(corners[0], [0, 0]);
            assert_eq!(corners[2], [400, 300]);
        },
        _ => panic!("blank mode must fill"),
    }
    let _ = m.show_error();
    match m.draw() {
        PaintOp::Fill { color, .. } => assert_eq!(color, [1000, 1000, 1000, 1000]),
        _ => panic!("error mode must fill"),
    }
}

#[test]
fn gestures_defer_geometry_for_new_modes() {
    let mut m = machine();
    let _ = m.show_blank(400, 300);
    let _ = m.refresh(UiEvent::LeftPressed);
    let (w, h) = (m.width, m.height);
    // a new placeholder arriving mid-drag changes the mode only
    let fx = m.show_blank(800, 600);
    assert!(!fx.apply_window);
    assert_eq!((m.width, m.height), (w, h));
    assert!(matches!(m.state, InteractionState::Drag));
}

#[test]
fn disable_ends_a_zoom_first() {
    let mut m = machine();
    let _ = m.show_blank(400, 300);
    let (ox, oy) = (m.origin_x, m.origin_y);
    let _ = m.refresh(UiEvent::RightPressed);
    let fx = m.disable_interaction();
    assert!(fx.apply_window);
    assert!(matches!(m.state, InteractionState::Disabled));
    assert_eq!((m.origin_x, m.origin_y), (ox, oy));
}
