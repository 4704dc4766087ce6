use vstd::prelude::*;
use crate::geometry::{COORD_LIMIT, Viewport, ZoomContext, scaled_size, zoomed_origin};
use crate::picture::StillPicture;
use crate::render::{Blitter, Filler, Image, PaintOp};

verus! {

// The interaction state machine.  It owns the window geometry, the
// viewport and the render mode, and it alone decides every transition
// between rest, drag and zoom.  The I/O shell feeds it events as plain
// values, reads the geometry back, and performs exactly the effects each
// call reports.

/// The lowest either fitted window dimension may fall.
pub const FIT_FLOOR: u64 = 100;

/// A mouse or window event, already reduced to plain values.
pub enum UiEvent {
    /// The cursor moved to this position in window coordinates.
    CursorMoved(i64, i64),
    LeftPressed,
    LeftReleased,
    RightPressed,
    RightReleased,
    /// The monitor scale factor changed; the shell has already stored
    /// the new factor with `set_scale_factor`.
    ScaleFactorChanged,
}

/// Which of the modal interactions is live.
pub enum InteractionState {
    /// All user-driven transitions are blocked.
    Disabled,
    /// The neutral hub.
    Idle,
    /// The window follows the cursor natively.
    Drag,
    /// The window scales around the captured cursor position.
    Zoom(ZoomContext),
}

/// What the window shows.
#[derive(Clone, Copy, PartialEq, Eq, Structural, Debug)]
pub enum RenderMode {
    Blank,
    Picture,
    Error,
}

/// What the shell must do after a call into the machine.
#[derive(Clone, Copy, PartialEq, Eq, Structural, Debug)]
pub struct Effects {
    /// Start the native window drag now.
    pub begin_drag: bool,
    /// Push the machine's origin and size to the window system.
    pub apply_window: bool,
    /// Push the machine's viewport to the rendering surface.
    pub apply_viewport: bool,
    /// Redraw.
    pub redraw: bool,
}

impl Effects {
    /// Nothing to do.
    pub open spec fn none() -> Effects {
        Effects { begin_drag: false, apply_window: false, apply_viewport: false, redraw: false }
    }

    pub open spec fn redraw_only() -> Effects {
        Effects { begin_drag: false, apply_window: false, apply_viewport: false, redraw: true }
    }

    pub open spec fn drag_only() -> Effects {
        Effects { begin_drag: true, apply_window: false, apply_viewport: false, redraw: false }
    }

    pub open spec fn geometry() -> Effects {
        Effects { begin_drag: false, apply_window: true, apply_viewport: true, redraw: true }
    }

    pub open spec fn viewport_only() -> Effects {
        Effects { begin_drag: false, apply_window: false, apply_viewport: true, redraw: true }
    }
}

pub open spec fn clamp_i(v: int, lo: int, hi: int) -> int {
    if v < lo {
        lo
    } else if v > hi {
        hi
    } else {
        v
    }
}

/// The window size that shows a picture of this size on this screen: the
/// target size itself while it stays within four fifths of the screen,
/// otherwise scaled down to four fifths of the screen-fitting size, and
/// in either case scaled back up if a dimension fell below the floor,
/// holding the larger dimension at the floor.
pub open spec fn fit_to_screen(w0: int, h0: int, sw: int, sh: int) -> (int, int) {
    let first = if 5 * w0 > 4 * sw || 5 * h0 > 4 * sh {
        if sw * h0 > w0 * sh {
            ((w0 * sh / h0) * 4 / 5, sh * 4 / 5)
        } else {
            (sw * 4 / 5, (h0 * sw / w0) * 4 / 5)
        }
    } else {
        (w0, h0)
    };
    let (f0, f1) = first;
    if f0 < FIT_FLOOR as int || f1 < FIT_FLOOR as int {
        if w0 > h0 {
            (
                FIT_FLOOR as int,
                if f0 > 0 {
                    f1 * (FIT_FLOOR as int) / f0
                } else {
                    FIT_FLOOR as int
                },
            )
        } else {
            (
                if f1 > 0 {
                    f0 * (FIT_FLOOR as int) / f1
                } else {
                    FIT_FLOOR as int
                },
                FIT_FLOOR as int,
            )
        }
    } else {
        (f0, f1)
    }
}

/// The fitted size bounded into what the machine's geometry admits.
pub open spec fn clamped_fit(w0: int, h0: int, sw: int, sh: int) -> (int, int) {
    let (f0, f1) = fit_to_screen(w0, h0, sw, sh);
    (clamp_i(f0, 1, COORD_LIMIT as int), clamp_i(f1, 1, COORD_LIMIT as int))
}

/// Whether `post` is `pre` with the window re-fitted to a content size:
/// the fitted dimensions, the centre kept, and the viewport reset to the
/// window's corner.
pub open spec fn refitted(pre: Interface, post: Interface, w0: int, h0: int) -> bool {
    let (fw, fh) = clamped_fit(w0, h0, pre.screen_width as int, pre.screen_height as int);
    &&& post.width as int == fw
    &&& post.height as int == fh
    &&& post.origin_x as int == clamp_i(
        pre.origin_x as int + (pre.width as int + 1) / 2 - (fw + 1) / 2,
        -(COORD_LIMIT as int),
        COORD_LIMIT as int,
    )
    &&& post.origin_y as int == clamp_i(
        pre.origin_y as int + (pre.height as int + 1) / 2 - (fh + 1) / 2,
        -(COORD_LIMIT as int),
        COORD_LIMIT as int,
    )
    &&& post.viewport == (Viewport { x: 0, y: 0, width: fw as u64, height: fh as u64 })
}

/// Whether the window geometry and the viewport are exactly as they were.
pub open spec fn geometry_unchanged(pre: Interface, post: Interface) -> bool {
    &&& post.origin_x == pre.origin_x
    &&& post.origin_y == pre.origin_y
    &&& post.width == pre.width
    &&& post.height == pre.height
    &&& post.viewport == pre.viewport
}

/// Whether `post` is `pre` with the zoomed viewport converted back into
/// real window geometry: the viewport rectangle becomes the window, its
/// vertical coordinate is unflipped out of the bottom-left convention,
/// and the viewport starts again at the window's corner.
pub open spec fn zoom_exited(pre: Interface, post: Interface) -> bool {
    &&& post.width as int == clamp_i(pre.viewport.width as int, 1, COORD_LIMIT as int)
    &&& post.height as int == clamp_i(pre.viewport.height as int, 1, COORD_LIMIT as int)
    &&& post.origin_x as int == clamp_i(
        pre.viewport.x as int,
        -(COORD_LIMIT as int),
        COORD_LIMIT as int,
    )
    &&& post.origin_y as int == clamp_i(
        pre.screen_height as int - (pre.viewport.y as int + post.height as int),
        -(COORD_LIMIT as int),
        COORD_LIMIT as int,
    )
    &&& post.viewport == (Viewport { x: 0, y: 0, width: post.width, height: post.height })
}

/// Whether the four corners trace the rectangle of this viewport, in the
/// painters' drawing order.
pub open spec fn corners_trace(corners: [[i64; 2]; 4], v: Viewport) -> bool {
    &&& corners@[0]@[0] == v.x && corners@[0]@[1] == v.y
    &&& corners@[1]@[0] == v.x && corners@[1]@[1] == v.y + v.height
    &&& corners@[2]@[0] == v.x + v.width && corners@[2]@[1] == v.y + v.height
    &&& corners@[3]@[0] == v.x + v.width && corners@[3]@[1] == v.y
}

/// The interaction machine with everything it owns: state, cursor,
/// window geometry, viewport, render mode and painters.
pub struct Interface {
    pub state: InteractionState,
    /// Cursor in window coordinates.
    pub cursor_x: i64,
    pub cursor_y: i64,
    /// Window origin in screen coordinates.
    pub origin_x: i64,
    pub origin_y: i64,
    /// Window size.
    pub width: u64,
    pub height: u64,
    /// The current monitor's size.
    pub screen_width: u64,
    pub screen_height: u64,
    /// The rendering viewport, bottom-left origin.
    pub viewport: Viewport,
    pub mode: RenderMode,
    /// The monitor scale factor in thousandths.
    pub scale_permille: u32,
    /// The error box size at the current scale factor.
    pub error_box: [u64; 2],
    /// Fills the window for the blank and error modes.
    pub filler: Filler,
    /// Blits the shown picture.
    pub blitter: Blitter,
}

impl Interface {
    /// Geometry the machine keeps inside its model's bounds.
    pub open spec fn wf(self) -> bool {
        &&& 0 < self.width <= COORD_LIMIT
        &&& 0 < self.height <= COORD_LIMIT
        &&& 0 < self.screen_width <= COORD_LIMIT
        &&& 0 < self.screen_height <= COORD_LIMIT
        &&& -(COORD_LIMIT as int) <= self.origin_x as int <= COORD_LIMIT as int
        &&& -(COORD_LIMIT as int) <= self.origin_y as int <= COORD_LIMIT as int
        &&& -(COORD_LIMIT as int) <= self.cursor_x as int <= COORD_LIMIT as int
        &&& -(COORD_LIMIT as int) <= self.cursor_y as int <= COORD_LIMIT as int
        &&& (self.state matches InteractionState::Zoom(ctx) ==> ctx.wf())
        &&& self.viewport.width <= 1100000000000
        &&& self.viewport.height <= 1100000000000
        &&& -5000000000000 <= self.viewport.x as int <= 5000000000000
        &&& -5000000000000 <= self.viewport.y as int <= 5000000000000
        &&& (self.mode is Picture ==> self.blitter.image_spec() is Some)
        &&& 0 < self.scale_permille
        &&& self.error_box@[0] == (500 * self.scale_permille as int + 500) / 1000
        &&& self.error_box@[1] == (500 * self.scale_permille as int + 500) / 1000
    }

    /// A machine that starts disabled, blank, at unit scale, with the
    /// window and screen geometry the shell read at creation.
    pub fn new(
        origin_x: i64,
        origin_y: i64,
        width: u64,
        height: u64,
        screen_width: u64,
        screen_height: u64,
    ) -> (r: Interface)
        requires
            0 < width <= COORD_LIMIT,
            0 < height <= COORD_LIMIT,
            0 < screen_width <= COORD_LIMIT,
            0 < screen_height <= COORD_LIMIT,
            -(COORD_LIMIT as int) <= origin_x as int <= COORD_LIMIT as int,
            -(COORD_LIMIT as int) <= origin_y as int <= COORD_LIMIT as int,
        ensures
            r.wf(),
            r.state is Disabled,
            r.mode is Blank,
            r.origin_x == origin_x && r.origin_y == origin_y,
            r.width == width && r.height == height,
            r.screen_width == screen_width && r.screen_height == screen_height,
            r.scale_permille == 1000,
    {
        Interface {
            state: InteractionState::Disabled,
            cursor_x: 0,
            cursor_y: 0,
            origin_x,
            origin_y,
            width,
            height,
            screen_width,
            screen_height,
            viewport: Viewport { x: 0, y: 0, width, height },
            mode: RenderMode::Blank,
            scale_permille: 1000,
            error_box: [500, 500],
            filler: Filler::new(),
            blitter: Blitter::new(),
        }
    }

    /// Whether an error display is up.
    pub fn is_error(&self) -> (r: bool)
        ensures
            r == (self.mode is Error),
    {
        match self.mode {
            RenderMode::Error => true,
            _ => false,
        }
    }

    /// Stores the new monitor scale factor and lays the error box out
    /// for it.
    pub fn set_scale_factor(&mut self, permille: u32)
        requires
            old(self).wf(),
            0 < permille,
        ensures
            final(self).wf(),
            *final(self) == (Interface {
                scale_permille: permille,
                error_box: final(self).error_box,
                ..*old(self)
            }),
            final(self).error_box@[0] == (500 * permille as int + 500) / 1000,
            final(self).error_box@[1] == (500 * permille as int + 500) / 1000,
    {
        self.scale_permille = permille;
        let side = (500 * (permille as u64) + 500) / 1000;
        self.error_box = [side, side];
        proof {
            assert(self.error_box@[0] == (500 * permille as int + 500) / 1000);
        }
    }

    /// Stores the screen size of the monitor the window sits on.
    pub fn set_screen_size(&mut self, width: u64, height: u64)
        requires
            old(self).wf(),
            0 < width <= COORD_LIMIT,
            0 < height <= COORD_LIMIT,
        ensures
            final(self).wf(),
            *final(self) == (Interface {
                screen_width: width,
                screen_height: height,
                ..*old(self)
            }),
    {
        self.screen_width = width;
        self.screen_height = height;
    }

    /// Resizes and repositions the window for a content size: the size is
    /// fitted to the screen, and the window keeps its centre.
    fn position_size_next(&mut self, target_w: u32, target_h: u32)
        requires
            old(self).wf(),
            target_w > 0,
            target_h > 0,
        ensures
            final(self).wf(),
            refitted(*old(self), *final(self), target_w as int, target_h as int),
            final(self).state == old(self).state,
            final(self).mode == old(self).mode,
            final(self).cursor_x == old(self).cursor_x,
            final(self).cursor_y == old(self).cursor_y,
            final(self).screen_width == old(self).screen_width,
            final(self).screen_height == old(self).screen_height,
            final(self).scale_permille == old(self).scale_permille,
            final(self).error_box == old(self).error_box,
            final(self).blitter == old(self).blitter,
    {
        let w0 = target_w as u64;
        let h0 = target_h as u64;
        let sw = self.screen_width;
        let sh = self.screen_height;
        let oversized = 5 * w0 > 4 * sw || 5 * h0 > 4 * sh;
        let (mut f0, mut f1): (u64, u64);
        if oversized {
            proof {
                assert((sw as int) * (h0 as int) <= 0xffffffffff * 0xffffffffff) by (
                nonlinear_arith)
                    requires
                        sw <= 0xffffffffffu64,
                        h0 <= 0xffffffffffu64,
                ;
                assert((w0 as int) * (sh as int) <= 0xffffffffff * 0xffffffffff) by (
                nonlinear_arith)
                    requires
                        w0 <= 0xffffffffffu64,
                        sh <= 0xffffffffffu64,
                ;
            }
            if (sw as u128) * (h0 as u128) > (w0 as u128) * (sh as u128) {
                let across = ((w0 as u128) * (sh as u128) / (h0 as u128)) as u64;
                proof {
                    lemma_fit_quotient(w0 as int, sh as int, h0 as int);
                }
                f0 = across * 4 / 5;
                f1 = sh * 4 / 5;
            } else {
                let down = ((h0 as u128) * (sw as u128) / (w0 as u128)) as u64;
                proof {
                    lemma_fit_quotient(h0 as int, sw as int, w0 as int);
                }
                f0 = sw * 4 / 5;
                f1 = down * 4 / 5;
            }
        } else {
            f0 = w0;
            f1 = h0;
        }
        if f0 < FIT_FLOOR || f1 < FIT_FLOOR {
            if w0 > h0 {
                let grown = if f0 > 0 {
                    proof {
                        lemma_fit_grow(f1 as int, f0 as int);
                    }
                    ((f1 as u128) * (FIT_FLOOR as u128) / (f0 as u128)) as u64
                } else {
                    FIT_FLOOR
                };
                f0 = FIT_FLOOR;
                f1 = grown;
            } else {
                let grown = if f1 > 0 {
                    proof {
                        lemma_fit_grow(f0 as int, f1 as int);
                    }
                    ((f0 as u128) * (FIT_FLOOR as u128) / (f1 as u128)) as u64
                } else {
                    FIT_FLOOR
                };
                f0 = grown;
                f1 = FIT_FLOOR;
            }
        }
        let fw = if f0 < 1 {
            1
        } else if f0 > COORD_LIMIT {
            COORD_LIMIT
        } else {
            f0
        };
        let fh = if f1 < 1 {
            1
        } else if f1 > COORD_LIMIT {
            COORD_LIMIT
        } else {
            f1
        };
        let prev_cx = self.origin_x + ((self.width + 1) / 2) as i64;
        let new_cx = self.origin_x + ((fw + 1) / 2) as i64;
        let prev_cy = self.origin_y + ((self.height + 1) / 2) as i64;
        let new_cy = self.origin_y + ((fh + 1) / 2) as i64;
        let ox = self.origin_x - (new_cx - prev_cx);
        let oy = self.origin_y - (new_cy - prev_cy);
        self.origin_x = clamp_exec(ox);
        self.origin_y = clamp_exec(oy);
        self.width = fw;
        self.height = fh;
        self.viewport = Viewport { x: 0, y: 0, width: fw, height: fh };
    }

    /// One window event.  Every transition of the machine is decided
    /// here, exactly as the state diagram says: drag and zoom start only
    /// from the neutral state and not over an error display, releases
    /// and scale changes end them, and a disabled machine only tracks
    /// the cursor and redraws.
    pub fn refresh(&mut self, event: UiEvent) -> (fx: Effects)
        requires
            old(self).wf(),
        ensures
            final(self).wf(),
            final(self).mode == old(self).mode,
            final(self).blitter == old(self).blitter,
            final(self).error_box == old(self).error_box,
            final(self).scale_permille == old(self).scale_permille,
            final(self).screen_width == old(self).screen_width,
            final(self).screen_height == old(self).screen_height,
            !(event matches UiEvent::CursorMoved(_, _)) ==> final(self).cursor_x == old(
                self,
            ).cursor_x && final(self).cursor_y == old(self).cursor_y,
            match event {
                UiEvent::CursorMoved(x, y) => {
                    &&& final(self).cursor_x as int == clamp_i(
                        x as int,
                        -(COORD_LIMIT as int),
                        COORD_LIMIT as int,
                    )
                    &&& final(self).cursor_y as int == clamp_i(
                        y as int,
                        -(COORD_LIMIT as int),
                        COORD_LIMIT as int,
                    )
                    &&& match old(self).state {
                        InteractionState::Zoom(ctx) => {
                            let z = ctx.zoom_of(
                                final(self).cursor_x as int + old(self).origin_x as int,
                                final(self).cursor_y as int + old(self).origin_y as int,
                            );
                            &&& final(self).state == old(self).state
                            &&& final(self).viewport.width as int == scaled_size(
                                ctx.width as int,
                                z,
                            )
                            &&& final(self).viewport.height as int == scaled_size(
                                ctx.height as int,
                                z,
                            )
                            &&& final(self).viewport.x as int == zoomed_origin(
                                ctx.origin_x as int,
                                ctx.cursor_x as int,
                                z,
                            )
                            &&& final(self).viewport.y as int == ctx.screen_height as int
                                - (zoomed_origin(ctx.origin_y as int, ctx.cursor_y as int, z)
                                + final(self).viewport.height as int)
                            &&& final(self).origin_x == old(self).origin_x
                            &&& final(self).origin_y == old(self).origin_y
                            &&& final(self).width == old(self).width
                            &&& final(self).height == old(self).height
                            &&& fx == Effects::viewport_only()
                        },
                        _ => {
                            &&& final(self).state == old(self).state
                            &&& geometry_unchanged(*old(self), *final(self))
                            &&& fx == Effects::none()
                        },
                    }
                },
                UiEvent::LeftPressed => geometry_unchanged(*old(self), *final(self))
                    && match old(self).state {
                    InteractionState::Idle => {
                        if old(self).mode is Error {
                            final(self).state is Idle && fx == Effects::none()
                        } else {
                            final(self).state is Drag && fx == Effects::drag_only()
                        }
                    },
                    _ => final(self).state == old(self).state && fx == Effects::none(),
                },
                UiEvent::LeftReleased => geometry_unchanged(*old(self), *final(self))
                    && match old(self).state {
                    InteractionState::Drag => final(self).state is Idle && fx
                        == Effects::none(),
                    _ => final(self).state == old(self).state && fx == Effects::none(),
                },
                UiEvent::RightPressed => match old(self).state {
                    InteractionState::Idle => {
                        if old(self).mode is Error {
                            final(self).state is Idle && fx == Effects::none()
                        } else {
                            &&& final(self).state matches InteractionState::Zoom(ctx)
                                && ctx.origin_x == old(self).origin_x && ctx.origin_y == old(self).origin_y && ctx.width == old(self).width && ctx.height == old(self).height
                            &&& final(self).origin_x == 0 && final(self).origin_y == 0
                            &&& final(self).width == old(self).screen_width && final(self).height == old(self).screen_height
                            &&& final(self).viewport.x == old(self).origin_x
                            &&& final(self).viewport.y as int == old(self).screen_height as int
                                - (old(self).origin_y as int + old(self).height as int)
                            &&& final(self).viewport.width == old(self).width
                            &&& final(self).viewport.height == old(self).height
                            &&& fx == Effects::geometry()
                        }
                    },
                    _ => final(self).state == old(self).state && geometry_unchanged(
                        *old(self),
                        *final(self),
                    ) && fx == Effects::none(),
                },
                UiEvent::RightReleased => match old(self).state {
                    InteractionState::Zoom(_) => final(self).state is Idle && zoom_exited(
                        *old(self),
                        *final(self),
                    ) && fx == Effects::geometry(),
                    _ => final(self).state == old(self).state && geometry_unchanged(
                        *old(self),
                        *final(self),
                    ) && fx == Effects::none(),
                },
                UiEvent::ScaleFactorChanged => match old(self).state {
                    InteractionState::Zoom(_) => final(self).state is Idle && zoom_exited(
                        *old(self),
                        *final(self),
                    ) && fx == Effects::geometry(),
                    _ => final(self).state == old(self).state && geometry_unchanged(
                        *old(self),
                        *final(self),
                    ) && fx == Effects::redraw_only(),
                },
            },
    {
        match event {
            UiEvent::CursorMoved(x, y) => {
                self.cursor_x = clamp_exec(x);
                self.cursor_y = clamp_exec(y);
                let zoom_view = match &self.state {
                    InteractionState::Zoom(ctx) => {
                        // the window spans the screen during a zoom, so
                        // window coordinates are screen coordinates up to
                        // the stored origin
                        let sx = self.cursor_x + self.origin_x;
                        let sy = self.cursor_y + self.origin_y;
                        Some(ctx.compute_viewport(sx, sy))
                    },
                    _ => None,
                };
                match zoom_view {
                    Some(v) => {
                        self.viewport = v;
                        Effects { begin_drag: false, apply_window: false, apply_viewport: true, redraw: true }
                    },
                    None => Effects { begin_drag: false, apply_window: false, apply_viewport: false, redraw: false },
                }
            },
            UiEvent::LeftPressed => {
                let start = match &self.state {
                    InteractionState::Idle => !self.is_error(),
                    _ => false,
                };
                if start {
                    self.state = InteractionState::Drag;
                    Effects { begin_drag: true, apply_window: false, apply_viewport: false, redraw: false }
                } else {
                    Effects { begin_drag: false, apply_window: false, apply_viewport: false, redraw: false }
                }
            },
            UiEvent::LeftReleased => {
                let release = match &self.state {
                    InteractionState::Drag => true,
                    _ => false,
                };
                if release {
                    self.state = InteractionState::Idle;
                }
                Effects { begin_drag: false, apply_window: false, apply_viewport: false, redraw: false }
            },
            UiEvent::RightPressed => {
                let start = match &self.state {
                    InteractionState::Idle => !self.is_error(),
                    _ => false,
                };
                if start {
                    let ctx = ZoomContext::capture(
                        self.cursor_x,
                        self.cursor_y,
                        self.origin_x,
                        self.origin_y,
                        self.width,
                        self.height,
                        self.screen_width,
                        self.screen_height,
                    );
                    self.viewport = Viewport {
                        x: self.origin_x,
                        y: self.screen_height as i64 - (self.origin_y + self.height as i64),
                        width: self.width,
                        height: self.height,
                    };
                    self.origin_x = 0;
                    self.origin_y = 0;
                    self.width = self.screen_width;
                    self.height = self.screen_height;
                    self.state = InteractionState::Zoom(ctx);
                    Effects { begin_drag: false, apply_window: true, apply_viewport: true, redraw: true }
                } else {
                    Effects { begin_drag: false, apply_window: false, apply_viewport: false, redraw: false }
                }
            },
            UiEvent::RightReleased => {
                let zooming = match &self.state {
                    InteractionState::Zoom(_) => true,
                    _ => false,
                };
                if zooming {
                    self.exit_zoom();
                    Effects { begin_drag: false, apply_window: true, apply_viewport: true, redraw: true }
                } else {
                    Effects { begin_drag: false, apply_window: false, apply_viewport: false, redraw: false }
                }
            },
            UiEvent::ScaleFactorChanged => {
                let zooming = match &self.state {
                    InteractionState::Zoom(_) => true,
                    _ => false,
                };
                if zooming {
                    self.exit_zoom();
                    Effects { begin_drag: false, apply_window: true, apply_viewport: true, redraw: true }
                } else {
                    Effects { begin_drag: false, apply_window: false, apply_viewport: false, redraw: true }
                }
            },
        }
    }

    /// Converts the zoomed viewport back into real window geometry: the
    /// viewport rectangle becomes the window, its vertical coordinate is
    /// unflipped, and the viewport starts again at the window's corner.
    fn exit_zoom(&mut self)
        requires
            old(self).wf(),
        ensures
            final(self).wf(),
            final(self).state is Idle,
            zoom_exited(*old(self), *final(self)),
            final(self).mode == old(self).mode,
            final(self).blitter == old(self).blitter,
            final(self).error_box == old(self).error_box,
            final(self).scale_permille == old(self).scale_permille,
            final(self).screen_width == old(self).screen_width,
            final(self).screen_height == old(self).screen_height,
            final(self).cursor_x == old(self).cursor_x,
            final(self).cursor_y == old(self).cursor_y,
    {
        let w = clamp_size(self.viewport.width);
        let h = clamp_size(self.viewport.height);
        let ox = clamp_exec_wide(self.viewport.x);
        let raw_oy = self.screen_height as i64 - (self.viewport.y + h as i64);
        let oy = clamp_exec_wide(raw_oy);
        self.origin_x = ox;
        self.origin_y = oy;
        self.width = w;
        self.height = h;
        self.viewport = Viewport { x: 0, y: 0, width: w, height: h };
        self.state = InteractionState::Idle;
    }

    /// Disables all user-driven transitions.  A zoom in progress is ended
    /// and its geometry applied first; disabling during a drag is a
    /// programming error and stays excluded.
    pub fn disable_interaction(&mut self) -> (fx: Effects)
        requires
            old(self).wf(),
            !(old(self).state is Drag),
        ensures
            final(self).wf(),
            final(self).state is Disabled,
            final(self).mode == old(self).mode,
            final(self).blitter == old(self).blitter,
            match old(self).state {
                InteractionState::Zoom(_) => fx == Effects::geometry() && zoom_exited(
                    *old(self),
                    *final(self),
                ),
                _ => fx == Effects::none() && geometry_unchanged(*old(self), *final(self)),
            },
    {
        let zooming = match &self.state {
            InteractionState::Zoom(_) => true,
            _ => false,
        };
        if zooming {
            self.exit_zoom();
            self.state = InteractionState::Disabled;
            Effects { begin_drag: false, apply_window: true, apply_viewport: true, redraw: true }
        } else {
            self.state = InteractionState::Disabled;
            Effects { begin_drag: false, apply_window: false, apply_viewport: false, redraw: false }
        }
    }

    /// Shows a blank placeholder of the picture's dimensions.  From the
    /// disabled state this enables interaction; during a drag or zoom the
    /// mode changes but the geometry is deferred until the gesture ends.
    pub fn show_blank(&mut self, width: u32, height: u32) -> (fx: Effects)
        requires
            old(self).wf(),
            width > 0,
            height > 0,
        ensures
            final(self).wf(),
            final(self).mode is Blank,
            final(self).blitter == old(self).blitter,
            final(self).cursor_x == old(self).cursor_x,
            final(self).cursor_y == old(self).cursor_y,
            final(self).screen_width == old(self).screen_width,
            final(self).screen_height == old(self).screen_height,
            final(self).scale_permille == old(self).scale_permille,
            final(self).error_box == old(self).error_box,
            match old(self).state {
                InteractionState::Disabled => final(self).state is Idle && fx
                    == Effects::geometry() && refitted(
                    *old(self),
                    *final(self),
                    width as int,
                    height as int,
                ),
                InteractionState::Idle => final(self).state is Idle && fx
                    == Effects::geometry() && refitted(
                    *old(self),
                    *final(self),
                    width as int,
                    height as int,
                ),
                InteractionState::Drag => final(self).state is Drag && fx
                    == Effects::redraw_only() && geometry_unchanged(*old(self), *final(self)),
                InteractionState::Zoom(_) => final(self).state == old(self).state && fx
                    == Effects::redraw_only() && geometry_unchanged(*old(self), *final(self)),
            },
    {
        self.mode = RenderMode::Blank;
        let fit = match &self.state {
            InteractionState::Disabled => {
                self.state = InteractionState::Idle;
                true
            },
            InteractionState::Idle => true,
            _ => false,
        };
        if fit {
            self.position_size_next(width, height);
            Effects { begin_drag: false, apply_window: true, apply_viewport: true, redraw: true }
        } else {
            Effects { begin_drag: false, apply_window: false, apply_viewport: false, redraw: true }
        }
    }

    /// Shows a decoded picture: its pixels are re-expressed in the
    /// monitor's colour space and uploaded.  A failed colour transform
    /// falls back to showing the error locally.  The window geometry is
    /// never touched: the placeholder already sized it.
    pub fn show_picture(&mut self, still: StillPicture, target: &lcms2::Profile) -> (fx:
        Effects)
        requires
            old(self).wf(),
            still.wf(),
        ensures
            final(self).wf(),
            final(self).mode is Picture || final(self).mode is Error,
            final(self).cursor_x == old(self).cursor_x,
            final(self).cursor_y == old(self).cursor_y,
            final(self).screen_width == old(self).screen_width,
            final(self).screen_height == old(self).screen_height,
            final(self).scale_permille == old(self).scale_permille,
            final(self).error_box == old(self).error_box,
            final(self).mode is Picture ==> ({
                &&& match old(self).state {
                    InteractionState::Disabled => final(self).state is Idle,
                    _ => final(self).state == old(self).state,
                }
                &&& final(self).blitter.image_spec() matches Some(img) && img.wf()
                    && img.resolution == still.resolution && img.channel_count
                    == still.channel_count
                &&& final(self).blitter.gamma_spec() == still.gamma
                &&& final(self).blitter.swizzle_spec()@
                    == still.channel_interpretation.spec_swizzle()
                &&& geometry_unchanged(*old(self), *final(self))
                &&& fx == Effects::redraw_only()
            }),
            final(self).mode is Error ==> ({
                &&& final(self).blitter == old(self).blitter
                &&& match old(self).state {
                    InteractionState::Disabled => final(self).state is Idle && fx
                        == Effects::geometry() && refitted(
                        *old(self),
                        *final(self),
                        old(self).error_box@[0] as int,
                        old(self).error_box@[1] as int,
                    ),
                    InteractionState::Idle => final(self).state is Idle && fx
                        == Effects::geometry() && refitted(
                        *old(self),
                        *final(self),
                        old(self).error_box@[0] as int,
                        old(self).error_box@[1] as int,
                    ),
                    InteractionState::Drag => final(self).state is Drag && fx
                        == Effects::redraw_only() && geometry_unchanged(
                        *old(self),
                        *final(self),
                    ),
                    InteractionState::Zoom(_) => final(self).state == old(self).state && fx
                        == Effects::redraw_only() && geometry_unchanged(
                        *old(self),
                        *final(self),
                    ),
                }
            }),
    {
        let mut still = still;
        match still.transform_to_icc(target) {
            Ok(()) => {
                match &self.state {
                    InteractionState::Disabled => {
                        self.state = InteractionState::Idle;
                    },
                    _ => {},
                }
                self.mode = RenderMode::Picture;
                let swizzle = still.channel_interpretation.swizzle_for_rgba();
                let gamma = still.gamma;
                let resolution = still.resolution;
                let channel_count = still.channel_count;
                self.blitter.upload_texture(
                    Image { data: Some(still.pixel_data), resolution, channel_count },
                    swizzle,
                    gamma,
                );
                Effects { begin_drag: false, apply_window: false, apply_viewport: false, redraw: true }
            },
            Err(_) => self.show_error(),
        }
    }

    /// Shows the error display.  From the disabled state this enables
    /// interaction; during a drag or zoom the mode changes but the
    /// geometry is deferred until the gesture ends.
    pub fn show_error(&mut self) -> (fx: Effects)
        requires
            old(self).wf(),
        ensures
            final(self).wf(),
            final(self).mode is Error,
            final(self).blitter == old(self).blitter,
            final(self).cursor_x == old(self).cursor_x,
            final(self).cursor_y == old(self).cursor_y,
            final(self).screen_width == old(self).screen_width,
            final(self).screen_height == old(self).screen_height,
            final(self).scale_permille == old(self).scale_permille,
            final(self).error_box == old(self).error_box,
            match old(self).state {
                InteractionState::Disabled => final(self).state is Idle && fx
                    == Effects::geometry() && refitted(
                    *old(self),
                    *final(self),
                    old(self).error_box@[0] as int,
                    old(self).error_box@[1] as int,
                ),
                InteractionState::Idle => final(self).state is Idle && fx
                    == Effects::geometry() && refitted(
                    *old(self),
                    *final(self),
                    old(self).error_box@[0] as int,
                    old(self).error_box@[1] as int,
                ),
                InteractionState::Drag => final(self).state is Drag && fx
                    == Effects::redraw_only() && geometry_unchanged(*old(self), *final(self)),
                InteractionState::Zoom(_) => final(self).state == old(self).state && fx
                    == Effects::redraw_only() && geometry_unchanged(*old(self), *final(self)),
            },
    {
        self.mode = RenderMode::Error;
        let fit = match &self.state {
            InteractionState::Disabled => {
                self.state = InteractionState::Idle;
                true
            },
            InteractionState::Idle => true,
            _ => false,
        };
        if fit {
            let bw = self.error_box[0];
            let bh = self.error_box[1];
            proof {
                // the error box is half a thousand thousandth-scaled
                // pixels a side: at least one pixel, and within 32 bits
                // for every admissible scale factor
                let side = 500 * self.scale_permille as int + 500;
                assert(side / 1000 >= 1) by {
                    vstd::arithmetic::div_mod::lemma_div_is_ordered(1000, side, 1000);
                }
                assert(side / 1000 < 0x100000000) by {
                    vstd::arithmetic::div_mod::lemma_multiply_divide_lt(
                        side,
                        1000,
                        0x100000000,
                    );
                }
            }
            let tw = bw as u32;
            let th = bh as u32;
            self.position_size_next(tw, th);
            Effects { begin_drag: false, apply_window: true, apply_viewport: true, redraw: true }
        } else {
            Effects { begin_drag: false, apply_window: false, apply_viewport: false, redraw: true }
        }
    }

    /// The paint command for what the window currently shows: the quad
    /// over the current viewport, filled black for the blank placeholder
    /// and white for the error box, or blitted with the uploaded
    /// picture's channel order and gamma.
    pub fn draw(&self) -> (r: PaintOp)
        requires
            self.wf(),
        ensures
            match self.mode {
                RenderMode::Blank => (r matches PaintOp::Fill { color, corners } && color@
                    == seq![0u16, 0u16, 0u16, 1000u16] && corners_trace(
                    corners,
                    self.viewport,
                )),
                RenderMode::Error => (r matches PaintOp::Fill { color, corners } && color@
                    == seq![1000u16, 1000u16, 1000u16, 1000u16] && corners_trace(
                    corners,
                    self.viewport,
                )),
                RenderMode::Picture => (r matches PaintOp::Blit { corners, swizzle, gamma }
                    && corners_trace(corners, self.viewport) && swizzle
                    == self.blitter.swizzle_spec() && gamma == self.blitter.gamma_spec()),
            },
    {
        let origin = [self.viewport.x, self.viewport.y];
        let size = [self.viewport.width, self.viewport.height];
        proof {
            assert(origin@[0] == self.viewport.x && origin@[1] == self.viewport.y);
            assert(size@[0] == self.viewport.width && size@[1] == self.viewport.height);
        }
        match self.mode {
            RenderMode::Blank => {
                let black = [0u16, 0u16, 0u16, 1000u16];
                proof {
                    assert(black@ =~= seq![0u16, 0u16, 0u16, 1000u16]);
                }
                self.filler.fill(black, origin, size)
            },
            RenderMode::Picture => self.blitter.blit(origin, size),
            RenderMode::Error => {
                let white = [1000u16, 1000u16, 1000u16, 1000u16];
                proof {
                    assert(white@ =~= seq![1000u16, 1000u16, 1000u16, 1000u16]);
                }
                self.filler.fill(white, origin, size)
            },
        }
    }
}


/// Law: a zoom that ends where it began restores the window exactly.
/// Entering the zoom records the old window rectangle in the viewport,
/// vertically flipped; exiting converts the viewport back.  When the
/// viewport is still the entry rectangle — the cursor never moved, or
/// moved and returned under an identity factor — the window comes back
/// with the very size and origin it had before the gesture.  The
/// hypotheses are exactly what `refresh` ensures of the right-press arm
/// and of the exit arms.
pub proof fn lemma_zoom_round_trip(before: Interface, entered: Interface, after: Interface)
    requires
        before.wf(),
        entered.screen_height == before.screen_height,
        entered.viewport.x == before.origin_x,
        entered.viewport.y as int == before.screen_height as int - (before.origin_y as int
            + before.height as int),
        entered.viewport.width == before.width,
        entered.viewport.height == before.height,
        zoom_exited(entered, after),
    ensures
        after.width == before.width,
        after.height == before.height,
        after.origin_x == before.origin_x,
        after.origin_y == before.origin_y,
        after.viewport == (Viewport {
            x: 0,
            y: 0,
            width: before.width,
            height: before.height,
        }),
{
}

/// The screen-fit quotient stays within machine range.
proof fn lemma_fit_quotient(a: int, b: int, c: int)
    requires
        0 <= a <= 0xffffffff,
        0 <= b <= COORD_LIMIT as int,
        0 < c,
    ensures
        0 <= a * b / c <= 0xffffffff * (COORD_LIMIT as int),
{
    assert(0 <= a * b <= 0xffffffff * (COORD_LIMIT as int)) by (nonlinear_arith)
        requires
            0 <= a <= 0xffffffff,
            0 <= b <= COORD_LIMIT as int,
    ;
    vstd::arithmetic::div_mod::lemma_div_pos_is_pos(a * b, c);
    assert(a * b / c <= a * b / 1) by {
        vstd::arithmetic::div_mod::lemma_div_is_ordered_by_denominator(a * b, 1, c);
    }
}

/// Scaling back up to the floor stays within machine range.
proof fn lemma_fit_grow(a: int, b: int)
    requires
        0 <= a <= 100 * 0xffffffff * (COORD_LIMIT as int),
        0 < b,
    ensures
        0 <= a * (FIT_FLOOR as int) / b <= 100 * 0xffffffff * (COORD_LIMIT as int) * (
        FIT_FLOOR as int),
{
    assert(0 <= a * (FIT_FLOOR as int) <= 100 * 0xffffffff * (COORD_LIMIT as int) * (
    FIT_FLOOR as int)) by (nonlinear_arith)
        requires
            0 <= a <= 100 * 0xffffffff * (COORD_LIMIT as int),
            FIT_FLOOR == 100u64,
    ;
    vstd::arithmetic::div_mod::lemma_div_pos_is_pos(a * (FIT_FLOOR as int), b);
    assert(a * (FIT_FLOOR as int) / b <= a * (FIT_FLOOR as int) / 1) by {
        vstd::arithmetic::div_mod::lemma_div_is_ordered_by_denominator(
            a * (FIT_FLOOR as int),
            1,
            b,
        );
    }
}

/// Clamps a coordinate into the model's bounds.
fn clamp_exec(v: i64) -> (r: i64)
    ensures
        r as int == clamp_i(v as int, -(COORD_LIMIT as int), COORD_LIMIT as int),
{
    let limit = COORD_LIMIT as i64;
    if v < -limit {
        -limit
    } else if v > limit {
        limit
    } else {
        v
    }
}


/// Clamps a coordinate into the model's bounds.
fn clamp_exec_wide(v: i64) -> (r: i64)
    ensures
        r as int == clamp_i(v as int, -(COORD_LIMIT as int), COORD_LIMIT as int),
{
    clamp_exec(v)
}

/// Clamps a window dimension into the model's bounds.
fn clamp_size(v: u64) -> (r: u64)
    ensures
        r as int == clamp_i(v as int, 1, COORD_LIMIT as int),
{
    if v < 1 {
        1
    } else if v > COORD_LIMIT {
        COORD_LIMIT
    } else {
        v
    }
}

} // verus!
