//! Viewport state over the complex plane and its transitions.
//!
//! The viewport owns the plane center, the zoom scale, the iteration cap,
//! the precision flag and the fractal mode. Every transition is a
//! deterministic arithmetic update over exact rationals; a transition
//! whose reduced result would not fit the bounded representation yields
//! `None`, and the caller keeps the previous state.

use vstd::prelude::*;
use crate::rat::{
    Rat, add_spec, sub_spec, mul_spec, div_spec, lemma_add_val, lemma_sub_val, lemma_mul_val,
    lemma_div_val,
};

verus! {

/// Fractal family shown by the explorer. The Julia state carries the
/// frozen constant chosen at mode entry and the snapshot of the
/// Mandelbrot view to restore on exit, so the snapshot exists exactly
/// when it is meaningful.
#[derive(Clone, Copy, Debug, PartialEq, Eq, Structural)]
pub enum FractalMode {
    Mandelbrot,
    Julia {
        constant_x: Rat,
        constant_y: Rat,
        saved_center_x: Rat,
        saved_center_y: Rat,
        saved_zoom: Rat,
    },
}

/// The current view of the complex plane.
#[derive(Clone, Copy, Debug, PartialEq, Eq, Structural)]
pub struct ViewportState {
    pub center_x: Rat,
    pub center_y: Rat,
    pub zoom: Rat,
    pub iteration_cap: u32,
    pub double_precision: bool,
    pub mode: FractalMode,
}

/// Cursor and viewport data carried between events.
#[derive(Clone, Copy, Debug, PartialEq, Eq, Structural)]
pub struct InputFrame {
    pub cursor_x: Rat,
    pub cursor_y: Rat,
    pub cursor_down: bool,
    pub width: u32,
    pub height: u32,
}

/// The ten selectable iteration caps.
pub open spec fn valid_cap(c: u32) -> bool {
    ||| c == 250
    ||| c == 500
    ||| c == 1000
    ||| c == 2000
    ||| c == 4000
    ||| c == 8000
    ||| c == 16000
    ||| c == 32000
    ||| c == 64000
    ||| c == 128000
}

impl FractalMode {
    pub open spec fn wf(self) -> bool {
        match self {
            FractalMode::Mandelbrot => true,
            FractalMode::Julia {
                constant_x,
                constant_y,
                saved_center_x,
                saved_center_y,
                saved_zoom,
            } => constant_x.wf() && constant_y.wf() && saved_center_x.wf() && saved_center_y.wf()
                && saved_zoom.wf() && saved_zoom.is_pos(),
        }
    }
}

impl ViewportState {
    /// Invariant: coordinates well formed, zoom positive, iteration cap
    /// one of the ten fixed steps, Julia payload well formed.
    pub open spec fn wf(self) -> bool {
        &&& self.center_x.wf()
        &&& self.center_y.wf()
        &&& self.zoom.wf()
        &&& self.zoom.is_pos()
        &&& valid_cap(self.iteration_cap)
        &&& self.mode.wf()
    }
}

impl InputFrame {
    /// The platform guarantees a nonzero drawable surface.
    pub open spec fn wf(self) -> bool {
        &&& self.cursor_x.wf()
        &&& self.cursor_y.wf()
        &&& self.width > 0
        &&& self.height > 0
    }
}

/// The integer `w` as a rational.
pub open spec fn rat_of_u32(w: u32) -> Rat {
    Rat { num: w as i128, den: 1 }
}

/// One half.
pub open spec fn rat_half() -> Rat {
    Rat { num: 1, den: 2 }
}

/// Half of the integer `h` as a rational.
pub open spec fn rat_half_of(h: u32) -> Rat {
    Rat { num: h as i128, den: 2 }
}

/// Exact negation.
pub open spec fn rat_neg(a: Rat) -> Rat
    recommends
        a.wf(),
{
    Rat { num: (-a.num) as i128, den: a.den }
}

/// Horizontal pixel-to-plane offset: `(cursor_x / width - 1/2) * zoom`.
pub open spec fn offset_x_spec(cursor_x: Rat, width: u32, zoom: Rat) -> Option<Rat>
    recommends
        cursor_x.wf(),
        width > 0,
        zoom.wf(),
{
    match div_spec(cursor_x, rat_of_u32(width)) {
        Some(q) => match sub_spec(q, rat_half()) {
            Some(t) => mul_spec(t, zoom),
            None => None,
        },
        None => None,
    }
}

/// Vertical pixel-to-plane offset: `-(cursor_y - height/2) / width * zoom`.
/// The divisor is the width, not the height: the view maps plane units
/// uniformly by width, and the renderer corrects the aspect ratio.
pub open spec fn offset_y_spec(cursor_y: Rat, width: u32, height: u32, zoom: Rat) -> Option<Rat>
    recommends
        cursor_y.wf(),
        width > 0,
        height > 0,
        zoom.wf(),
{
    match sub_spec(cursor_y, rat_half_of(height)) {
        Some(t) => match div_spec(t, rat_of_u32(width)) {
            Some(q) => match mul_spec(q, zoom) {
                Some(o) => Some(rat_neg(o)),
                None => None,
            },
            None => None,
        },
        None => None,
    }
}

/// A successful horizontal offset is well formed.
pub proof fn lemma_offset_x_wf(cursor_x: Rat, width: u32, zoom: Rat)
    requires
        cursor_x.wf(),
        width > 0,
        zoom.wf(),
    ensures
        match offset_x_spec(cursor_x, width, zoom) {
            Some(o) => o.wf(),
            None => true,
        },
{
    let w = rat_of_u32(width);
    lemma_div_val(cursor_x, w);
    if div_spec(cursor_x, w) is Some {
        let q = div_spec(cursor_x, w)->Some_0;
        lemma_sub_val(q, rat_half());
        if sub_spec(q, rat_half()) is Some {
            let t = sub_spec(q, rat_half())->Some_0;
            lemma_mul_val(t, zoom);
        }
    }
}

/// A successful vertical offset is well formed.
pub proof fn lemma_offset_y_wf(cursor_y: Rat, width: u32, height: u32, zoom: Rat)
    requires
        cursor_y.wf(),
        width > 0,
        height > 0,
        zoom.wf(),
    ensures
        match offset_y_spec(cursor_y, width, height, zoom) {
            Some(o) => o.wf(),
            None => true,
        },
{
    lemma_sub_val(cursor_y, rat_half_of(height));
    if sub_spec(cursor_y, rat_half_of(height)) is Some {
        let t = sub_spec(cursor_y, rat_half_of(height))->Some_0;
        lemma_div_val(t, rat_of_u32(width));
        if div_spec(t, rat_of_u32(width)) is Some {
            let q = div_spec(t, rat_of_u32(width))->Some_0;
            lemma_mul_val(q, zoom);
        }
    }
}

/// Compute the horizontal pixel-to-plane offset.
pub fn offset_x(cursor_x: Rat, width: u32, zoom: Rat) -> (r: Option<Rat>)
    requires
        cursor_x.wf(),
        width > 0,
        zoom.wf(),
    ensures
        r == offset_x_spec(cursor_x, width, zoom),
        r matches Some(o) ==> o.wf(),
{
    let w = Rat { num: width as i128, den: 1 };
    match cursor_x.div(w) {
        Some(q) => match q.sub(Rat { num: 1, den: 2 }) {
            Some(t) => t.mul(zoom),
            None => None,
        },
        None => None,
    }
}

/// Compute the vertical pixel-to-plane offset.
pub fn offset_y(cursor_y: Rat, width: u32, height: u32, zoom: Rat) -> (r: Option<Rat>)
    requires
        cursor_y.wf(),
        width > 0,
        height > 0,
        zoom.wf(),
    ensures
        r == offset_y_spec(cursor_y, width, height, zoom),
        r matches Some(o) ==> o.wf(),
{
    match cursor_y.sub(Rat { num: height as i128, den: 2 }) {
        Some(t) => match t.div(Rat { num: width as i128, den: 1 }) {
            Some(q) => match q.mul(zoom) {
                Some(o) => Some(o.neg()),
                None => None,
            },
            None => None,
        },
        None => None,
    }
}

/// Zoom-in step: `zoom / 1.25`, i.e. `zoom * 4/5`.
pub open spec fn zoom_in_spec(s: ViewportState) -> Option<ViewportState>
    recommends
        s.wf(),
{
    match mul_spec(s.zoom, Rat { num: 4, den: 5 }) {
        Some(z) => Some(ViewportState { zoom: z, ..s }),
        None => None,
    }
}

/// Zoom-out step: `zoom * 1.25`, i.e. `zoom * 5/4`.
pub open spec fn zoom_out_spec(s: ViewportState) -> Option<ViewportState>
    recommends
        s.wf(),
{
    match mul_spec(s.zoom, Rat { num: 5, den: 4 }) {
        Some(z) => Some(ViewportState { zoom: z, ..s }),
        None => None,
    }
}

/// Which center component a directional pan step changes, and how.
pub enum PanDirection {
    Up,
    Down,
    Left,
    Right,
}

/// Directional pan step: the center moves by `zoom * 0.05` along one axis,
/// so pan speed scales with the current zoom.
pub open spec fn pan_spec(s: ViewportState, dir: PanDirection) -> Option<ViewportState>
    recommends
        s.wf(),
{
    match mul_spec(s.zoom, Rat { num: 1, den: 20 }) {
        Some(step) => match dir {
            PanDirection::Up => match add_spec(s.center_y, step) {
                Some(y) => Some(ViewportState { center_y: y, ..s }),
                None => None,
            },
            PanDirection::Down => match sub_spec(s.center_y, step) {
                Some(y) => Some(ViewportState { center_y: y, ..s }),
                None => None,
            },
            PanDirection::Left => match sub_spec(s.center_x, step) {
                Some(x) => Some(ViewportState { center_x: x, ..s }),
                None => None,
            },
            PanDirection::Right => match add_spec(s.center_x, step) {
                Some(x) => Some(ViewportState { center_x: x, ..s }),
                None => None,
            },
        },
        None => None,
    }
}

/// Re-center on the last known cursor position, leaving the zoom unchanged:
/// the center moves by the pixel-to-plane offset of the cursor.
pub open spec fn center_on_cursor_spec(s: ViewportState, f: InputFrame) -> Option<ViewportState>
    recommends
        s.wf(),
        f.wf(),
{
    match offset_x_spec(f.cursor_x, f.width, s.zoom) {
        Some(ox) => match offset_y_spec(f.cursor_y, f.width, f.height, s.zoom) {
            Some(oy) => match add_spec(s.center_x, ox) {
                Some(x) => match add_spec(s.center_y, oy) {
                    Some(y) => Some(ViewportState { center_x: x, center_y: y, ..s }),
                    None => None,
                },
                None => None,
            },
            None => None,
        },
        None => None,
    }
}

/// Drag panning: the center moves against the cursor delta, both axes
/// divided by the width (the vertical term too, by design).
pub open spec fn drag_pan_spec(s: ViewportState, f: InputFrame, new_x: Rat, new_y: Rat) -> Option<
    ViewportState,
>
    recommends
        s.wf(),
        f.wf(),
        new_x.wf(),
        new_y.wf(),
{
    let w = rat_of_u32(f.width);
    match sub_spec(new_x, f.cursor_x) {
        Some(dx) => match sub_spec(new_y, f.cursor_y) {
            Some(dy) => match mul_spec(dx, s.zoom) {
                Some(tx) => match div_spec(tx, w) {
                    Some(sx) => match mul_spec(dy, s.zoom) {
                        Some(ty) => match div_spec(ty, w) {
                            Some(sy) => match sub_spec(s.center_x, sx) {
                                Some(x) => match add_spec(s.center_y, sy) {
                                    Some(y) => Some(
                                        ViewportState { center_x: x, center_y: y, ..s },
                                    ),
                                    None => None,
                                },
                                None => None,
                            },
                            None => None,
                        },
                        None => None,
                    },
                    None => None,
                },
                None => None,
            },
            None => None,
        },
        None => None,
    }
}

/// The zoom factor of a scroll of (normalized) distance `d`: `1 - 0.1 * d`.
pub open spec fn scroll_factor_spec(dist: Rat) -> Option<Rat>
    recommends
        dist.wf(),
{
    match mul_spec(dist, Rat { num: 1, den: 10 }) {
        Some(m) => sub_spec(Rat { num: 1, den: 1 }, m),
        None => None,
    }
}

/// Scroll zoom anchored at the cursor, in three steps: re-center on the
/// cursor by adding its pixel-to-plane offset, scale the zoom by
/// `1 - 0.1 * distance`, then subtract the offset recomputed with the new
/// zoom, which restores the anchor point under the cursor. A scroll whose
/// factor would not be positive is rejected, keeping the zoom positive.
pub open spec fn scroll_zoom_spec(s: ViewportState, f: InputFrame, dist: Rat) -> Option<
    ViewportState,
>
    recommends
        s.wf(),
        f.wf(),
        dist.wf(),
{
    match scroll_factor_spec(dist) {
        Some(fac) => if fac.num > 0 {
            match offset_x_spec(f.cursor_x, f.width, s.zoom) {
                Some(ox1) => match offset_y_spec(f.cursor_y, f.width, f.height, s.zoom) {
                    Some(oy1) => match add_spec(s.center_x, ox1) {
                        Some(x1) => match add_spec(s.center_y, oy1) {
                            Some(y1) => match mul_spec(s.zoom, fac) {
                                Some(z2) => match offset_x_spec(f.cursor_x, f.width, z2) {
                                    Some(ox2) => match offset_y_spec(
                                        f.cursor_y,
                                        f.width,
                                        f.height,
                                        z2,
                                    ) {
                                        Some(oy2) => match sub_spec(x1, ox2) {
                                            Some(x2) => match sub_spec(y1, oy2) {
                                                Some(y2) => Some(
                                                    ViewportState {
                                                        center_x: x2,
                                                        center_y: y2,
                                                        zoom: z2,
                                                        ..s
                                                    },
                                                ),
                                                None => None,
                                            },
                                            None => None,
                                        },
                                        None => None,
                                    },
                                    None => None,
                                },
                                None => None,
                            },
                            None => None,
                        },
                        None => None,
                    },
                    None => None,
                },
                None => None,
            }
        } else {
            None
        },
        None => None,
    }
}

/// Enter Julia mode: snapshot the Mandelbrot view, freeze the Julia
/// constant at the plane point under the cursor, and reset the view to
/// the home position `center=(0,0), zoom=4`.
pub open spec fn enter_julia_spec(s: ViewportState, f: InputFrame) -> Option<ViewportState>
    recommends
        s.wf(),
        f.wf(),
        s.mode is Mandelbrot,
{
    match offset_x_spec(f.cursor_x, f.width, s.zoom) {
        Some(ox) => match offset_y_spec(f.cursor_y, f.width, f.height, s.zoom) {
            Some(oy) => match add_spec(s.center_x, ox) {
                Some(jx) => match add_spec(s.center_y, oy) {
                    Some(jy) => Some(
                        ViewportState {
                            center_x: Rat { num: 0, den: 1 },
                            center_y: Rat { num: 0, den: 1 },
                            zoom: Rat { num: 4, den: 1 },
                            mode: FractalMode::Julia {
                                constant_x: jx,
                                constant_y: jy,
                                saved_center_x: s.center_x,
                                saved_center_y: s.center_y,
                                saved_zoom: s.zoom,
                            },
                            ..s
                        },
                    ),
                    None => None,
                },
                None => None,
            },
            None => None,
        },
        None => None,
    }
}

/// Leave Julia mode: restore the snapshot taken at entry, bit for bit.
pub open spec fn exit_julia_spec(s: ViewportState) -> ViewportState
    recommends
        s.wf(),
        s.mode is Julia,
{
    match s.mode {
        FractalMode::Julia { saved_center_x, saved_center_y, saved_zoom, .. } => ViewportState {
            center_x: saved_center_x,
            center_y: saved_center_y,
            zoom: saved_zoom,
            mode: FractalMode::Mandelbrot,
            ..s
        },
        FractalMode::Mandelbrot => s,
    }
}

/// The fixed startup view: `center=(0,0)`, `zoom=4`, 250 iterations,
/// single precision, Mandelbrot mode.
pub open spec fn initial_spec() -> ViewportState {
    ViewportState {
        center_x: Rat { num: 0, den: 1 },
        center_y: Rat { num: 0, den: 1 },
        zoom: Rat { num: 4, den: 1 },
        iteration_cap: 250,
        double_precision: false,
        mode: FractalMode::Mandelbrot,
    }
}

impl ViewportState {
    /// The fixed startup view: `center=(0,0)`, `zoom=4`, 250 iterations,
    /// single precision, Mandelbrot mode.
    pub fn initial() -> (s: ViewportState)
        ensures
            s == initial_spec(),
            s.wf(),
    {
        ViewportState {
            center_x: Rat { num: 0, den: 1 },
            center_y: Rat { num: 0, den: 1 },
            zoom: Rat { num: 4, den: 1 },
            iteration_cap: 250,
            double_precision: false,
            mode: FractalMode::Mandelbrot,
        }
    }

    /// Apply the zoom-in key step.
    pub fn zoom_in(self) -> (r: Option<ViewportState>)
        requires
            self.wf(),
        ensures
            r == zoom_in_spec(self),
    {
        match self.zoom.mul(Rat { num: 4, den: 5 }) {
            Some(z) => Some(ViewportState { zoom: z, ..self }),
            None => None,
        }
    }

    /// Apply the zoom-out key step.
    pub fn zoom_out(self) -> (r: Option<ViewportState>)
        requires
            self.wf(),
        ensures
            r == zoom_out_spec(self),
    {
        match self.zoom.mul(Rat { num: 5, den: 4 }) {
            Some(z) => Some(ViewportState { zoom: z, ..self }),
            None => None,
        }
    }

    /// Apply a directional pan key step.
    pub fn pan(self, dir: PanDirection) -> (r: Option<ViewportState>)
        requires
            self.wf(),
        ensures
            r == pan_spec(self, dir),
    {
        match self.zoom.mul(Rat { num: 1, den: 20 }) {
            Some(step) => match dir {
                PanDirection::Up => match self.center_y.add(step) {
                    Some(y) => Some(ViewportState { center_y: y, ..self }),
                    None => None,
                },
                PanDirection::Down => match self.center_y.sub(step) {
                    Some(y) => Some(ViewportState { center_y: y, ..self }),
                    None => None,
                },
                PanDirection::Left => match self.center_x.sub(step) {
                    Some(x) => Some(ViewportState { center_x: x, ..self }),
                    None => None,
                },
                PanDirection::Right => match self.center_x.add(step) {
                    Some(x) => Some(ViewportState { center_x: x, ..self }),
                    None => None,
                },
            },
            None => None,
        }
    }

    /// Re-center on the last known cursor position.
    pub fn center_on_cursor(self, f: &InputFrame) -> (r: Option<ViewportState>)
        requires
            self.wf(),
            f.wf(),
        ensures
            r == center_on_cursor_spec(self, *f),
    {
        match offset_x(f.cursor_x, f.width, self.zoom) {
            Some(ox) => match offset_y(f.cursor_y, f.width, f.height, self.zoom) {
                Some(oy) => match self.center_x.add(ox) {
                    Some(x) => match self.center_y.add(oy) {
                        Some(y) => Some(ViewportState { center_x: x, center_y: y, ..self }),
                        None => None,
                    },
                    None => None,
                },
                None => None,
            },
            None => None,
        }
    }

    /// Apply a drag-pan move to the new cursor position.
    pub fn drag_pan(self, f: &InputFrame, new_x: Rat, new_y: Rat) -> (r: Option<ViewportState>)
        requires
            self.wf(),
            f.wf(),
            new_x.wf(),
            new_y.wf(),
        ensures
            r == drag_pan_spec(self, *f, new_x, new_y),
    {
        let w = Rat { num: f.width as i128, den: 1 };
        match new_x.sub(f.cursor_x) {
            Some(dx) => match new_y.sub(f.cursor_y) {
                Some(dy) => match dx.mul(self.zoom) {
                    Some(tx) => match tx.div(w) {
                        Some(sx) => match dy.mul(self.zoom) {
                            Some(ty) => match ty.div(w) {
                                Some(sy) => match self.center_x.sub(sx) {
                                    Some(x) => match self.center_y.add(sy) {
                                        Some(y) => Some(
                                            ViewportState { center_x: x, center_y: y, ..self },
                                        ),
                                        None => None,
                                    },
                                    None => None,
                                },
                                None => None,
                            },
                            None => None,
                        },
                        None => None,
                    },
                    None => None,
                },
                None => None,
            },
            None => None,
        }
    }

    /// Apply a scroll-zoom anchored at the cursor.
    pub fn scroll_zoom(self, f: &InputFrame, dist: Rat) -> (r: Option<ViewportState>)
        requires
            self.wf(),
            f.wf(),
            dist.wf(),
        ensures
            r == scroll_zoom_spec(self, *f, dist),
    {
        let fac = match dist.mul(Rat { num: 1, den: 10 }) {
            Some(m) => match (Rat { num: 1, den: 1 }).sub(m) {
                Some(fa) => fa,
                None => {
                    return None;
                },
            },
            None => {
                return None;
            },
        };
        if fac.num <= 0 {
            return None;
        }
        match offset_x(f.cursor_x, f.width, self.zoom) {
            Some(ox1) => match offset_y(f.cursor_y, f.width, f.height, self.zoom) {
                Some(oy1) => match self.center_x.add(ox1) {
                    Some(x1) => match self.center_y.add(oy1) {
                        Some(y1) => match self.zoom.mul(fac) {
                            Some(z2) => match offset_x(f.cursor_x, f.width, z2) {
                                Some(ox2) => match offset_y(f.cursor_y, f.width, f.height, z2) {
                                    Some(oy2) => match x1.sub(ox2) {
                                        Some(x2) => match y1.sub(oy2) {
                                            Some(y2) => Some(
                                                ViewportState {
                                                    center_x: x2,
                                                    center_y: y2,
                                                    zoom: z2,
                                                    ..self
                                                },
                                            ),
                                            None => None,
                                        },
                                        None => None,
                                    },
                                    None => None,
                                },
                                None => None,
                            },
                            None => None,
                        },
                        None => None,
                    },
                    None => None,
                },
                None => None,
            },
            None => None,
        }
    }

    /// Enter Julia mode from Mandelbrot mode.
    pub fn enter_julia(self, f: &InputFrame) -> (r: Option<ViewportState>)
        requires
            self.wf(),
            f.wf(),
            self.mode is Mandelbrot,
        ensures
            r == enter_julia_spec(self, *f),
    {
        match offset_x(f.cursor_x, f.width, self.zoom) {
            Some(ox) => match offset_y(f.cursor_y, f.width, f.height, self.zoom) {
                Some(oy) => match self.center_x.add(ox) {
                    Some(jx) => match self.center_y.add(oy) {
                        Some(jy) => Some(
                            ViewportState {
                                center_x: Rat { num: 0, den: 1 },
                                center_y: Rat { num: 0, den: 1 },
                                zoom: Rat { num: 4, den: 1 },
                                mode: FractalMode::Julia {
                                    constant_x: jx,
                                    constant_y: jy,
                                    saved_center_x: self.center_x,
                                    saved_center_y: self.center_y,
                                    saved_zoom: self.zoom,
                                },
                                ..self
                            },
                        ),
                        None => None,
                    },
                    None => None,
                },
                None => None,
            },
            None => None,
        }
    }

    /// Leave Julia mode, restoring the snapshot taken at entry.
    pub fn exit_julia(self) -> (r: ViewportState)
        requires
            self.wf(),
            self.mode is Julia,
        ensures
            r == exit_julia_spec(self),
            r.wf(),
            r.mode is Mandelbrot,
    {
        match self.mode {
            FractalMode::Julia { saved_center_x, saved_center_y, saved_zoom, .. } => ViewportState {
                center_x: saved_center_x,
                center_y: saved_center_y,
                zoom: saved_zoom,
                mode: FractalMode::Mandelbrot,
                ..self
            },
            FractalMode::Mandelbrot => self,
        }
    }

    /// Select the precision of the per-pixel iteration arithmetic. Only the
    /// precision flag changes: center, zoom, cap, mode and the Julia
    /// constant are untouched, and the operation is idempotent.
    pub fn set_precision(self, double: bool) -> (r: ViewportState)
        requires
            self.wf(),
        ensures
            r == (ViewportState { double_precision: double, ..self }),
            r.wf(),
    {
        ViewportState { double_precision: double, ..self }
    }

    /// Select one of the ten fixed iteration caps. Idempotent.
    pub fn set_iteration_cap(self, cap: u32) -> (r: ViewportState)
        requires
            self.wf(),
            valid_cap(cap),
        ensures
            r == (ViewportState { iteration_cap: cap, ..self }),
            r.wf(),
    {
        ViewportState { iteration_cap: cap, ..self }
    }
}

/// Every transition that succeeds preserves the viewport invariant.
pub proof fn lemma_zoom_steps_wf(s: ViewportState)
    requires
        s.wf(),
    ensures
        zoom_in_spec(s) matches Some(s2) ==> s2.wf(),
        zoom_out_spec(s) matches Some(s2) ==> s2.wf(),
{
    lemma_mul_val(s.zoom, Rat { num: 4, den: 5 });
    lemma_mul_val(s.zoom, Rat { num: 5, den: 4 });
}

pub proof fn lemma_pan_wf(s: ViewportState, dir: PanDirection)
    requires
        s.wf(),
    ensures
        pan_spec(s, dir) matches Some(s2) ==> s2.wf(),
{
    lemma_mul_val(s.zoom, Rat { num: 1, den: 20 });
    if mul_spec(s.zoom, Rat { num: 1, den: 20 }) is Some {
        let step = mul_spec(s.zoom, Rat { num: 1, den: 20 })->Some_0;
        lemma_add_val(s.center_y, step);
        lemma_sub_val(s.center_y, step);
        lemma_sub_val(s.center_x, step);
        lemma_add_val(s.center_x, step);
    }
}

pub proof fn lemma_center_on_cursor_wf(s: ViewportState, f: InputFrame)
    requires
        s.wf(),
        f.wf(),
    ensures
        center_on_cursor_spec(s, f) matches Some(s2) ==> s2.wf(),
{
    lemma_offset_x_wf(f.cursor_x, f.width, s.zoom);
    lemma_offset_y_wf(f.cursor_y, f.width, f.height, s.zoom);
    if offset_x_spec(f.cursor_x, f.width, s.zoom) is Some && offset_y_spec(
        f.cursor_y,
        f.width,
        f.height,
        s.zoom,
    ) is Some {
        let ox = offset_x_spec(f.cursor_x, f.width, s.zoom)->Some_0;
        let oy = offset_y_spec(f.cursor_y, f.width, f.height, s.zoom)->Some_0;
        lemma_add_val(s.center_x, ox);
        lemma_add_val(s.center_y, oy);
    }
}

pub proof fn lemma_drag_pan_wf(s: ViewportState, f: InputFrame, new_x: Rat, new_y: Rat)
    requires
        s.wf(),
        f.wf(),
        new_x.wf(),
        new_y.wf(),
    ensures
        drag_pan_spec(s, f, new_x, new_y) matches Some(s2) ==> s2.wf(),
{
    let w = rat_of_u32(f.width);
    lemma_sub_val(new_x, f.cursor_x);
    lemma_sub_val(new_y, f.cursor_y);
    if sub_spec(new_x, f.cursor_x) is Some && sub_spec(new_y, f.cursor_y) is Some {
        let dx = sub_spec(new_x, f.cursor_x)->Some_0;
        let dy = sub_spec(new_y, f.cursor_y)->Some_0;
        lemma_mul_val(dx, s.zoom);
        lemma_mul_val(dy, s.zoom);
        if mul_spec(dx, s.zoom) is Some && mul_spec(dy, s.zoom) is Some {
            let tx = mul_spec(dx, s.zoom)->Some_0;
            let ty = mul_spec(dy, s.zoom)->Some_0;
            lemma_div_val(tx, w);
            lemma_div_val(ty, w);
            if div_spec(tx, w) is Some && div_spec(ty, w) is Some {
                let sx = div_spec(tx, w)->Some_0;
                let sy = div_spec(ty, w)->Some_0;
                lemma_sub_val(s.center_x, sx);
                lemma_add_val(s.center_y, sy);
            }
        }
    }
}

pub proof fn lemma_scroll_zoom_wf(s: ViewportState, f: InputFrame, dist: Rat)
    requires
        s.wf(),
        f.wf(),
        dist.wf(),
    ensures
        scroll_zoom_spec(s, f, dist) matches Some(s2) ==> s2.wf(),
{
    lemma_mul_val(dist, Rat { num: 1, den: 10 });
    if mul_spec(dist, Rat { num: 1, den: 10 }) is Some {
        let m = mul_spec(dist, Rat { num: 1, den: 10 })->Some_0;
        lemma_sub_val(Rat { num: 1, den: 1 }, m);
        if sub_spec(Rat { num: 1, den: 1 }, m) is Some {
            let fac = sub_spec(Rat { num: 1, den: 1 }, m)->Some_0;
            if fac.num > 0 {
                lemma_offset_x_wf(f.cursor_x, f.width, s.zoom);
                lemma_offset_y_wf(f.cursor_y, f.width, f.height, s.zoom);
                lemma_mul_val(s.zoom, fac);
                if mul_spec(s.zoom, fac) is Some {
                    let z2 = mul_spec(s.zoom, fac)->Some_0;
                    assert(s.zoom.num * fac.num > 0) by (nonlinear_arith)
                        requires
                            s.zoom.num > 0,
                            fac.num > 0,
                    ;
                    assert(z2.wf() && z2.is_pos());
                    lemma_offset_x_wf(f.cursor_x, f.width, z2);
                    lemma_offset_y_wf(f.cursor_y, f.width, f.height, z2);
                    if offset_x_spec(f.cursor_x, f.width, s.zoom) is Some && offset_y_spec(
                        f.cursor_y,
                        f.width,
                        f.height,
                        s.zoom,
                    ) is Some {
                        let ox1 = offset_x_spec(f.cursor_x, f.width, s.zoom)->Some_0;
                        let oy1 = offset_y_spec(f.cursor_y, f.width, f.height, s.zoom)->Some_0;
                        lemma_add_val(s.center_x, ox1);
                        lemma_add_val(s.center_y, oy1);
                        if add_spec(s.center_x, ox1) is Some && add_spec(s.center_y, oy1) is Some
                            && offset_x_spec(f.cursor_x, f.width, z2) is Some && offset_y_spec(
                            f.cursor_y,
                            f.width,
                            f.height,
                            z2,
                        ) is Some {
                            let x1 = add_spec(s.center_x, ox1)->Some_0;
                            let y1 = add_spec(s.center_y, oy1)->Some_0;
                            let ox2 = offset_x_spec(f.cursor_x, f.width, z2)->Some_0;
                            let oy2 = offset_y_spec(f.cursor_y, f.width, f.height, z2)->Some_0;
                            lemma_sub_val(x1, ox2);
                            lemma_sub_val(y1, oy2);
                        }
                    }
                }
            }
        }
    }
}

pub proof fn lemma_enter_julia_wf(s: ViewportState, f: InputFrame)
    requires
        s.wf(),
        f.wf(),
        s.mode is Mandelbrot,
    ensures
        enter_julia_spec(s, f) matches Some(s2) ==> s2.wf() && s2.mode is Julia,
{
    lemma_offset_x_wf(f.cursor_x, f.width, s.zoom);
    lemma_offset_y_wf(f.cursor_y, f.width, f.height, s.zoom);
    if offset_x_spec(f.cursor_x, f.width, s.zoom) is Some && offset_y_spec(
        f.cursor_y,
        f.width,
        f.height,
        s.zoom,
    ) is Some {
        let ox = offset_x_spec(f.cursor_x, f.width, s.zoom)->Some_0;
        let oy = offset_y_spec(f.cursor_y, f.width, f.height, s.zoom)->Some_0;
        lemma_add_val(s.center_x, ox);
        lemma_add_val(s.center_y, oy);
    }
}

} // verus!
