//! The input interpreter: a state machine over discrete input events.
//!
//! The explorer owns the viewport state and the per-frame cursor data.
//! Each event maps deterministically to a state transition and a redraw
//! signal; a transition whose exact arithmetic would not fit the bounded
//! rational representation leaves the state unchanged. Redraws are
//! demand-driven: the platform layer repaints only when an event reports
//! that it changed the visual output.

use vstd::prelude::*;
use crate::rat::{Rat, mul_spec};
use crate::viewport::{
    ViewportState, InputFrame, FractalMode, PanDirection, valid_cap, zoom_in_spec, zoom_out_spec,
    pan_spec, center_on_cursor_spec, drag_pan_spec, scroll_zoom_spec, enter_julia_spec,
    exit_julia_spec, lemma_zoom_steps_wf, lemma_pan_wf, lemma_center_on_cursor_wf,
    lemma_drag_pan_wf, lemma_scroll_zoom_wf, lemma_enter_julia_wf,
};

verus! {

/// The dedicated keys of the explorer. `Other` stands for any key without
/// a binding: it changes nothing, but a press of it still signals a
/// repaint, as every key press does.
#[derive(Clone, Copy, Debug, PartialEq, Eq, Structural)]
pub enum Key {
    ZoomIn,
    ZoomOut,
    PanUp,
    PanDown,
    PanLeft,
    PanRight,
    CenterOnCursor,
    Cap250,
    Cap500,
    Cap1000,
    Cap2000,
    Cap4000,
    Cap8000,
    Cap16000,
    Cap32000,
    Cap64000,
    Cap128000,
    SinglePrecision,
    DoublePrecision,
    EnterJulia,
    ExitJulia,
    Other,
}

/// How a scroll delta was reported: as whole lines, or as pixels, which
/// are normalized by dividing by twenty.
#[derive(Clone, Copy, Debug, PartialEq, Eq, Structural)]
pub enum ScrollKind {
    Line,
    Pixel,
}

/// A normalized input event, as the platform layer hands it over.
#[derive(Clone, Copy, Debug, PartialEq, Eq, Structural)]
pub enum InputEvent {
    Key { key: Key, pressed: bool },
    MouseLeft { pressed: bool },
    CursorMoved { x: Rat, y: Rat },
    Scroll { kind: ScrollKind, amount: Rat },
    Resized { width: u32, height: u32 },
}

impl InputEvent {
    /// Rational payloads of an event are well formed.
    pub open spec fn wf(self) -> bool {
        match self {
            InputEvent::CursorMoved { x, y } => x.wf() && y.wf(),
            InputEvent::Scroll { kind, amount } => amount.wf(),
            _ => true,
        }
    }
}

/// The iteration cap a cap key selects, if it is one.
pub open spec fn cap_of_key(key: Key) -> Option<u32> {
    match key {
        Key::Cap250 => Some(250u32),
        Key::Cap500 => Some(500u32),
        Key::Cap1000 => Some(1000u32),
        Key::Cap2000 => Some(2000u32),
        Key::Cap4000 => Some(4000u32),
        Key::Cap8000 => Some(8000u32),
        Key::Cap16000 => Some(16000u32),
        Key::Cap32000 => Some(32000u32),
        Key::Cap64000 => Some(64000u32),
        Key::Cap128000 => Some(128000u32),
        _ => None,
    }
}

/// The transition's result when it fits, the unchanged state when it does not.
pub open spec fn or_same(s: ViewportState, o: Option<ViewportState>) -> ViewportState {
    match o {
        Some(s2) => s2,
        None => s,
    }
}

/// What a key event does to the viewport state. Motion, zoom, anchoring
/// and mode switches act on the press transition only; the cap and
/// precision selections are plain assignments on press and on release
/// alike, which is invisible because they are idempotent.
pub open spec fn key_step_spec(s: ViewportState, f: InputFrame, key: Key, pressed: bool) -> ViewportState
    recommends
        s.wf(),
        f.wf(),
{
    match cap_of_key(key) {
        Some(cap) => ViewportState { iteration_cap: cap, ..s },
        None => match key {
            Key::ZoomIn => if pressed {
                or_same(s, zoom_in_spec(s))
            } else {
                s
            },
            Key::ZoomOut => if pressed {
                or_same(s, zoom_out_spec(s))
            } else {
                s
            },
            Key::PanUp => if pressed {
                or_same(s, pan_spec(s, PanDirection::Up))
            } else {
                s
            },
            Key::PanDown => if pressed {
                or_same(s, pan_spec(s, PanDirection::Down))
            } else {
                s
            },
            Key::PanLeft => if pressed {
                or_same(s, pan_spec(s, PanDirection::Left))
            } else {
                s
            },
            Key::PanRight => if pressed {
                or_same(s, pan_spec(s, PanDirection::Right))
            } else {
                s
            },
            Key::CenterOnCursor => if pressed {
                or_same(s, center_on_cursor_spec(s, f))
            } else {
                s
            },
            Key::SinglePrecision => ViewportState { double_precision: false, ..s },
            Key::DoublePrecision => ViewportState { double_precision: true, ..s },
            Key::EnterJulia => if pressed && s.mode is Mandelbrot {
                or_same(s, enter_julia_spec(s, f))
            } else {
                s
            },
            Key::ExitJulia => if pressed && s.mode is Julia {
                exit_julia_spec(s)
            } else {
                s
            },
            _ => s,
        },
    }
}

/// The normalized scroll distance: a line delta counts directly, a pixel
/// delta is divided by twenty.
pub open spec fn scroll_distance_spec(kind: ScrollKind, amount: Rat) -> Option<Rat>
    recommends
        amount.wf(),
{
    match kind {
        ScrollKind::Line => Some(amount),
        ScrollKind::Pixel => mul_spec(amount, Rat { num: 1, den: 20 }),
    }
}

/// The explorer: the viewport state plus the cursor and surface data
/// carried between events.
#[derive(Clone, Copy, Debug, PartialEq, Eq, Structural)]
pub struct Explorer {
    pub state: ViewportState,
    pub frame: InputFrame,
}

impl Explorer {
    pub open spec fn wf(self) -> bool {
        self.state.wf() && self.frame.wf()
    }
}

/// What one event does to the explorer, and whether it asks for a redraw.
/// Key presses always signal a repaint, releases never do; a cursor move
/// repaints only while dragging; a scroll always repaints; mouse-button
/// and resize events only update the carried frame data.
pub open spec fn step_spec(e: Explorer, ev: InputEvent) -> (Explorer, bool)
    recommends
        e.wf(),
        ev.wf(),
{
    match ev {
        InputEvent::Key { key, pressed } => (
            Explorer { state: key_step_spec(e.state, e.frame, key, pressed), ..e },
            pressed,
        ),
        InputEvent::MouseLeft { pressed } => (
            Explorer { frame: InputFrame { cursor_down: pressed, ..e.frame }, ..e },
            false,
        ),
        InputEvent::CursorMoved { x, y } => {
            let moved = InputFrame { cursor_x: x, cursor_y: y, ..e.frame };
            if e.frame.cursor_down {
                (
                    Explorer {
                        state: or_same(e.state, drag_pan_spec(e.state, e.frame, x, y)),
                        frame: moved,
                    },
                    true,
                )
            } else {
                (Explorer { frame: moved, ..e }, false)
            }
        },
        InputEvent::Scroll { kind, amount } => (
            Explorer {
                state: match scroll_distance_spec(kind, amount) {
                    Some(dist) => or_same(e.state, scroll_zoom_spec(e.state, e.frame, dist)),
                    None => e.state,
                },
                ..e
            },
            true,
        ),
        InputEvent::Resized { width, height } => (
            Explorer {
                frame: if width > 0 && height > 0 {
                    InputFrame { width, height, ..e.frame }
                } else {
                    e.frame
                },
                ..e
            },
            false,
        ),
    }
}

/// One event's step keeps the explorer well formed.
pub proof fn lemma_step_wf(e: Explorer, ev: InputEvent)
    requires
        e.wf(),
        ev.wf(),
    ensures
        step_spec(e, ev).0.wf(),
{
    match ev {
        InputEvent::Key { key, pressed } => {
            lemma_zoom_steps_wf(e.state);
            lemma_pan_wf(e.state, PanDirection::Up);
            lemma_pan_wf(e.state, PanDirection::Down);
            lemma_pan_wf(e.state, PanDirection::Left);
            lemma_pan_wf(e.state, PanDirection::Right);
            lemma_center_on_cursor_wf(e.state, e.frame);
            if e.state.mode is Mandelbrot {
                lemma_enter_julia_wf(e.state, e.frame);
            }
        },
        InputEvent::CursorMoved { x, y } => {
            lemma_drag_pan_wf(e.state, e.frame, x, y);
        },
        InputEvent::Scroll { kind, amount } => {
            crate::rat::lemma_mul_val(amount, Rat { num: 1, den: 20 });
            if scroll_distance_spec(kind, amount) is Some {
                let dist = scroll_distance_spec(kind, amount)->Some_0;
                lemma_scroll_zoom_wf(e.state, e.frame, dist);
            }
        },
        _ => {},
    }
}

impl Explorer {
    /// The explorer at startup: the fixed default view, the cursor at the
    /// pixel origin and not pressed, over the given surface size.
    pub fn new(width: u32, height: u32) -> (e: Explorer)
        requires
            width > 0,
            height > 0,
        ensures
            e.wf(),
            e.state == crate::viewport::initial_spec(),
            e.frame.width == width,
            e.frame.height == height,
            !e.frame.cursor_down,
    {
        Explorer {
            state: ViewportState::initial(),
            frame: InputFrame {
                cursor_x: Rat { num: 0, den: 1 },
                cursor_y: Rat { num: 0, den: 1 },
                cursor_down: false,
                width,
                height,
            },
        }
    }

    /// Consume one input event; the result says whether the platform
    /// layer must schedule a repaint.
    pub fn handle_event(&mut self, ev: InputEvent) -> (redraw: bool)
        requires
            old(self).wf(),
            ev.wf(),
        ensures
            *final(self) == step_spec(*old(self), ev).0,
            redraw == step_spec(*old(self), ev).1,
            final(self).wf(),
    {
        proof {
            lemma_step_wf(*self, ev);
        }
        match ev {
            InputEvent::Key { key, pressed } => {
                self.state = self.key_step(key, pressed);
                pressed
            },
            InputEvent::MouseLeft { pressed } => {
                self.frame.cursor_down = pressed;
                false
            },
            InputEvent::CursorMoved { x, y } => {
                let mut redraw = false;
                if self.frame.cursor_down {
                    self.state = match self.state.drag_pan(&self.frame, x, y) {
                        Some(s2) => s2,
                        None => self.state,
                    };
                    redraw = true;
                }
                self.frame.cursor_x = x;
                self.frame.cursor_y = y;
                redraw
            },
            InputEvent::Scroll { kind, amount } => {
                let dist = match kind {
                    ScrollKind::Line => Some(amount),
                    ScrollKind::Pixel => amount.mul(Rat { num: 1, den: 20 }),
                };
                if let Some(d) = dist {
                    self.state = match self.state.scroll_zoom(&self.frame, d) {
                        Some(s2) => s2,
                        None => self.state,
                    };
                }
                true
            },
            InputEvent::Resized { width, height } => {
                if width > 0 && height > 0 {
                    self.frame.width = width;
                    self.frame.height = height;
                }
                false
            },
        }
    }

    /// Apply one key event to the viewport state.
    fn key_step(&self, key: Key, pressed: bool) -> (s2: ViewportState)
        requires
            self.wf(),
        ensures
            s2 == key_step_spec(self.state, self.frame, key, pressed),
    {
        let s = self.state;
        match key {
            Key::Cap250 => s.set_iteration_cap(250),
            Key::Cap500 => s.set_iteration_cap(500),
            Key::Cap1000 => s.set_iteration_cap(1000),
            Key::Cap2000 => s.set_iteration_cap(2000),
            Key::Cap4000 => s.set_iteration_cap(4000),
            Key::Cap8000 => s.set_iteration_cap(8000),
            Key::Cap16000 => s.set_iteration_cap(16000),
            Key::Cap32000 => s.set_iteration_cap(32000),
            Key::Cap64000 => s.set_iteration_cap(64000),
            Key::Cap128000 => s.set_iteration_cap(128000),
            Key::SinglePrecision => s.set_precision(false),
            Key::DoublePrecision => s.set_precision(true),
            Key::ZoomIn => if pressed {
                match s.zoom_in() {
                    Some(s2) => s2,
                    None => s,
                }
            } else {
                s
            },
            Key::ZoomOut => if pressed {
                match s.zoom_out() {
                    Some(s2) => s2,
                    None => s,
                }
            } else {
                s
            },
            Key::PanUp => if pressed {
                match s.pan(PanDirection::Up) {
                    Some(s2) => s2,
                    None => s,
                }
            } else {
                s
            },
            Key::PanDown => if pressed {
                match s.pan(PanDirection::Down) {
                    Some(s2) => s2,
                    None => s,
                }
            } else {
                s
            },
            Key::PanLeft => if pressed {
                match s.pan(PanDirection::Left) {
                    Some(s2) => s2,
                    None => s,
                }
            } else {
                s
            },
            Key::PanRight => if pressed {
                match s.pan(PanDirection::Right) {
                    Some(s2) => s2,
                    None => s,
                }
            } else {
                s
            },
            Key::CenterOnCursor => if pressed {
                match s.center_on_cursor(&self.frame) {
                    Some(s2) => s2,
                    None => s,
                }
            } else {
                s
            },
            Key::EnterJulia => {
                let mandelbrot = match s.mode {
                    FractalMode::Mandelbrot => true,
                    FractalMode::Julia { .. } => false,
                };
                if pressed && mandelbrot {
                    match s.enter_julia(&self.frame) {
                        Some(s2) => s2,
                        None => s,
                    }
                } else {
                    s
                }
            },
            Key::ExitJulia => {
                let julia = match s.mode {
                    FractalMode::Mandelbrot => false,
                    FractalMode::Julia { .. } => true,
                };
                if pressed && julia {
                    s.exit_julia()
                } else {
                    s
                }
            },
            Key::Other => s,
        }
    }
}

} // verus!
