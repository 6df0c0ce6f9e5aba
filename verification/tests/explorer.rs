use fractal_explorer::input::{Explorer, InputEvent, Key, ScrollKind};
use fractal_explorer::rat::Rat;
use fractal_explorer::viewport::FractalMode;

fn rat(n: i128, d: i128) -> Rat {
    Rat::new(n, d).unwrap()
}

fn press(key: Key) -> InputEvent {
    InputEvent::Key { key, pressed: true }
}

fn release(key: Key) -> InputEvent {
    InputEvent::Key { key, pressed: false }
}

fn cursor(x: i128, y: i128) -> InputEvent {
    InputEvent::CursorMoved { x: rat(x, 1), y: rat(y, 1) }
}

#[test]
fn zoom_out_then_in_returns_to_start() {
    // From zoom 4, one zoom-out key press gives exactly 4 * 1.25 == 5,
    // and one zoom-in press divides by 1.25, back to exactly 4.
    let mut e = Explorer::new(1000, 800);
    assert!(e.handle_event(press(Key::ZoomOut)));
    assert_eq!(e.state.zoom, rat(5, 1));
    assert!(e.handle_event(press(Key::ZoomIn)));
    assert_eq!(e.state.zoom, rat(4, 1));
}

#[test]
fn key_release_changes_nothing_and_asks_no_redraw() {
    let mut e = Explorer::new(1000, 800);
    let before = e;
    assert!(!e.handle_event(release(Key::ZoomOut)));
    assert_eq!(e, before);
}

#[test]
fn unbound_key_press_still_asks_for_redraw() {
    let mut e = Explorer::new(1000, 800);
    let before = e.state;
    assert!(e.handle_event(press(Key::Other)));
    assert_eq!(e.state, before);
}

#[test]
fn center_on_cursor_at_exact_center_is_identity() {
    // width=1000, height=800, cursor at (500,400): both offsets are zero,
    // so the center does not move.
    let mut e = Explorer::new(1000, 800);
    assert!(!e.handle_event(cursor(500, 400)));
    assert!(e.handle_event(press(Key::CenterOnCursor)));
    assert_eq!(e.state.center_x, rat(0, 1));
    assert_eq!(e.state.center_y, rat(0, 1));
    assert_eq!(e.state.zoom, rat(4, 1));
}

#[test]
fn center_on_cursor_moves_by_pixel_offset() {
    // Cursor at (750, 400): offset_x = (750/1000 - 1/2) * 4 = 1, offset_y = 0.
    let mut e = Explorer::new(1000, 800);
    e.handle_event(cursor(750, 400));
    e.handle_event(press(Key::CenterOnCursor));
    assert_eq!(e.state.center_x, rat(1, 1));
    assert_eq!(e.state.center_y, rat(0, 1));
}

#[test]
fn pan_step_is_one_twentieth_of_zoom() {
    let mut e = Explorer::new(1000, 800);
    e.handle_event(press(Key::PanRight));
    assert_eq!(e.state.center_x, rat(1, 5));
    e.handle_event(press(Key::PanLeft));
    assert_eq!(e.state.center_x, rat(0, 1));
    e.handle_event(press(Key::PanUp));
    assert_eq!(e.state.center_y, rat(1, 5));
    e.handle_event(press(Key::PanDown));
    assert_eq!(e.state.center_y, rat(0, 1));
}

#[test]
fn drag_pan_divides_both_axes_by_width() {
    let mut e = Explorer::new(1000, 800);
    e.handle_event(cursor(100, 100));
    e.handle_event(InputEvent::MouseLeft { pressed: true });
    // Move 10 px right and 20 px down: x -= 10*4/1000, y += 20*4/1000.
    assert!(e.handle_event(cursor(110, 120)));
    assert_eq!(e.state.center_x, rat(-1, 25));
    assert_eq!(e.state.center_y, rat(2, 25));
    // Released, further motion pans nothing.
    e.handle_event(InputEvent::MouseLeft { pressed: false });
    assert!(!e.handle_event(cursor(500, 500)));
    assert_eq!(e.state.center_x, rat(-1, 25));
}

#[test]
fn scroll_zoom_keeps_the_point_under_the_cursor() {
    // Cursor at (250, 400) over 1000x800, zoom 4: the plane point under
    // the cursor is x == -1. A scroll of one line scales zoom by 9/10.
    let mut e = Explorer::new(1000, 800);
    e.handle_event(cursor(250, 400));
    assert!(e.handle_event(InputEvent::Scroll { kind: ScrollKind::Line, amount: rat(1, 1) }));
    assert_eq!(e.state.zoom, rat(18, 5));
    assert_eq!(e.state.center_x, rat(-1, 10));
    // Plane point after: center + (250/1000 - 1/2) * 18/5 == -1/10 - 9/10 == -1.
    let offset = fractal_explorer::viewport::offset_x(rat(250, 1), 1000, e.state.zoom).unwrap();
    assert_eq!(e.state.center_x.add(offset).unwrap(), rat(-1, 1));
}

#[test]
fn scroll_pixel_delta_counts_a_twentieth_of_a_line() {
    let mut e1 = Explorer::new(1000, 800);
    let mut e2 = Explorer::new(1000, 800);
    e1.handle_event(InputEvent::Scroll { kind: ScrollKind::Line, amount: rat(1, 1) });
    e2.handle_event(InputEvent::Scroll { kind: ScrollKind::Pixel, amount: rat(20, 1) });
    assert_eq!(e1.state.zoom, e2.state.zoom);
}

#[test]
fn julia_round_trip_restores_view_exactly() {
    let mut e = Explorer::new(1000, 800);
    e.handle_event(press(Key::PanRight));
    e.handle_event(press(Key::ZoomOut));
    let saved_x = e.state.center_x;
    let saved_y = e.state.center_y;
    let saved_zoom = e.state.zoom;
    e.handle_event(cursor(750, 400));
    assert!(e.handle_event(press(Key::EnterJulia)));
    match e.state.mode {
        FractalMode::Julia { constant_x, constant_y, .. } => {
            // Constant frozen at the plane point under the cursor:
            // x = 1/5 + (750/1000 - 1/2)*5 = 1/5 + 5/4 = 29/20, y = 0.
            assert_eq!(constant_x, rat(29, 20));
            assert_eq!(constant_y, rat(0, 1));
        },
        FractalMode::Mandelbrot => panic!("expected Julia mode"),
    }
    assert_eq!(e.state.center_x, rat(0, 1));
    assert_eq!(e.state.center_y, rat(0, 1));
    assert_eq!(e.state.zoom, rat(4, 1));
    // Entering again while already in Julia mode changes nothing.
    let frozen = e.state;
    e.handle_event(press(Key::EnterJulia));
    assert_eq!(e.state, frozen);
    // Leaving restores the snapshot bit for bit.
    e.handle_event(press(Key::ExitJulia));
    assert_eq!(e.state.center_x, saved_x);
    assert_eq!(e.state.center_y, saved_y);
    assert_eq!(e.state.zoom, saved_zoom);
    assert!(matches!(e.state.mode, FractalMode::Mandelbrot));
}

#[test]
fn iteration_caps_and_precision_are_idempotent() {
    let mut e = Explorer::new(1000, 800);
    e.handle_event(press(Key::Cap2000));
    let once = e.state;
    assert_eq!(once.iteration_cap, 2000);
    e.handle_event(press(Key::Cap2000));
    assert_eq!(e.state, once);
    e.handle_event(press(Key::DoublePrecision));
    let once = e.state;
    assert!(once.double_precision);
    e.handle_event(press(Key::DoublePrecision));
    assert_eq!(e.state, once);
}

#[test]
fn every_cap_key_selects_its_value() {
    let cases = [
        (Key::Cap250, 250u32),
        (Key::Cap500, 500),
        (Key::Cap1000, 1000),
        (Key::Cap2000, 2000),
        (Key::Cap4000, 4000),
        (Key::Cap8000, 8000),
        (Key::Cap16000, 16000),
        (Key::Cap32000, 32000),
        (Key::Cap64000, 64000),
        (Key::Cap128000, 128000),
    ];
    for (key, cap) in cases {
        let mut e = Explorer::new(1000, 800);
        e.handle_event(press(key));
        assert_eq!(e.state.iteration_cap, cap);
    }
}

#[test]
fn precision_toggle_touches_nothing_else() {
    let mut e = Explorer::new(1000, 800);
    e.handle_event(press(Key::PanUp));
    e.handle_event(press(Key::ZoomOut));
    let before = e.state;
    e.handle_event(press(Key::DoublePrecision));
    assert!(e.state.double_precision);
    assert_eq!(e.state.center_x, before.center_x);
    assert_eq!(e.state.center_y, before.center_y);
    assert_eq!(e.state.zoom, before.zoom);
    assert_eq!(e.state.iteration_cap, before.iteration_cap);
    assert_eq!(e.state.mode, before.mode);
    e.handle_event(press(Key::SinglePrecision));
    assert_eq!(e.state, before);
}

#[test]
fn resize_changes_the_pixel_mapping() {
    let mut e = Explorer::new(1000, 800);
    assert!(!e.handle_event(InputEvent::Resized { width: 2000, height: 800 }));
    e.handle_event(cursor(1500, 400));
    e.handle_event(press(Key::CenterOnCursor));
    // (1500/2000 - 1/2) * 4 == 1.
    assert_eq!(e.state.center_x, rat(1, 1));
}

#[test]
fn transition_that_cannot_be_represented_is_skipped() {
    // Each zoom-in multiplies by 4/5; after 27 steps the denominator
    // 5^27 still fits below 2^63, the 28th would not, so the 28th press
    // leaves the state unchanged.
    let mut e = Explorer::new(1000, 800);
    for _ in 0..27 {
        assert!(e.handle_event(press(Key::ZoomIn)));
    }
    let stuck = e.state;
    assert!(e.handle_event(press(Key::ZoomIn)));
    assert_eq!(e.state, stuck);
}
