//! The laws of the explorer, stated and proved over the transition
//! specifications.

use vstd::prelude::*;
use crate::rat::{Rat, add_spec, sub_spec, same_val, lemma_add_val, lemma_sub_val};
use crate::viewport::{
    ViewportState, InputFrame, offset_x_spec, offset_y_spec, scroll_zoom_spec, scroll_factor_spec,
    enter_julia_spec, exit_julia_spec, lemma_offset_x_wf, lemma_offset_y_wf,
};
use crate::rat::mul_spec;
use crate::input::{Key, cap_of_key, key_step_spec};

verus! {

/// The plane point under a pixel, horizontally: `center_x` plus the
/// pixel-to-plane offset of the cursor.
pub open spec fn plane_x_spec(center_x: Rat, cursor_x: Rat, width: u32, zoom: Rat) -> Option<Rat>
    recommends
        center_x.wf(),
        cursor_x.wf(),
        width > 0,
        zoom.wf(),
{
    match offset_x_spec(cursor_x, width, zoom) {
        Some(o) => add_spec(center_x, o),
        None => None,
    }
}

/// The plane point under a pixel, vertically.
pub open spec fn plane_y_spec(
    center_y: Rat,
    cursor_y: Rat,
    width: u32,
    height: u32,
    zoom: Rat,
) -> Option<Rat>
    recommends
        center_y.wf(),
        cursor_y.wf(),
        width > 0,
        height > 0,
        zoom.wf(),
{
    match offset_y_spec(cursor_y, width, height, zoom) {
        Some(o) => add_spec(center_y, o),
        None => None,
    }
}

/// Subtracting and then adding back the same rational returns to the
/// same value.
#[verifier::rlimit(50)]
proof fn lemma_sub_add_cancel(a: Rat, b: Rat)
    requires
        a.wf(),
        b.wf(),
        sub_spec(a, b) is Some,
        add_spec(sub_spec(a, b)->Some_0, b) is Some,
    ensures
        same_val(add_spec(sub_spec(a, b)->Some_0, b)->Some_0, a),
{
    let c = sub_spec(a, b)->Some_0;
    let q = add_spec(c, b)->Some_0;
    lemma_sub_val(a, b);
    lemma_add_val(c, b);
    let an = a.num as int;
    let ad = a.den as int;
    let bn = b.num as int;
    let bd = b.den as int;
    let cn = c.num as int;
    let cd = c.den as int;
    let qn = q.num as int;
    let qd = q.den as int;
    assert(cn * (ad * bd) == (an * bd - bn * ad) * cd);
    assert(qn * (cd * bd) == (cn * bd + bn * cd) * qd);
    // Multiply the second identity by a.den and substitute the first.
    assert((qn * (cd * bd)) * ad == ((cn * bd + bn * cd) * qd) * ad);
    assert(((cn * bd + bn * cd) * qd) * ad == (cn * (ad * bd)) * qd + bn * cd * ad * qd)
        by (nonlinear_arith);
    assert((cn * (ad * bd)) * qd == ((an * bd - bn * ad) * cd) * qd);
    assert(((an * bd - bn * ad) * cd) * qd + bn * cd * ad * qd == (an * qd) * (cd * bd))
        by (nonlinear_arith);
    assert((qn * (cd * bd)) * ad == (qn * ad) * (cd * bd)) by (nonlinear_arith);
    assert((qn * ad) * (cd * bd) == (an * qd) * (cd * bd));
    assert(qn * ad == an * qd) by (nonlinear_arith)
        requires
            (qn * ad) * (cd * bd) == (an * qd) * (cd * bd),
            cd > 0,
            bd > 0,
    ;
}

/// Scroll-zoom anchoring: the plane point under the cursor is the same
/// before and after a scroll-zoom. Whenever the transition succeeds and
/// the plane point under the cursor is representable afterwards, it has
/// exactly the value it had before.
pub proof fn lemma_scroll_anchor(s: ViewportState, f: InputFrame, dist: Rat)
    requires
        s.wf(),
        f.wf(),
        dist.wf(),
        scroll_zoom_spec(s, f, dist) is Some,
    ensures
        plane_x_spec(s.center_x, f.cursor_x, f.width, s.zoom) is Some,
        plane_y_spec(s.center_y, f.cursor_y, f.width, f.height, s.zoom) is Some,
        ({
            let s2 = scroll_zoom_spec(s, f, dist)->Some_0;
            plane_x_spec(s2.center_x, f.cursor_x, f.width, s2.zoom) matches Some(after)
                ==> same_val(
                after,
                plane_x_spec(s.center_x, f.cursor_x, f.width, s.zoom)->Some_0,
            )
        }),
        ({
            let s2 = scroll_zoom_spec(s, f, dist)->Some_0;
            plane_y_spec(s2.center_y, f.cursor_y, f.width, f.height, s2.zoom) matches Some(after)
                ==> same_val(
                after,
                plane_y_spec(s.center_y, f.cursor_y, f.width, f.height, s.zoom)->Some_0,
            )
        }),
{
    let s2 = scroll_zoom_spec(s, f, dist)->Some_0;
    let fac = scroll_factor_spec(dist)->Some_0;
    let ox1 = offset_x_spec(f.cursor_x, f.width, s.zoom)->Some_0;
    let oy1 = offset_y_spec(f.cursor_y, f.width, f.height, s.zoom)->Some_0;
    let x1 = add_spec(s.center_x, ox1)->Some_0;
    let y1 = add_spec(s.center_y, oy1)->Some_0;
    let z2 = mul_spec(s.zoom, fac)->Some_0;
    let ox2 = offset_x_spec(f.cursor_x, f.width, z2)->Some_0;
    let oy2 = offset_y_spec(f.cursor_y, f.width, f.height, z2)->Some_0;
    assert(s2.center_x == sub_spec(x1, ox2)->Some_0);
    assert(s2.center_y == sub_spec(y1, oy2)->Some_0);
    assert(s2.zoom == z2);
    crate::rat::lemma_mul_val(dist, Rat { num: 1, den: 10 });
    crate::rat::lemma_sub_val(
        Rat { num: 1, den: 1 },
        mul_spec(dist, Rat { num: 1, den: 10 })->Some_0,
    );
    lemma_offset_x_wf(f.cursor_x, f.width, s.zoom);
    lemma_offset_y_wf(f.cursor_y, f.width, f.height, s.zoom);
    crate::rat::lemma_add_val(s.center_x, ox1);
    crate::rat::lemma_add_val(s.center_y, oy1);
    crate::rat::lemma_mul_val(s.zoom, fac);
    lemma_offset_x_wf(f.cursor_x, f.width, z2);
    lemma_offset_y_wf(f.cursor_y, f.width, f.height, z2);
    if plane_x_spec(s2.center_x, f.cursor_x, f.width, s2.zoom) is Some {
        lemma_sub_add_cancel(x1, ox2);
    }
    if plane_y_spec(s2.center_y, f.cursor_y, f.width, f.height, s2.zoom) is Some {
        lemma_sub_add_cancel(y1, oy2);
    }
}

/// Mode-switch round trip: entering Julia mode and returning to
/// Mandelbrot mode restores the center and zoom bit for bit, and leaves
/// the iteration cap and the precision flag untouched.
pub proof fn lemma_mode_round_trip(s: ViewportState, f: InputFrame)
    requires
        s.wf(),
        f.wf(),
        s.mode is Mandelbrot,
        enter_julia_spec(s, f) is Some,
    ensures
        ({
            let back = exit_julia_spec(enter_julia_spec(s, f)->Some_0);
            &&& back.center_x == s.center_x
            &&& back.center_y == s.center_y
            &&& back.zoom == s.zoom
            &&& back.mode is Mandelbrot
            &&& back.iteration_cap == s.iteration_cap
            &&& back.double_precision == s.double_precision
        }),
{
}

/// A precision key changes the precision flag alone: center, zoom,
/// iteration cap, mode and with it the frozen Julia constant stay as
/// they were.
pub proof fn lemma_precision_keys_pure(s: ViewportState, f: InputFrame, key: Key, pressed: bool)
    requires
        s.wf(),
        f.wf(),
        key == Key::SinglePrecision || key == Key::DoublePrecision,
    ensures
        ({
            let s2 = key_step_spec(s, f, key, pressed);
            &&& s2.center_x == s.center_x
            &&& s2.center_y == s.center_y
            &&& s2.zoom == s.zoom
            &&& s2.iteration_cap == s.iteration_cap
            &&& s2.mode == s.mode
            &&& s2.double_precision == (key == Key::DoublePrecision)
        }),
{
}

/// A key that selects an iteration cap or a precision is one of the
/// idempotent selection keys.
pub open spec fn is_selection_key(key: Key) -> bool {
    cap_of_key(key) is Some || key == Key::SinglePrecision || key == Key::DoublePrecision
}

/// Selection keys are idempotent: pressing the same key twice yields the
/// same state as pressing it once.
pub proof fn lemma_selection_keys_idempotent(
    s: ViewportState,
    f: InputFrame,
    key: Key,
    pressed: bool,
)
    requires
        s.wf(),
        f.wf(),
        is_selection_key(key),
    ensures
        key_step_spec(key_step_spec(s, f, key, pressed), f, key, pressed) == key_step_spec(
            s,
            f,
            key,
            pressed,
        ),
{
}

} // verus!
