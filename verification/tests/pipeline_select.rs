use fractal_explorer::input::{Explorer, InputEvent, Key};
use fractal_explorer::pipeline::{select, ProgramId};

fn press(e: &mut Explorer, key: Key) {
    e.handle_event(InputEvent::Key { key, pressed: true });
}

#[test]
fn four_flag_combinations_select_four_distinct_programs() {
    let mut programs = Vec::new();
    for double in [false, true] {
        for julia in [false, true] {
            let mut e = Explorer::new(1000, 800);
            press(&mut e, if double { Key::DoublePrecision } else { Key::SinglePrecision });
            if julia {
                press(&mut e, Key::EnterJulia);
            }
            let (p, _) = select(&e.state, &e.frame);
            programs.push(p);
        }
    }
    assert_eq!(
        programs,
        vec![
            ProgramId::MandelbrotSingle,
            ProgramId::JuliaSingle,
            ProgramId::MandelbrotDouble,
            ProgramId::JuliaDouble,
        ]
    );
}

#[test]
fn uniforms_carry_the_state_through() {
    let mut e = Explorer::new(1000, 800);
    press(&mut e, Key::Cap4000);
    press(&mut e, Key::ZoomOut);
    let (p, u) = select(&e.state, &e.frame);
    assert_eq!(p, ProgramId::MandelbrotSingle);
    assert_eq!(u.aspect_ratio.num, 800);
    assert_eq!(u.aspect_ratio.den, 1000);
    assert_eq!(u.center_x, e.state.center_x);
    assert_eq!(u.center_y, e.state.center_y);
    assert_eq!(u.zoom, e.state.zoom);
    assert_eq!(u.iterations, 4000);
    assert_eq!(u.cycle_iters, 100);
    assert!(u.julia_constant.is_none());
}

#[test]
fn julia_uniforms_carry_the_frozen_constant() {
    let mut e = Explorer::new(1000, 800);
    press(&mut e, Key::EnterJulia);
    let (p, u) = select(&e.state, &e.frame);
    assert_eq!(p, ProgramId::JuliaSingle);
    let (cx, cy) = u.julia_constant.expect("Julia mode carries a constant");
    // Cursor still at the pixel origin: the constant is the plane point
    // under (0,0) at zoom 4 over 1000x800: x = -2, y = 1.6 = 8/5.
    assert_eq!(cx.num, -2);
    assert_eq!(cx.den, 1);
    assert_eq!(cy.num, 8);
    assert_eq!(cy.den, 5);
}
