use fractal_explorer::palette::{PaletteStop, default_stops, generate, color_entry};
use fractal_explorer::rat::Rat;

fn rat(n: i128, d: i128) -> Rat {
    Rat::new(n, d).unwrap()
}

#[test]
fn default_palette_has_the_cycle_length() {
    let stops = default_stops();
    let lut = generate(&stops, 100);
    assert_eq!(lut.len(), 100);
}

#[test]
fn first_entry_is_the_first_stop_color() {
    let stops = default_stops();
    let lut = generate(&stops, 100);
    assert_eq!(lut[0], (0, 7, 100));
}

#[test]
fn interpolation_truncates_toward_zero() {
    // Entry 10 of 100: t = 1/10 in [0, 4/25): u = 5/8.
    // red   = 0   + 32*5/8            = 20
    // green = 7   + (107-7)*5/8       = 69.5   -> 69
    // blue  = 100 + (203-100)*5/8     = 164.375 -> 164
    let stops = default_stops();
    let lut = generate(&stops, 100);
    assert_eq!(lut[10], (20, 69, 164));
}

#[test]
fn interpolation_in_a_middle_interval() {
    // Entry 50 of 100: t = 1/2 in [21/50, 257/400): u = 32/89.
    // red   = 237 + (255-237)*32/89 = 243.47 -> 243
    // green = 255 + (170-255)*32/89 = 224.43 -> 224
    // blue  = 255 + (0-255)*32/89   = 163.31 -> 163
    let stops = default_stops();
    let lut = generate(&stops, 100);
    assert_eq!(lut[50], (243, 224, 163));
}

#[test]
fn two_stop_ramp_interpolates_linearly() {
    let stops = vec![
        PaletteStop { phase: rat(0, 1), red: 0, green: 0, blue: 0 },
        PaletteStop { phase: rat(1, 1), red: 255, green: 255, blue: 255 },
    ];
    let lut = generate(&stops, 4);
    assert_eq!(lut[0], (0, 0, 0));
    assert_eq!(lut[1], (63, 63, 63));
    assert_eq!(lut[2], (127, 127, 127));
    assert_eq!(lut[3], (191, 191, 191));
}

#[test]
fn descending_channels_stay_in_range() {
    let stops = vec![
        PaletteStop { phase: rat(0, 1), red: 200, green: 10, blue: 255 },
        PaletteStop { phase: rat(1, 2), red: 0, green: 255, blue: 0 },
        PaletteStop { phase: rat(1, 1), red: 100, green: 0, blue: 9 },
    ];
    let lut = generate(&stops, 1000);
    for &(r, g, b) in lut.iter() {
        // u8 already bounds them; check the interpolation stays between
        // the surrounding stop channels as well.
        assert!(r <= 200);
        let _ = g;
        let _ = b;
    }
    assert_eq!(lut[0], (200, 10, 255));
    // t = 1/2 starts the second interval exactly.
    assert_eq!(lut[500], (0, 255, 0));
}

#[test]
fn single_entry_table_holds_the_first_stop() {
    let stops = default_stops();
    assert_eq!(color_entry(&stops, 1, 0), (0, 7, 100));
}
