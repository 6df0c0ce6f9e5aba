use fractal_explorer::rat::Rat;

fn rat(n: i128, d: i128) -> Rat {
    Rat::new(n, d).unwrap()
}

#[test]
fn new_reduces_to_lowest_terms() {
    let r = rat(4, 8);
    assert_eq!(r.num, 1);
    assert_eq!(r.den, 2);
}

#[test]
fn new_normalizes_negative_denominator() {
    let r = rat(3, -6);
    assert_eq!(r.num, -1);
    assert_eq!(r.den, 2);
}

#[test]
fn new_rejects_zero_denominator() {
    assert!(Rat::new(5, 0).is_none());
}

#[test]
fn new_rejects_unrepresentable_magnitude() {
    // i128::MAX is odd, so nothing reduces; the magnitude exceeds the bound.
    assert!(Rat::new(i128::MAX, 1).is_none());
}

#[test]
fn add_is_exact() {
    let r = rat(1, 3).add(rat(1, 6)).unwrap();
    assert_eq!(r, rat(1, 2));
}

#[test]
fn sub_is_exact() {
    let r = rat(1, 2).sub(rat(1, 3)).unwrap();
    assert_eq!(r, rat(1, 6));
}

#[test]
fn mul_is_exact() {
    let r = rat(3, 4).mul(rat(2, 3)).unwrap();
    assert_eq!(r, rat(1, 2));
}

#[test]
fn div_is_exact() {
    let r = rat(1, 2).div(rat(3, 2)).unwrap();
    assert_eq!(r, rat(1, 3));
    let r = rat(1, 2).div(rat(-3, 2)).unwrap();
    assert_eq!(r, rat(-1, 3));
}

#[test]
fn lt_orders_by_value() {
    assert!(rat(1, 3).lt(rat(1, 2)));
    assert!(!rat(1, 2).lt(rat(1, 3)));
    assert!(!rat(2, 4).lt(rat(1, 2)));
    assert!(rat(-1, 2).lt(rat(-1, 3)));
}

#[test]
fn neg_flips_the_sign() {
    assert_eq!(rat(3, 7).neg(), rat(-3, 7));
}

#[test]
fn add_overflow_yields_none() {
    let big = Rat::new((1i128 << 62) + 1, 1).unwrap();
    assert!(big.mul(big).is_none());
}
