//! Exact rational arithmetic for the viewport model.
//!
//! Every real-valued quantity of the explorer (plane coordinates, zoom,
//! palette phases, scroll distances) is an exact fraction `num / den` of
//! machine integers. Results are reduced by the greatest common divisor;
//! an operation yields `None` exactly when even the reduced result does
//! not fit the bounded representation, and the caller then leaves its
//! state unchanged.

use vstd::prelude::*;
use vstd::arithmetic::div_mod::{
    lemma_fundamental_div_mod, lemma_mod_self_0, lemma_small_mod, lemma_add_mod_noop,
    lemma_mul_mod_noop_left,
};

verus! {

/// Magnitudes of a reduced fraction stay strictly below this bound
/// (the magnitude of `i64::MIN`), so products of two of them fit in `i128`.
pub const BOUND: i128 = 0x8000_0000_0000_0000;

/// An exact rational number. A well-formed value keeps `0 < den < BOUND`
/// and `-BOUND < num < BOUND`, so that cross products of two well-formed
/// values never overflow `i128`.
#[derive(Clone, Copy, Debug, PartialEq, Eq, Structural)]
pub struct Rat {
    pub num: i128,
    pub den: i128,
}

impl Rat {
    /// Bounded representation: positive denominator, both magnitudes below `BOUND`.
    pub open spec fn wf(self) -> bool {
        &&& -BOUND < self.num < BOUND
        &&& 0 < self.den < BOUND
    }

    /// `self` represents the fraction `n / d` (for `d != 0`), by cross multiplication.
    pub open spec fn is_frac(self, n: int, d: int) -> bool {
        self.num * d == n * self.den
    }

    /// The value of `self` is positive.
    pub open spec fn is_pos(self) -> bool {
        self.num > 0
    }
}

/// `a` and `b` represent the same rational value.
pub open spec fn same_val(a: Rat, b: Rat) -> bool {
    a.num * b.den == b.num * a.den
}

/// Magnitude of an integer.
pub open spec fn mag(n: int) -> nat {
    if n < 0 {
        (-n) as nat
    } else {
        n as nat
    }
}

/// Greatest common divisor, by Euclid's recurrence.
pub open spec fn gcd(a: nat, b: nat) -> nat
    decreases b,
{
    if b == 0 {
        a
    } else {
        gcd(b, a % b)
    }
}

/// The gcd of two numbers, not both zero, is positive and divides both.
pub proof fn lemma_gcd_divides(a: nat, b: nat)
    requires
        !(a == 0 && b == 0),
    ensures
        gcd(a, b) > 0,
        a % gcd(a, b) == 0,
        b % gcd(a, b) == 0,
    decreases b,
{
    let g = gcd(a, b) as int;
    if b == 0 {
        lemma_mod_self_0(a as int);
        lemma_small_mod(0, a);
    } else {
        lemma_gcd_divides(b, a % b);
        assert(g > 0);
        lemma_fundamental_div_mod(a as int, b as int);
        // a == b * (a / b) + a % b, and g divides both summands.
        lemma_mul_mod_noop_left(b as int, (a as int) / (b as int), g);
        lemma_add_mod_noop((b as int) * ((a as int) / (b as int)), (a % b) as int, g);
        lemma_small_mod(0, g as nat);
    }
}

/// Reduction of `n / d` (for `d > 0`) to lowest terms, `None` when even the
/// reduced magnitudes do not fit below `BOUND`.
pub open spec fn norm_spec(n: int, d: int) -> Option<Rat>
    recommends
        d > 0,
{
    let g = gcd(mag(n), d as nat) as int;
    let rm = mag(n) as int / g;
    let rd = d / g;
    if rm < BOUND && rd < BOUND {
        Some(
            Rat {
                num: if n < 0 {
                    (-rm) as i128
                } else {
                    rm as i128
                },
                den: rd as i128,
            },
        )
    } else {
        None
    }
}

/// A successful reduction is well formed, positive in the denominator,
/// exact, and keeps the sign of the numerator.
pub proof fn lemma_norm_exact(n: int, d: int)
    requires
        0 < d,
    ensures
        match norm_spec(n, d) {
            Some(c) => c.wf() && c.is_frac(n, d) && (c.num > 0 <==> n > 0) && (c.num == 0 <==> n
                == 0),
            None => true,
        },
{
    let m = mag(n) as int;
    lemma_gcd_divides(mag(n), d as nat);
    let g = gcd(mag(n), d as nat) as int;
    let rm = m / g;
    let rd = d / g;
    lemma_fundamental_div_mod(m, g);
    lemma_fundamental_div_mod(d, g);
    assert(m == g * rm);
    assert(d == g * rd);
    if rm < BOUND && rd < BOUND {
        let c = norm_spec(n, d)->Some_0;
        assert(rd > 0) by (nonlinear_arith)
            requires
                d == g * rd,
                d > 0,
                g > 0,
                rd >= 0,
        ;
        assert(rm >= 0) by (nonlinear_arith)
            requires
                m == g * rm,
                m >= 0,
                g > 0,
        ;
        // Exactness: (±rm) * d == n * rd, since m == g*rm and d == g*rd.
        assert(rm * (g * rd) == (g * rm) * rd) by (nonlinear_arith);
        if n < 0 {
            assert(c.num == -rm && c.den == rd);
            assert(m == -n);
            assert((-rm) * d == n * rd) by (nonlinear_arith)
                requires
                    rm * (g * rd) == (g * rm) * rd,
                    d == g * rd,
                    m == g * rm,
                    m == -n,
            ;
        } else {
            assert(c.num == rm && c.den == rd);
            assert(m == n);
            assert(rm * d == n * rd) by (nonlinear_arith)
                requires
                    rm * (g * rd) == (g * rm) * rd,
                    d == g * rd,
                    m == g * rm,
                    m == n,
            ;
        }
        assert(c.num > 0 <==> n > 0) by (nonlinear_arith)
            requires
                c.num * d == n * c.den,
                d > 0,
                c.den > 0,
        ;
        assert(c.num == 0 <==> n == 0) by (nonlinear_arith)
            requires
                c.num * d == n * c.den,
                d > 0,
                c.den > 0,
        ;
    }
}

/// Euclid's algorithm on machine integers, matching the `gcd` recurrence.
pub fn gcd_i128(a: i128, b: i128) -> (g: i128)
    requires
        0 <= a,
        0 <= b,
        !(a == 0 && b == 0),
    ensures
        g == gcd(a as nat, b as nat),
        g > 0,
    decreases b,
{
    proof {
        lemma_gcd_divides(a as nat, b as nat);
    }
    if b == 0 {
        a
    } else {
        gcd_i128(b, a % b)
    }
}

/// Reduce `n / d` to lowest terms, `None` when the result does not fit.
pub fn normalize(n: i128, d: i128) -> (r: Option<Rat>)
    requires
        0 < d,
        -i128::MAX <= n,
    ensures
        r == norm_spec(n as int, d as int),
        r matches Some(c) ==> c.wf(),
{
    proof {
        lemma_gcd_divides(mag(n as int), d as nat);
        lemma_norm_exact(n as int, d as int);
    }
    let m: i128 = if n < 0 {
        -n
    } else {
        n
    };
    let g = gcd_i128(m, d);
    let rm = m / g;
    let rd = d / g;
    if rm < BOUND && rd < BOUND {
        Some(
            Rat {
                num: if n < 0 {
                    -rm
                } else {
                    rm
                },
                den: rd,
            },
        )
    } else {
        None
    }
}

/// Products of two magnitudes below `b` stay within `b * b`.
pub proof fn lemma_prod_bound(x: int, y: int, b: int)
    by (nonlinear_arith)
    requires
        -b <= x <= b,
        -b <= y <= b,
        0 <= b,
    ensures
        -(b * b) <= x * y <= b * b,
{
}

/// Cross products of two well-formed rationals fit comfortably in `i128`.
proof fn lemma_cross_products_fit(a: Rat, b: Rat)
    requires
        a.wf(),
        b.wf(),
    ensures
        -((BOUND - 1) * (BOUND - 1)) <= a.num * b.den <= (BOUND - 1) * (BOUND - 1),
        -((BOUND - 1) * (BOUND - 1)) <= b.num * a.den <= (BOUND - 1) * (BOUND - 1),
        -((BOUND - 1) * (BOUND - 1)) <= a.num * b.num <= (BOUND - 1) * (BOUND - 1),
        0 < a.den * b.den <= (BOUND - 1) * (BOUND - 1),
        2 * ((BOUND - 1) * (BOUND - 1)) < i128::MAX,
{
    lemma_prod_bound(a.num as int, b.den as int, BOUND - 1 as int);
    lemma_prod_bound(b.num as int, a.den as int, BOUND - 1 as int);
    lemma_prod_bound(a.num as int, b.num as int, BOUND - 1 as int);
    lemma_prod_bound(a.den as int, b.den as int, BOUND - 1 as int);
    assert(2 * ((BOUND - 1) * (BOUND - 1)) < i128::MAX) by (nonlinear_arith);
    assert(a.den * b.den > 0) by (nonlinear_arith)
        requires
            a.den > 0,
            b.den > 0,
    ;
}

/// Exact sum, reduced: `a + b = (a.num*b.den + b.num*a.den) / (a.den*b.den)`.
pub open spec fn add_spec(a: Rat, b: Rat) -> Option<Rat>
    recommends
        a.wf(),
        b.wf(),
{
    norm_spec(a.num * b.den + b.num * a.den, a.den * b.den)
}

/// Exact difference, reduced.
pub open spec fn sub_spec(a: Rat, b: Rat) -> Option<Rat>
    recommends
        a.wf(),
        b.wf(),
{
    norm_spec(a.num * b.den - b.num * a.den, a.den * b.den)
}

/// Exact product, reduced.
pub open spec fn mul_spec(a: Rat, b: Rat) -> Option<Rat>
    recommends
        a.wf(),
        b.wf(),
{
    norm_spec(a.num * b.num, a.den * b.den)
}

/// Exact quotient, reduced; the divisor must be nonzero.
pub open spec fn div_spec(a: Rat, b: Rat) -> Option<Rat>
    recommends
        a.wf(),
        b.wf(),
        b.num != 0,
{
    if b.num > 0 {
        norm_spec(a.num * b.den, a.den * b.num)
    } else {
        norm_spec(-(a.num * b.den), a.den * (-b.num))
    }
}

impl Rat {
    /// Sum of two well-formed rationals, `None` exactly when the reduced
    /// result does not fit the bounded representation.
    pub fn add(self, b: Rat) -> (r: Option<Rat>)
        requires
            self.wf(),
            b.wf(),
        ensures
            r == add_spec(self, b),
            r matches Some(c) ==> c.wf(),
    {
        proof {
            lemma_cross_products_fit(self, b);
        }
        normalize(self.num * b.den + b.num * self.den, self.den * b.den)
    }

    /// Difference of two well-formed rationals.
    pub fn sub(self, b: Rat) -> (r: Option<Rat>)
        requires
            self.wf(),
            b.wf(),
        ensures
            r == sub_spec(self, b),
            r matches Some(c) ==> c.wf(),
    {
        proof {
            lemma_cross_products_fit(self, b);
        }
        normalize(self.num * b.den - b.num * self.den, self.den * b.den)
    }

    /// Product of two well-formed rationals.
    pub fn mul(self, b: Rat) -> (r: Option<Rat>)
        requires
            self.wf(),
            b.wf(),
        ensures
            r == mul_spec(self, b),
            r matches Some(c) ==> c.wf(),
    {
        proof {
            lemma_cross_products_fit(self, b);
        }
        normalize(self.num * b.num, self.den * b.den)
    }

    /// Quotient of two well-formed rationals; the divisor must be nonzero.
    pub fn div(self, b: Rat) -> (r: Option<Rat>)
        requires
            self.wf(),
            b.wf(),
            b.num != 0,
        ensures
            r == div_spec(self, b),
            r matches Some(c) ==> c.wf(),
    {
        proof {
            lemma_cross_products_fit(self, b);
            lemma_prod_bound(self.den as int, b.num as int, BOUND - 1 as int);
            lemma_prod_bound(self.den as int, -(b.num as int), BOUND - 1 as int);
            assert(b.num > 0 ==> self.den * b.num > 0) by (nonlinear_arith)
                requires
                    self.den > 0,
            ;
            assert(b.num < 0 ==> self.den * (-b.num) > 0) by (nonlinear_arith)
                requires
                    self.den > 0,
            ;
        }
        if b.num > 0 {
            normalize(self.num * b.den, self.den * b.num)
        } else {
            normalize(-(self.num * b.den), self.den * (-b.num))
        }
    }

    /// Exact negation; never fails and never changes magnitudes.
    pub fn neg(self) -> (r: Rat)
        requires
            self.wf(),
        ensures
            r.wf(),
            r.num == -self.num,
            r.den == self.den,
    {
        Rat { num: -self.num, den: self.den }
    }

    /// Strict order on values: `self < b` iff `self.num * b.den < b.num * self.den`.
    pub fn lt(self, b: Rat) -> (r: bool)
        requires
            self.wf(),
            b.wf(),
        ensures
            r == (self.num * b.den < b.num * self.den),
    {
        proof {
            lemma_cross_products_fit(self, b);
        }
        self.num * b.den < b.num * self.den
    }

    /// Build the reduced rational `n / d`; `None` when `d == 0` or the
    /// reduced magnitudes do not fit below `BOUND`.
    pub fn new(n: i128, d: i128) -> (r: Option<Rat>)
        requires
            -i128::MAX <= n,
            -i128::MAX <= d,
        ensures
            r == new_spec(n as int, d as int),
            r matches Some(c) ==> c.wf(),
    {
        if d == 0 {
            None
        } else if d > 0 {
            normalize(n, d)
        } else {
            proof {
                lemma_norm_exact(-(n as int), -(d as int));
            }
            normalize(-n, -d)
        }
    }

    /// The exact integer `n`.
    pub fn from_int(n: i64) -> (r: Rat)
        requires
            n > i64::MIN,
        ensures
            r.wf(),
            r.num == n,
            r.den == 1,
    {
        Rat { num: n as i128, den: 1 }
    }
}

/// A successful sum is well formed and represents the exact sum.
pub proof fn lemma_add_val(a: Rat, b: Rat)
    requires
        a.wf(),
        b.wf(),
    ensures
        match add_spec(a, b) {
            Some(c) => c.wf() && c.is_frac(a.num * b.den + b.num * a.den, a.den * b.den),
            None => true,
        },
{
    lemma_cross_products_fit(a, b);
    lemma_norm_exact(a.num * b.den + b.num * a.den, a.den * b.den);
}

/// A successful difference is well formed and represents the exact difference.
pub proof fn lemma_sub_val(a: Rat, b: Rat)
    requires
        a.wf(),
        b.wf(),
    ensures
        match sub_spec(a, b) {
            Some(c) => c.wf() && c.is_frac(a.num * b.den - b.num * a.den, a.den * b.den),
            None => true,
        },
{
    lemma_cross_products_fit(a, b);
    lemma_norm_exact(a.num * b.den - b.num * a.den, a.den * b.den);
}

/// A successful product is well formed, exact, and keeps the sign of the
/// product of the operands' numerators.
pub proof fn lemma_mul_val(a: Rat, b: Rat)
    requires
        a.wf(),
        b.wf(),
    ensures
        match mul_spec(a, b) {
            Some(c) => c.wf() && c.is_frac(a.num * b.num, a.den * b.den) && (c.num > 0 <==> a.num
                * b.num > 0),
            None => true,
        },
{
    lemma_cross_products_fit(a, b);
    lemma_norm_exact(a.num * b.num, a.den * b.den);
}

/// A successful quotient is well formed and represents the exact quotient
/// `(a.num * b.den) / (a.den * b.num)`.
pub proof fn lemma_div_val(a: Rat, b: Rat)
    requires
        a.wf(),
        b.wf(),
        b.num != 0,
    ensures
        match div_spec(a, b) {
            Some(c) => c.wf() && c.num * (a.den * b.num) == a.num * b.den * c.den,
            None => true,
        },
{
    lemma_cross_products_fit(a, b);
    if b.num > 0 {
        assert(a.den * b.num > 0) by (nonlinear_arith)
            requires
                a.den > 0,
                b.num > 0,
        ;
        lemma_norm_exact(a.num * b.den, a.den * b.num);
    } else {
        assert(a.den * (-b.num) > 0) by (nonlinear_arith)
            requires
                a.den > 0,
                b.num < 0,
        ;
        lemma_prod_bound(a.den as int, -(b.num as int), BOUND - 1 as int);
        lemma_norm_exact(-(a.num * b.den), a.den * (-b.num));
        if div_spec(a, b) is Some {
            let c = div_spec(a, b)->Some_0;
            assert(c.num * (a.den * (-b.num)) == (-(a.num * b.den)) * c.den);
            assert(c.num * (a.den * b.num) == a.num * b.den * c.den) by (nonlinear_arith)
                requires
                    c.num * (a.den * (-b.num)) == (-(a.num * b.den)) * c.den,
            ;
        }
    }
}

/// `Rat::new`: `None` on a zero denominator, otherwise the reduction of the
/// fraction brought to a positive denominator.
pub open spec fn new_spec(n: int, d: int) -> Option<Rat> {
    if d == 0 {
        None
    } else if d > 0 {
        norm_spec(n, d)
    } else {
        norm_spec(-n, -d)
    }
}

} // verus!
