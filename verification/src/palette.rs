//! Palette generation: a fixed-size lookup table from a cyclic iteration
//! phase to an RGB color.
//!
//! For index `i` of a table of `count` entries, the phase is `t = i/count`.
//! The first stop index `k` with `t < phase[k]` (scanned from index 1)
//! selects the interval `[phase[k-1], phase[k])`; each channel is
//! interpolated linearly over that interval and truncated toward zero.
//! With the interpolation fraction `u = (t - p0) / (p1 - p0)` written as
//! the exact fraction `nn / dd`, where
//! `nn = (i*p0.den - p0.num*count) * p1.den` and
//! `dd = count * (p1.num*p0.den - p0.num*p1.den)`, the channel value
//! `c0 + (c1 - c0) * u` equals `(c0*(dd - nn) + c1*nn) / dd` exactly.
//! If no stop phase lies above `t`, the entry is a defined black fallback.

use vstd::prelude::*;
use vstd::arithmetic::div_mod::{
    lemma_div_is_ordered, lemma_div_multiples_vanish, lemma_div_pos_is_pos,
};
use crate::rat::{Rat, lemma_prod_bound};

verus! {

/// Palette stop phases and the table size stay below this bound, so all
/// interpolation arithmetic fits comfortably in `i128`.
pub const PHASE_BOUND: i128 = 0x8000_0000;

/// One control stop: a phase in `[0, 1]` and the color it anchors.
#[derive(Clone, Copy, Debug, PartialEq, Eq, Structural)]
pub struct PaletteStop {
    pub phase: Rat,
    pub red: u8,
    pub green: u8,
    pub blue: u8,
}

/// A phase small enough for interpolation arithmetic.
pub open spec fn phase_small(p: Rat) -> bool {
    &&& -PHASE_BOUND < p.num < PHASE_BOUND
    &&& 0 < p.den < PHASE_BOUND
}

/// A valid stop sequence: at least two stops, bounded phases, strictly
/// increasing phases, the first at exactly 0 and the last at exactly 1,
/// so that every phase in `[0, 1)` falls in exactly one interval.
pub open spec fn stops_wf(stops: Seq<PaletteStop>) -> bool {
    &&& stops.len() >= 2
    &&& forall|k: int| 0 <= k < stops.len() ==> phase_small(#[trigger] stops[k].phase)
    &&& forall|k: int|
        0 <= k < stops.len() - 1 ==> (#[trigger] stops[k].phase).num * stops[k + 1].phase.den
            < stops[k + 1].phase.num * stops[k].phase.den
    &&& stops[0].phase.num == 0
    &&& stops[stops.len() - 1].phase.num == stops[stops.len() - 1].phase.den
}

/// `i/m` lies strictly below the phase of stop `j`.
pub open spec fn below_stop(stops: Seq<PaletteStop>, m: int, i: int, j: int) -> bool {
    i * stops[j].phase.den < stops[j].phase.num * m
}

/// The smallest stop index at or after `k0` whose phase lies strictly
/// above `i/m`; 0 when there is none.
pub open spec fn find_seg(stops: Seq<PaletteStop>, m: int, i: int, k0: int) -> int
    decreases stops.len() - k0,
{
    if k0 < 1 || k0 >= stops.len() {
        0
    } else if below_stop(stops, m, i, k0) {
        k0
    } else {
        find_seg(stops, m, i, k0 + 1)
    }
}

/// Numerator of the interpolation fraction `u` over the interval `[p0, p1)`.
pub open spec fn seg_num(p0: Rat, p1: Rat, m: int, i: int) -> int {
    (i * p0.den - p0.num * m) * p1.den
}

/// Denominator of the interpolation fraction `u` over `[p0, p1)`.
pub open spec fn seg_den(p0: Rat, p1: Rat, m: int) -> int {
    m * (p1.num * p0.den - p0.num * p1.den)
}

/// One linearly interpolated channel, truncated toward zero:
/// `c0 + (c1 - c0) * (nn/dd)` as the integer quotient `(c0*(dd-nn) + c1*nn) / dd`.
pub open spec fn chan_at(c0: u8, c1: u8, nn: int, dd: int) -> int {
    (c0 * (dd - nn) + c1 * nn) / dd
}

/// The exact color of table index `i` out of `m`, as channel integers.
pub open spec fn color_at(stops: Seq<PaletteStop>, m: int, i: int) -> (int, int, int)
    recommends
        stops_wf(stops),
        0 < m,
        0 <= i < m,
{
    let k = find_seg(stops, m, i, 1);
    if k == 0 {
        (0, 0, 0)
    } else {
        let p0 = stops[k - 1].phase;
        let p1 = stops[k].phase;
        let nn = seg_num(p0, p1, m, i);
        let dd = seg_den(p0, p1, m);
        (
            chan_at(stops[k - 1].red, stops[k].red, nn, dd),
            chan_at(stops[k - 1].green, stops[k].green, nn, dd),
            chan_at(stops[k - 1].blue, stops[k].blue, nn, dd),
        )
    }
}

/// The color of table index `i`, as bytes.
pub open spec fn color_spec(stops: Seq<PaletteStop>, m: int, i: int) -> (u8, u8, u8) {
    let (r, g, b) = color_at(stops, m, i);
    (r as u8, g as u8, b as u8)
}

/// `find_seg` lands on `k` when every stop from `k0` up to `k` lies at or
/// below `i/m` and stop `k` lies strictly above it.
proof fn lemma_find_seg_lands(stops: Seq<PaletteStop>, m: int, i: int, k0: int, k: int)
    requires
        1 <= k0 <= k < stops.len(),
        below_stop(stops, m, i, k),
        forall|j: int| k0 <= j < k ==> !below_stop(stops, m, i, j),
    ensures
        find_seg(stops, m, i, k0) == k,
    decreases k - k0,
{
    if k0 < k {
        lemma_find_seg_lands(stops, m, i, k0 + 1, k);
    }
}

/// `find_seg` yields the fallback 0 when no stop lies strictly above `i/m`.
proof fn lemma_find_seg_fails(stops: Seq<PaletteStop>, m: int, i: int, k0: int)
    requires
        1 <= k0,
        forall|j: int| k0 <= j < stops.len() ==> !below_stop(stops, m, i, j),
    ensures
        find_seg(stops, m, i, k0) == 0,
    decreases stops.len() - k0,
{
    if k0 < stops.len() {
        lemma_find_seg_fails(stops, m, i, k0 + 1);
    }
}

/// In a valid stop sequence the scan always finds an interval: it lands
/// on some `k` in `[1, len)`, with `i/m` at or above the phase of `k-1`
/// and strictly below the phase of `k`.
pub proof fn lemma_find_seg_in_range(stops: Seq<PaletteStop>, m: int, i: int)
    requires
        stops_wf(stops),
        0 < m,
        0 <= i < m,
    ensures
        1 <= find_seg(stops, m, i, 1) < stops.len(),
        below_stop(stops, m, i, find_seg(stops, m, i, 1)),
        !below_stop(stops, m, i, find_seg(stops, m, i, 1) - 1),
    decreases stops.len(),
{
    let last = stops.len() - 1;
    // The last stop's phase is exactly 1 and i < m, so i/m lies below it.
    assert(below_stop(stops, m, i, last)) by (nonlinear_arith)
        requires
            stops[last].phase.num == stops[last].phase.den,
            0 < stops[last].phase.den,
            0 <= i < m,
    ;
    let k = find_seg(stops, m, i, 1);
    lemma_find_seg_some(stops, m, i, 1);
    if k == 1 {
        // Stop 0 has phase 0 and i >= 0, so i/m is not below it.
        assert(!below_stop(stops, m, i, 0)) by (nonlinear_arith)
            requires
                stops[0].phase.num == 0,
                0 < stops[0].phase.den,
                0 <= i,
    ;
    }
}

/// From any start index with a stop above `i/m` ahead, the scan lands in
/// `[k0, len)` on a stop above `i/m`, skipping only stops at or below it.
proof fn lemma_find_seg_some(stops: Seq<PaletteStop>, m: int, i: int, k0: int)
    requires
        1 <= k0 < stops.len(),
        below_stop(stops, m, i, stops.len() - 1),
    ensures
        k0 <= find_seg(stops, m, i, k0) < stops.len(),
        below_stop(stops, m, i, find_seg(stops, m, i, k0)),
        find_seg(stops, m, i, k0) > k0 ==> !below_stop(stops, m, i, find_seg(stops, m, i, k0) - 1),
    decreases stops.len() - k0,
{
    if !below_stop(stops, m, i, k0) {
        lemma_find_seg_some(stops, m, i, k0 + 1);
    }
}

/// The selected interval gives a well-defined fraction: `0 <= nn < dd`.
pub proof fn lemma_seg_fraction(stops: Seq<PaletteStop>, m: int, i: int)
    requires
        stops_wf(stops),
        0 < m,
        0 <= i < m,
    ensures
        ({
            let k = find_seg(stops, m, i, 1);
            let p0 = stops[k - 1].phase;
            let p1 = stops[k].phase;
            0 <= seg_num(p0, p1, m, i) < seg_den(p0, p1, m)
        }),
{
    lemma_find_seg_in_range(stops, m, i);
    let k = find_seg(stops, m, i, 1);
    let p0 = stops[k - 1].phase;
    let p1 = stops[k].phase;
    assert(p0.num * p1.den < p1.num * p0.den);
    assert(seg_num(p0, p1, m, i) >= 0) by (nonlinear_arith)
        requires
            i * p0.den >= p0.num * m,
            p1.den > 0,
    ;
    // dd - nn == p0.den * (m*p1.num - i*p1.den) > 0, since i/m < p1.
    assert(seg_den(p0, p1, m) - seg_num(p0, p1, m, i) > 0) by (nonlinear_arith)
        requires
            i * p1.den < p1.num * m,
            p0.den > 0,
            seg_num(p0, p1, m, i) == (i * p0.den - p0.num * m) * p1.den,
            seg_den(p0, p1, m) == m * (p1.num * p0.den - p0.num * p1.den),
    ;
}

/// Every channel of every generated color lies within `[0, 255]`.
pub proof fn lemma_channel_bounds(stops: Seq<PaletteStop>, m: int, i: int)
    requires
        stops_wf(stops),
        0 < m,
        0 <= i < m,
    ensures
        0 <= color_at(stops, m, i).0 <= 255,
        0 <= color_at(stops, m, i).1 <= 255,
        0 <= color_at(stops, m, i).2 <= 255,
        ({
            let k = find_seg(stops, m, i, 1);
            &&& chan_lo(stops[k - 1].red, stops[k].red) <= color_at(stops, m, i).0 <= chan_hi(
                stops[k - 1].red,
                stops[k].red,
            )
            &&& chan_lo(stops[k - 1].green, stops[k].green) <= color_at(stops, m, i).1 <= chan_hi(
                stops[k - 1].green,
                stops[k].green,
            )
            &&& chan_lo(stops[k - 1].blue, stops[k].blue) <= color_at(stops, m, i).2 <= chan_hi(
                stops[k - 1].blue,
                stops[k].blue,
            )
        }),
{
    lemma_find_seg_in_range(stops, m, i);
    lemma_seg_fraction(stops, m, i);
    let k = find_seg(stops, m, i, 1);
    let p0 = stops[k - 1].phase;
    let p1 = stops[k].phase;
    let nn = seg_num(p0, p1, m, i);
    let dd = seg_den(p0, p1, m);
    lemma_chan_in_range(stops[k - 1].red, stops[k].red, nn, dd);
    lemma_chan_in_range(stops[k - 1].green, stops[k].green, nn, dd);
    lemma_chan_in_range(stops[k - 1].blue, stops[k].blue, nn, dd);
}

/// The smaller of two channel values.
pub open spec fn chan_lo(a: u8, b: u8) -> int {
    if a <= b {
        a as int
    } else {
        b as int
    }
}

/// The larger of two channel values.
pub open spec fn chan_hi(a: u8, b: u8) -> int {
    if a <= b {
        b as int
    } else {
        a as int
    }
}

/// A channel interpolated over a well-defined fraction never leaves the
/// interval spanned by the two stop channels (and so stays within a
/// byte): the numerator lies between `lo*dd` and `hi*dd`.
proof fn lemma_chan_in_range(c0: u8, c1: u8, nn: int, dd: int)
    requires
        0 <= nn < dd,
    ensures
        0 <= chan_at(c0, c1, nn, dd) <= 255,
        chan_lo(c0, c1) <= chan_at(c0, c1, nn, dd) <= chan_hi(c0, c1),
{
    let num = c0 * (dd - nn) + c1 * nn;
    let lo = chan_lo(c0, c1);
    let hi = chan_hi(c0, c1);
    assert(lo * dd <= num && num <= hi * dd) by (nonlinear_arith)
        requires
            0 <= nn < dd,
            lo <= c0 <= hi,
            lo <= c1 <= hi,
            num == c0 * (dd - nn) + c1 * nn,
    ;
    lemma_div_pos_is_pos(num, dd);
    assert(lo * dd == dd * lo) by (nonlinear_arith);
    assert(hi * dd == dd * hi) by (nonlinear_arith);
    lemma_div_is_ordered(lo * dd, num, dd);
    lemma_div_is_ordered(num, hi * dd, dd);
    lemma_div_multiples_vanish(lo, dd);
    lemma_div_multiples_vanish(hi, dd);
}

/// The first table entry reproduces the first stop's color exactly: at
/// `t = 0` the scan selects the first interval and the interpolation
/// fraction is zero.
pub proof fn lemma_first_entry_is_first_stop(stops: Seq<PaletteStop>, m: int)
    requires
        stops_wf(stops),
        0 < m,
    ensures
        color_at(stops, m, 0) == (stops[0].red as int, stops[0].green as int, stops[0].blue as int),
{
    let p0 = stops[0].phase;
    let p1 = stops[1].phase;
    assert(p1.num > 0) by (nonlinear_arith)
        requires
            p0.num * p1.den < p1.num * p0.den,
            p0.num == 0,
            0 < p0.den,
            0 < p1.den,
    ;
    assert(below_stop(stops, m, 0, 1)) by (nonlinear_arith)
        requires
            stops[1].phase.num > 0,
            0 < stops[1].phase.den,
            0 < m,
    ;
    lemma_find_seg_lands(stops, m, 0, 1, 1);
    lemma_seg_fraction(stops, m, 0);
    let nn = seg_num(p0, p1, m, 0);
    let dd = seg_den(p0, p1, m);
    assert(nn == 0) by (nonlinear_arith)
        requires
            nn == (0 * p0.den - p0.num * m) * p1.den,
            p0.num == 0,
    ;
    lemma_chan_exact(stops[0].red, stops[1].red, dd);
    lemma_chan_exact(stops[0].green, stops[1].green, dd);
    lemma_chan_exact(stops[0].blue, stops[1].blue, dd);
}

/// A zero fraction leaves the lower channel untouched.
proof fn lemma_chan_exact(c0: u8, c1: u8, dd: int)
    requires
        0 < dd,
    ensures
        chan_at(c0, c1, 0, dd) == c0 as int,
{
    assert(c0 * (dd - 0) + c1 * 0 == dd * c0) by (nonlinear_arith);
    lemma_div_multiples_vanish(c0 as int, dd);
}

/// The default palette: a cyclic gradient deep blue -> cyan -> white ->
/// orange -> black -> deep blue, with the stop phases as exact fractions.
pub open spec fn default_stops_spec() -> Seq<PaletteStop> {
    seq![
        PaletteStop { phase: Rat { num: 0, den: 1 }, red: 0, green: 7, blue: 100 },
        PaletteStop { phase: Rat { num: 4, den: 25 }, red: 32, green: 107, blue: 203 },
        PaletteStop { phase: Rat { num: 21, den: 50 }, red: 237, green: 255, blue: 255 },
        PaletteStop { phase: Rat { num: 257, den: 400 }, red: 255, green: 170, blue: 0 },
        PaletteStop { phase: Rat { num: 343, den: 400 }, red: 0, green: 2, blue: 0 },
        PaletteStop { phase: Rat { num: 1, den: 1 }, red: 0, green: 7, blue: 100 },
    ]
}

/// The default stop sequence is valid.
pub proof fn lemma_default_stops_wf()
    ensures
        stops_wf(default_stops_spec()),
{
    let s = default_stops_spec();
    assert forall|k: int| 0 <= k < s.len() implies phase_small(#[trigger] s[k].phase) by {
        if k == 0 {
        } else if k == 1 {
        } else if k == 2 {
        } else if k == 3 {
        } else if k == 4 {
        } else {
            assert(k == 5);
        }
    }
    assert forall|k: int| 0 <= k < s.len() - 1 implies (#[trigger] s[k].phase).num * s[k
        + 1].phase.den < s[k + 1].phase.num * s[k].phase.den by {
        if k == 0 {
            assert(s[0].phase.num * s[1].phase.den < s[1].phase.num * s[0].phase.den)
                by (nonlinear_arith)
                requires
                    s[0].phase.num == 0,
                    s[0].phase.den == 1,
                    s[1].phase.num == 4,
                    s[1].phase.den == 25,
            ;
        } else if k == 1 {
            assert(s[1].phase.num * s[2].phase.den < s[2].phase.num * s[1].phase.den)
                by (nonlinear_arith)
                requires
                    s[1].phase.num == 4,
                    s[1].phase.den == 25,
                    s[2].phase.num == 21,
                    s[2].phase.den == 50,
            ;
        } else if k == 2 {
            assert(s[2].phase.num * s[3].phase.den < s[3].phase.num * s[2].phase.den)
                by (nonlinear_arith)
                requires
                    s[2].phase.num == 21,
                    s[2].phase.den == 50,
                    s[3].phase.num == 257,
                    s[3].phase.den == 400,
            ;
        } else if k == 3 {
            assert(s[3].phase.num * s[4].phase.den < s[4].phase.num * s[3].phase.den)
                by (nonlinear_arith)
                requires
                    s[3].phase.num == 257,
                    s[3].phase.den == 400,
                    s[4].phase.num == 343,
                    s[4].phase.den == 400,
            ;
        } else {
            assert(k == 4);
            assert(s[4].phase.num * s[5].phase.den < s[5].phase.num * s[4].phase.den)
                by (nonlinear_arith)
                requires
                    s[4].phase.num == 343,
                    s[4].phase.den == 400,
                    s[5].phase.num == 1,
                    s[5].phase.den == 1,
            ;
        }
    }
}

/// Build the default stop sequence.
pub fn default_stops() -> (v: Vec<PaletteStop>)
    ensures
        v@ == default_stops_spec(),
        stops_wf(v@),
{
    let mut v: Vec<PaletteStop> = Vec::new();
    v.push(PaletteStop { phase: Rat { num: 0, den: 1 }, red: 0, green: 7, blue: 100 });
    v.push(PaletteStop { phase: Rat { num: 4, den: 25 }, red: 32, green: 107, blue: 203 });
    v.push(PaletteStop { phase: Rat { num: 21, den: 50 }, red: 237, green: 255, blue: 255 });
    v.push(PaletteStop { phase: Rat { num: 257, den: 400 }, red: 255, green: 170, blue: 0 });
    v.push(PaletteStop { phase: Rat { num: 343, den: 400 }, red: 0, green: 2, blue: 0 });
    v.push(PaletteStop { phase: Rat { num: 1, den: 1 }, red: 0, green: 7, blue: 100 });
    proof {
        assert(v@ =~= default_stops_spec());
        lemma_default_stops_wf();
    }
    v
}

/// One interpolated channel, truncated toward zero.
fn interp_channel(c0: u8, c1: u8, nn: i128, dd: i128) -> (c: u8)
    requires
        0 <= nn < dd,
        dd <= 0x800000000000000000000000,
    ensures
        c as int == chan_at(c0, c1, nn as int, dd as int),
{
    proof {
        lemma_chan_in_range(c0, c1, nn as int, dd as int);
        assert((c0 as int) * (dd - nn) <= 255 * 0x800000000000000000000000 && (c0 as int) * (dd
            - nn) >= 0 && (c1 as int) * (nn as int) <= 255 * 0x800000000000000000000000 && (c1
            as int) * (nn as int) >= 0) by (nonlinear_arith)
            requires
                0 <= nn < dd,
                dd <= 0x800000000000000000000000,
                0 <= c0 <= 255,
                0 <= c1 <= 255,
        ;
    }
    let num = (c0 as i128) * (dd - nn) + (c1 as i128) * nn;
    (num / dd) as u8
}

/// The color of table index `i` out of `count`.
#[verifier::rlimit(60)]
pub fn color_entry(stops: &Vec<PaletteStop>, count: u32, i: u32) -> (c: (u8, u8, u8))
    requires
        stops_wf(stops@),
        0 < count,
        count as int <= PHASE_BOUND,
        i < count,
    ensures
        c == color_spec(stops@, count as int, i as int),
{
    let ii = i as i128;
    let mm = count as i128;
    let ghost gm = count as int;
    let ghost gi = i as int;
    let mut k: usize = 1;
    while k < stops.len()
        invariant
            stops_wf(stops@),
            0 < mm <= PHASE_BOUND,
            0 <= ii < mm,
            ii == gi,
            mm == gm,
            gi == i as int,
            gm == count as int,
            1 <= k <= stops@.len(),
            forall|j: int| 1 <= j < k ==> !below_stop(stops@, gm, gi, j),
        decreases stops@.len() - k,
    {
        let p1 = stops[k].phase;
        proof {
            lemma_prod_bound(ii as int, p1.den as int, PHASE_BOUND as int);
            lemma_prod_bound(p1.num as int, mm as int, PHASE_BOUND as int);
        }
        if ii * p1.den < p1.num * mm {
            let p0 = stops[k - 1].phase;
            proof {
                lemma_find_seg_lands(stops@, gm, gi, 1, k as int);
                lemma_seg_fraction(stops@, gm, gi);
                lemma_channel_bounds(stops@, gm, gi);
                lemma_prod_bound(ii as int, p0.den as int, PHASE_BOUND as int);
                lemma_prod_bound(p0.num as int, mm as int, PHASE_BOUND as int);
                lemma_prod_bound(p1.num as int, p0.den as int, PHASE_BOUND as int);
                lemma_prod_bound(p0.num as int, p1.den as int, PHASE_BOUND as int);
                assert((ii * p0.den - p0.num * mm) * p1.den == seg_num(p0, p1, gm, gi) && -(
                0x8000000000000000 * PHASE_BOUND) <= (ii * p0.den - p0.num * mm) * p1.den <= (
                0x8000000000000000 * PHASE_BOUND)) by (nonlinear_arith)
                    requires
                        ii == gi,
                        mm == gm,
                        -0x8000000000000000 <= ii * p0.den - p0.num * mm
                            <= 0x8000000000000000,
                        0 < p1.den < PHASE_BOUND,
                ;
                assert(mm * (p1.num * p0.den - p0.num * p1.den) == seg_den(p0, p1, gm) && -(
                PHASE_BOUND * 0x10000000000000000) <= mm * (p1.num * p0.den - p0.num * p1.den)
                    <= (PHASE_BOUND * 0x10000000000000000)) by (nonlinear_arith)
                    requires
                        mm == gm,
                        0 < mm <= PHASE_BOUND,
                        -0x10000000000000000 <= p1.num * p0.den - p0.num * p1.den
                            <= 0x10000000000000000,
                ;
            }
            let nn = (ii * p0.den - p0.num * mm) * p1.den;
            let dd = mm * (p1.num * p0.den - p0.num * p1.den);
            let r = interp_channel(stops[k - 1].red, stops[k].red, nn, dd);
            let g = interp_channel(stops[k - 1].green, stops[k].green, nn, dd);
            let b = interp_channel(stops[k - 1].blue, stops[k].blue, nn, dd);
            return (r, g, b);
        }
        k = k + 1;
    }
    proof {
        lemma_find_seg_fails(stops@, gm, gi, 1);
    }
    (0, 0, 0)
}

/// Build the lookup table: entry `i` carries the color of phase `i/count`.
pub fn generate(stops: &Vec<PaletteStop>, count: u32) -> (lut: Vec<(u8, u8, u8)>)
    requires
        stops_wf(stops@),
        0 < count,
        count as int <= PHASE_BOUND,
    ensures
        lut@.len() == count,
        forall|j: int| 0 <= j < count ==> lut@[j] == color_spec(stops@, count as int, j),
{
    let mut lut: Vec<(u8, u8, u8)> = Vec::new();
    let mut i: u32 = 0;
    while i < count
        invariant
            stops_wf(stops@),
            0 < count,
            count as int <= PHASE_BOUND,
            0 <= i <= count,
            lut@.len() == i,
            forall|j: int| 0 <= j < i ==> lut@[j] == color_spec(stops@, count as int, j),
        decreases count - i,
    {
        let c = color_entry(stops, count, i);
        lut.push(c);
        i = i + 1;
    }
    lut
}

} // verus!
