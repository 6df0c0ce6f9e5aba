//! Render pipeline selection.
//!
//! The precision of the per-pixel escape-time arithmetic is fixed at
//! shader-compile time, so a precision switch selects a distinct compiled
//! program rather than setting a flag: four programs cover the four
//! combinations of precision and fractal family. The selector also
//! assembles the numeric uniforms each program consumes; the platform
//! layer casts them to the program's precision at the GPU boundary.

use vstd::prelude::*;
use crate::rat::Rat;
use crate::viewport::{ViewportState, InputFrame, FractalMode};

verus! {

/// One of the four compiled shader programs.
#[derive(Clone, Copy, Debug, PartialEq, Eq, Structural)]
pub enum ProgramId {
    MandelbrotSingle,
    MandelbrotDouble,
    JuliaSingle,
    JuliaDouble,
}

/// The numeric uniforms of one draw: aspect ratio (height over width),
/// plane center, zoom, iteration cap, palette cycle length, and the
/// frozen Julia constant exactly when a Julia program was selected.
#[derive(Clone, Copy, Debug)]
pub struct UniformSet {
    pub aspect_ratio: Rat,
    pub center_x: Rat,
    pub center_y: Rat,
    pub zoom: Rat,
    pub iterations: u32,
    pub cycle_iters: u32,
    pub julia_constant: Option<(Rat, Rat)>,
}

/// The palette cycle length shared by the lookup table and the uniforms.
pub const CYCLE_ITERS: u32 = 100;

/// Program choice as a pure function of the two flags.
pub open spec fn select_program_spec(double_precision: bool, julia_mode: bool) -> ProgramId {
    match (double_precision, julia_mode) {
        (false, false) => ProgramId::MandelbrotSingle,
        (true, false) => ProgramId::MandelbrotDouble,
        (false, true) => ProgramId::JuliaSingle,
        (true, true) => ProgramId::JuliaDouble,
    }
}

/// The four flag combinations select four pairwise distinct programs.
pub proof fn lemma_select_program_injective(a1: bool, a2: bool, b1: bool, b2: bool)
    ensures
        select_program_spec(a1, a2) == select_program_spec(b1, b2) <==> (a1 == b1 && a2 == b2),
{
}

/// The uniforms owed to the given state over the given surface.
pub open spec fn uniforms_spec(s: ViewportState, f: InputFrame) -> UniformSet
    recommends
        s.wf(),
        f.wf(),
{
    UniformSet {
        aspect_ratio: Rat { num: f.height as i128, den: f.width as i128 },
        center_x: s.center_x,
        center_y: s.center_y,
        zoom: s.zoom,
        iterations: s.iteration_cap,
        cycle_iters: CYCLE_ITERS,
        julia_constant: match s.mode {
            FractalMode::Mandelbrot => None,
            FractalMode::Julia { constant_x, constant_y, .. } => Some((constant_x, constant_y)),
        },
    }
}

/// Pick the program and assemble its uniforms. The choice depends on the
/// two flags alone; the uniforms carry the state through unchanged, and
/// the Julia constant is present exactly in Julia mode.
pub fn select(s: &ViewportState, f: &InputFrame) -> (r: (ProgramId, UniformSet))
    requires
        s.wf(),
        f.wf(),
    ensures
        r.0 == select_program_spec(s.double_precision, s.mode is Julia),
        r.1 == uniforms_spec(*s, *f),
        r.1.aspect_ratio.wf(),
        r.1.julia_constant is Some <==> s.mode is Julia,
{
    let julia = match s.mode {
        FractalMode::Mandelbrot => false,
        FractalMode::Julia { .. } => true,
    };
    let program = if s.double_precision {
        if julia {
            ProgramId::JuliaDouble
        } else {
            ProgramId::MandelbrotDouble
        }
    } else {
        if julia {
            ProgramId::JuliaSingle
        } else {
            ProgramId::MandelbrotSingle
        }
    };
    let uniforms = UniformSet {
        aspect_ratio: Rat { num: f.height as i128, den: f.width as i128 },
        center_x: s.center_x,
        center_y: s.center_y,
        zoom: s.zoom,
        iterations: s.iteration_cap,
        cycle_iters: CYCLE_ITERS,
        julia_constant: match s.mode {
            FractalMode::Mandelbrot => None,
            FractalMode::Julia { constant_x, constant_y, .. } => Some((constant_x, constant_y)),
        },
    };
    (program, uniforms)
}

} // verus!
