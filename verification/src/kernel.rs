//! The per-cell update rules, stated in exact arithmetic.
//!
//! The executing kernels (see [`crate::sim_code`]) work on floating-point
//! samples; the spec functions here state the same formulas over the
//! unbounded integers, where their algebraic identities — a zero field is a
//! fixed point of the step, and a uniform field has a vanishing Laplacian —
//! hold exactly and are proved below.
//!
//! The update rule integrates the linear wave equation `x'' = c^2 * lap(x)`
//! explicitly: per cell, `new_value = x + v*dt` and
//! `new_derivative = v + lap*dt*c^2`, where `lap` sums a five-point
//! second-derivative stencil over each of the three axes and divides the sum
//! by 12.  The initialization rule puts the field at rest, with a fixed
//! impulse on the cells within a small box around the grid center.

use vstd::prelude::*;
use vstd::math::abs;

use crate::address::wrap_spec;
use crate::grid::{SimConfig, SimDimensions};

verus! {

/// The samples of the back buffer's value field that one cell's update
/// reads: the cell itself and, along each axis, the wrapped neighbors at
/// offsets -2, -1, +1 and +2.
pub struct Stencil {
    /// The cell's own value.
    pub center: int,
    /// Radial neighbors, offsets -2, -1, +1, +2.
    pub r_m2: int,
    pub r_m1: int,
    pub r_p1: int,
    pub r_p2: int,
    /// Section ("level") neighbors.
    pub l_m2: int,
    pub l_m1: int,
    pub l_p1: int,
    pub l_p2: int,
    /// Angular neighbors.
    pub a_m2: int,
    pub a_m1: int,
    pub a_p1: int,
    pub a_p2: int,
}

impl Stencil {
    /// Every sample equal to `k`: what a cell of a uniform field reads.
    pub open spec fn uniform(k: int) -> Stencil {
        Stencil {
            center: k,
            r_m2: k,
            r_m1: k,
            r_p1: k,
            r_p2: k,
            l_m2: k,
            l_m1: k,
            l_p1: k,
            l_p2: k,
            a_m2: k,
            a_m1: k,
            a_p1: k,
            a_p2: k,
        }
    }
}

/// The fourth-order five-point second-derivative stencil along one axis:
/// `-V[-2] + 16*V[-1] - 30*V[0] + 16*V[+1] - V[+2]`.
pub open spec fn axis_term(vm2: int, vm1: int, v0: int, vp1: int, vp2: int) -> int {
    -vm2 + 16 * vm1 - 30 * v0 + 16 * vp1 - vp2
}

/// Twelve times the discrete Laplacian: the three axis terms summed.  The
/// central coefficient -30 appears once per axis, and the single division
/// by 12 is applied to the sum of all three terms.
pub open spec fn laplacian_times_12(s: Stencil) -> int {
    axis_term(s.r_m2, s.r_m1, s.center, s.r_p1, s.r_p2)
        + axis_term(s.l_m2, s.l_m1, s.center, s.l_p1, s.l_p2)
        + axis_term(s.a_m2, s.a_m1, s.center, s.a_p1, s.a_p2)
}

/// The discrete Laplacian of the value field at one cell.
pub open spec fn laplacian(s: Stencil) -> int {
    laplacian_times_12(s) / 12
}

/// The value a step writes: forward Euler, `x + v*dt`.
pub open spec fn stepped_value(x: int, v: int, dt: int) -> int {
    x + v * dt
}

/// The derivative a step writes: `v + lap*dt*c2`, with `c2` the squared
/// wave speed.
pub open spec fn stepped_derivative(v: int, s: Stencil, dt: int, c2: int) -> int {
    v + laplacian(s) * dt * c2
}

/// The stencil the update rule reads at cell `(r, l, a)` of the value field
/// `f`: the cell itself and, along each axis, the neighbors at offsets -2,
/// -1, +1 and +2, every offset wrapped onto the torus.
pub open spec fn stencil_at(
    f: spec_fn(int, int, int) -> int,
    dims: SimDimensions,
    r: int,
    l: int,
    a: int,
) -> Stencil {
    Stencil {
        center: f(r, l, a),
        r_m2: f(wrap_spec(r - 2, dims.rads as int), l, a),
        r_m1: f(wrap_spec(r - 1, dims.rads as int), l, a),
        r_p1: f(wrap_spec(r + 1, dims.rads as int), l, a),
        r_p2: f(wrap_spec(r + 2, dims.rads as int), l, a),
        l_m2: f(r, wrap_spec(l - 2, dims.levs as int), a),
        l_m1: f(r, wrap_spec(l - 1, dims.levs as int), a),
        l_p1: f(r, wrap_spec(l + 1, dims.levs as int), a),
        l_p2: f(r, wrap_spec(l + 2, dims.levs as int), a),
        a_m2: f(r, l, wrap_spec(a - 2, dims.angs as int)),
        a_m1: f(r, l, wrap_spec(a - 1, dims.angs as int)),
        a_p1: f(r, l, wrap_spec(a + 1, dims.angs as int)),
        a_p2: f(r, l, wrap_spec(a + 2, dims.angs as int)),
    }
}

/// The value field after one whole-grid step, at cell `(r, l, a)`: the
/// update reads the cell's own value and derivative from the back fields
/// `xf` and `vf` only.
pub open spec fn stepped_value_at(
    xf: spec_fn(int, int, int) -> int,
    vf: spec_fn(int, int, int) -> int,
    dt: int,
    r: int,
    l: int,
    a: int,
) -> int {
    stepped_value(xf(r, l, a), vf(r, l, a), dt)
}

/// The derivative field after one whole-grid step, at cell `(r, l, a)`: the
/// update reads the cell's derivative and its value stencil from the back
/// fields only.
pub open spec fn stepped_derivative_at(
    xf: spec_fn(int, int, int) -> int,
    vf: spec_fn(int, int, int) -> int,
    dims: SimDimensions,
    dt: int,
    c2: int,
    r: int,
    l: int,
    a: int,
) -> int {
    stepped_derivative(vf(r, l, a), stencil_at(xf, dims, r, l, a), dt, c2)
}

/// The cell `(r, l, a)` lies within `half_width` cells of the grid center
/// along every axis (the center taken at half of each extent, rounded down).
pub open spec fn in_impulse_region_spec(
    dims: SimDimensions,
    half_width: int,
    r: int,
    l: int,
    a: int,
) -> bool {
    &&& abs(r - dims.rads as int / 2) <= half_width
    &&& abs(l - dims.levs as int / 2) <= half_width
    &&& abs(a - dims.angs as int / 2) <= half_width
}

/// The value the initialization rule writes at `(r, l, a)`: the impulse
/// magnitude inside the impulse region, zero elsewhere.
pub open spec fn initial_value(dims: SimDimensions, cfg: SimConfig, r: int, l: int, a: int) -> int {
    if in_impulse_region_spec(dims, cfg.impulse_half_width as int, r, l, a) {
        cfg.impulse_magnitude as int
    } else {
        0
    }
}

/// The derivative the initialization rule writes: zero at every cell.
pub open spec fn initial_derivative(dims: SimDimensions, cfg: SimConfig, r: int, l: int, a: int) -> int {
    0
}

/// Decides membership in the initial impulse region, as the initialization
/// kernel does per cell.
pub fn in_impulse_region(dims: &SimDimensions, half_width: u32, r: u32, l: u32, a: u32) -> (inside: bool)
    ensures
        inside == in_impulse_region_spec(*dims, half_width as int, r as int, l as int, a as int),
{
    let rc: u32 = dims.rads / 2;
    let lc: u32 = dims.levs / 2;
    let ac: u32 = dims.angs / 2;
    let dr: u32 = if r >= rc { r - rc } else { rc - r };
    let dl: u32 = if l >= lc { l - lc } else { lc - l };
    let da: u32 = if a >= ac { a - ac } else { ac - a };
    dr <= half_width && dl <= half_width && da <= half_width
}

/// Zero fixed point: a cell of an all-zero back buffer (value and
/// derivative both zero everywhere) is written back as zero by a step with
/// any time increment and any wave speed.
pub proof fn lemma_zero_fixed_point(dt: int, c2: int)
    ensures
        stepped_value(0, 0, dt) == 0,
        stepped_derivative(0, Stencil::uniform(0), dt, c2) == 0,
{
    assert(laplacian_times_12(Stencil::uniform(0)) == 0);
    assert(laplacian(Stencil::uniform(0)) == 0);
    assert(0 * dt * c2 == 0) by (nonlinear_arith);
}

/// Uniform-field stability: where the back buffer's value field is the
/// constant `k` and its derivative field is zero, the axis terms cancel
/// exactly, so a step leaves the value at `k` and the derivative at zero,
/// for any time increment and any wave speed.
pub proof fn lemma_uniform_field_stability(k: int, dt: int, c2: int)
    ensures
        laplacian_times_12(Stencil::uniform(k)) == 0,
        laplacian(Stencil::uniform(k)) == 0,
        stepped_value(k, 0, dt) == k,
        stepped_derivative(0, Stencil::uniform(k), dt, c2) == 0,
{
    assert(laplacian_times_12(Stencil::uniform(k)) == 0);
    assert(laplacian(Stencil::uniform(k)) == 0);
    assert(0 * dt == 0) by (nonlinear_arith);
    assert(0 * dt * c2 == 0) by (nonlinear_arith);
}

/// A cell of a constant field reads a uniform stencil, wherever its wrapped
/// neighbors land.
pub proof fn lemma_constant_field_reads_uniform(
    f: spec_fn(int, int, int) -> int,
    dims: SimDimensions,
    k: int,
    r: int,
    l: int,
    a: int,
)
    requires
        forall|i: int, j: int, m: int| #[trigger] f(i, j, m) == k,
    ensures
        stencil_at(f, dims, r, l, a) == Stencil::uniform(k),
{
}

/// Zero fixed point, over the whole grid: if the back buffer's value and
/// derivative fields are zero at every cell, one step with any time
/// increment and any wave speed writes zero into both front fields at every
/// cell.
pub proof fn lemma_zero_grid_fixed_point(
    xf: spec_fn(int, int, int) -> int,
    vf: spec_fn(int, int, int) -> int,
    dims: SimDimensions,
    dt: int,
    c2: int,
    r: int,
    l: int,
    a: int,
)
    requires
        forall|i: int, j: int, m: int| #[trigger] xf(i, j, m) == 0,
        forall|i: int, j: int, m: int| #[trigger] vf(i, j, m) == 0,
    ensures
        stepped_value_at(xf, vf, dt, r, l, a) == 0,
        stepped_derivative_at(xf, vf, dims, dt, c2, r, l, a) == 0,
{
    lemma_constant_field_reads_uniform(xf, dims, 0, r, l, a);
    lemma_zero_fixed_point(dt, c2);
}

/// Uniform-field stability, over the whole grid: if the back buffer's value
/// field is the constant `k` at every cell and its derivative field is zero
/// everywhere, one step leaves the value at `k` and the derivative at zero
/// at every cell, for any time increment and any wave speed.
pub proof fn lemma_uniform_grid_stability(
    xf: spec_fn(int, int, int) -> int,
    vf: spec_fn(int, int, int) -> int,
    dims: SimDimensions,
    k: int,
    dt: int,
    c2: int,
    r: int,
    l: int,
    a: int,
)
    requires
        forall|i: int, j: int, m: int| #[trigger] xf(i, j, m) == k,
        forall|i: int, j: int, m: int| #[trigger] vf(i, j, m) == 0,
    ensures
        stepped_value_at(xf, vf, dt, r, l, a) == k,
        stepped_derivative_at(xf, vf, dims, dt, c2, r, l, a) == 0,
{
    lemma_constant_field_reads_uniform(xf, dims, k, r, l, a);
    lemma_uniform_field_stability(k, dt, c2);
}

/// Stencil-radius locality: a cell whose derivative is zero and whose value
/// stencil — itself and the wrapped neighbors within two cells along each
/// axis — reads all zeros is written back as zero by one step.  A
/// perturbation therefore moves at most two cells per axis per step.
pub proof fn lemma_resting_cell_stays_at_rest(
    xf: spec_fn(int, int, int) -> int,
    vf: spec_fn(int, int, int) -> int,
    dims: SimDimensions,
    dt: int,
    c2: int,
    r: int,
    l: int,
    a: int,
)
    requires
        vf(r, l, a) == 0,
        stencil_at(xf, dims, r, l, a) == Stencil::uniform(0),
    ensures
        stepped_value_at(xf, vf, dt, r, l, a) == 0,
        stepped_derivative_at(xf, vf, dims, dt, c2, r, l, a) == 0,
{
    assert(xf(r, l, a) == stencil_at(xf, dims, r, l, a).center);
    lemma_zero_fixed_point(dt, c2);
    assert(0 * dt == 0) by (nonlinear_arith);
}

/// Initialization locality: the initialization rule writes a nonzero value
/// exactly on the cells of the impulse region — where it writes the impulse
/// magnitude — and writes a zero derivative at every cell.
pub proof fn lemma_initialization_locality(
    dims: SimDimensions,
    cfg: SimConfig,
    r: int,
    l: int,
    a: int,
)
    requires
        cfg.impulse_magnitude > 0,
    ensures
        initial_value(dims, cfg, r, l, a) != 0 <==> in_impulse_region_spec(
            dims,
            cfg.impulse_half_width as int,
            r,
            l,
            a,
        ),
        in_impulse_region_spec(dims, cfg.impulse_half_width as int, r, l, a) ==> initial_value(
            dims,
            cfg,
            r,
            l,
            a,
        ) == cfg.impulse_magnitude,
        initial_derivative(dims, cfg, r, l, a) == 0,
{
}

} // verus!
