//! Grid dimensions and simulation configuration.
//!
//! The simulation evolves a scalar field over a three-dimensional toroidal
//! grid with a radial, a section ("level"), and an angular axis.  The grid is
//! stored as a two-dimensional buffer: one row per radial index, and
//! `levs * angs` columns, each section occupying a contiguous run of `angs`
//! columns.

use vstd::prelude::*;

verus! {

/// Extents of the simulation grid along its three logical axes.
///
/// All three extents are positive, and the packed storage width
/// `levs * angs` fits in a `u32`.
pub struct SimDimensions {
    /// Angular cells per section.
    pub angs: u32,
    /// Radial cells (rows of the packed storage).
    pub rads: u32,
    /// Section ("level") count.
    pub levs: u32,
}

impl SimDimensions {
    /// All axes positive, and the packed storage width representable.
    pub open spec fn wf(self) -> bool {
        &&& self.angs > 0
        &&& self.rads > 0
        &&& self.levs > 0
        &&& self.levs * self.angs <= u32::MAX
    }

    /// Width of the packed 2D storage: one run of `angs` columns per section.
    pub open spec fn spec_width(self) -> int {
        self.levs * self.angs
    }

    /// A logical cell index `(r, l, a)` lies within the grid.
    pub open spec fn valid_index(self, r: int, l: int, a: int) -> bool {
        &&& 0 <= r < self.rads
        &&& 0 <= l < self.levs
        &&& 0 <= a < self.angs
    }

    /// A malformed grid (an axis of zero cells, or a storage width beyond
    /// `u32`) is a programmer error: callers must never construct one.
    pub fn new(angs: u32, rads: u32, levs: u32) -> (dims: SimDimensions)
        requires
            angs > 0,
            rads > 0,
            levs > 0,
            levs * angs <= u32::MAX,
        ensures
            dims == (SimDimensions { angs, rads, levs }),
            dims.wf(),
    {
        SimDimensions { angs, rads, levs }
    }

    /// Width of the packed 2D storage buffers.
    pub fn width(&self) -> (w: u32)
        requires
            self.wf(),
        ensures
            w == self.spec_width(),
    {
        self.levs * self.angs
    }

    /// Height of the packed 2D storage buffers.
    pub fn height(&self) -> (h: u32)
        ensures
            h == self.rads,
    {
        self.rads
    }
}

/// Named parameters of the update and initialization rules.
///
/// These reach the compute kernels as uniforms, so a simulation may override
/// them without recompiling the kernel text.
pub struct SimConfig {
    /// Squared propagation speed of the wave equation.
    pub wave_speed_squared: u32,
    /// Field value written inside the initial impulse region.
    pub impulse_magnitude: u32,
    /// Half-width, in cells along each axis, of the initial impulse region.
    pub impulse_half_width: u32,
}

impl Default for SimConfig {
    /// The stock parameters: speed squared 343, impulse magnitude 10,
    /// impulse half-width 2 cells.
    fn default() -> (c: SimConfig)
        ensures
            c.wave_speed_squared == 343,
            c.impulse_magnitude == 10,
            c.impulse_half_width == 2,
    {
        SimConfig { wave_speed_squared: 343, impulse_magnitude: 10, impulse_half_width: 2 }
    }
}

} // verus!
