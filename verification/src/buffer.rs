//! Double-buffered field storage.
//!
//! A [`Layer`] is one time-slice of the simulation: a value field and a
//! time-derivative field, each a 2D texture on the execution substrate.
//! [`Data`] owns exactly two slots and an iteration counter; the counter's
//! parity decides which slot is the write target ("front") and which is the
//! read source ("back") for the current step, and advancing the counter is
//! the only way the roles flip.

use vstd::prelude::*;

use crate::grid::SimDimensions;

verus! {

/// Declares glium's 2D texture type so that a layer can carry its two field
/// buffers through the verified code.  The texture is opaque here: it is
/// created, filled and sampled only by the execution substrate.
#[verifier::external_type_specification]
#[verifier::external_body]
pub struct ExTexture2d(glium::texture::Texture2d);

/// One time-slice of the field over the whole grid: the scalar value field
/// (`v_p`) and its time-derivative field (`b`), as equally sized 2D buffers
/// of one sample per packed cell.
#[derive(Debug)]
pub struct Layer {
    /// The value field.
    pub v_p: glium::texture::Texture2d,
    /// The time-derivative field.
    pub b: glium::texture::Texture2d,
}

impl Layer {
    /// Assembles a layer from its two freshly allocated field buffers.
    pub fn new(v_p: glium::texture::Texture2d, b: glium::texture::Texture2d) -> (layer: Layer)
        ensures
            layer.v_p == v_p,
            layer.b == b,
    {
        Layer { v_p, b }
    }
}

/// The double buffer: two slots of type `L` (a [`Layer`] in the running
/// simulation), the grid dimensions, and the iteration counter.
///
/// The slot in `layers.0` is the front (write target) exactly when `iter` is
/// even; the other slot is always the back (read source).  So at any instant
/// the two roles are held by distinct slots, and the substrate is never
/// handed the same buffer as both input and output of one dispatch.
pub struct Data<L> {
    /// The two field-pair slots.
    pub layers: (L, L),
    /// Extents of the grid both slots cover.
    pub dimensions: SimDimensions,
    /// Completed-step counter; its parity assigns the slots' roles.
    pub iter: u64,
}

impl<L> Data<L> {
    /// The structural invariant: the grid description is well-formed.
    pub open spec fn wf(self) -> bool {
        self.dimensions.wf()
    }

    /// The first slot is the front buffer exactly on even iterations.
    pub open spec fn front_is_first(self) -> bool {
        self.iter % 2 == 0
    }

    /// The slot written by the current step.
    pub open spec fn spec_front(self) -> L {
        if self.front_is_first() {
            self.layers.0
        } else {
            self.layers.1
        }
    }

    /// The slot read by the current step.
    pub open spec fn spec_back(self) -> L {
        if self.front_is_first() {
            self.layers.1
        } else {
            self.layers.0
        }
    }

    /// Which slot (0 or 1) is the current write target.
    pub open spec fn front_index(self) -> int {
        if self.front_is_first() {
            0
        } else {
            1
        }
    }

    /// Which slot (0 or 1) is the current read source.
    pub open spec fn back_index(self) -> int {
        if self.front_is_first() {
            1
        } else {
            0
        }
    }

    /// Owns the two given slots, starting at iteration 0 (so the first slot
    /// is the initial front buffer).
    pub fn new(dimensions: SimDimensions, first: L, second: L) -> (data: Data<L>)
        requires
            dimensions.wf(),
        ensures
            data.layers.0 == first,
            data.layers.1 == second,
            data.dimensions == dimensions,
            data.iter == 0,
            data.wf(),
    {
        Data { layers: (first, second), dimensions, iter: 0 }
    }

    /// The current write target.  The caller must write only here.
    pub fn front_layer(&self) -> (layer: &L)
        ensures
            *layer == self.spec_front(),
    {
        if self.iter % 2 == 0 {
            &self.layers.0
        } else {
            &self.layers.1
        }
    }

    /// The current read source.  The caller must read only from here.
    pub fn back_layer(&self) -> (layer: &L)
        ensures
            *layer == self.spec_back(),
    {
        if self.iter % 2 == 1 {
            &self.layers.0
        } else {
            &self.layers.1
        }
    }

    /// Completes a step: increments the iteration counter by exactly one,
    /// which swaps the two slots' roles — the slot that was the front becomes
    /// the back and vice versa — and changes nothing else.
    pub fn next_iter(&mut self)
        requires
            old(self).iter < u64::MAX,
        ensures
            final(self).iter == old(self).iter + 1,
            final(self).layers == old(self).layers,
            final(self).dimensions == old(self).dimensions,
            final(self).spec_front() == old(self).spec_back(),
            final(self).spec_back() == old(self).spec_front(),
    {
        self.iter = self.iter + 1;
    }
}

/// Hazard freedom: at every iteration the write target and the read source
/// are distinct slots, so a dispatch is never handed the same buffer as both
/// an input and an output.
pub proof fn lemma_distinct_roles<L>(data: Data<L>)
    ensures
        data.front_index() != data.back_index(),
        data.spec_front() == (if data.front_index() == 0 {
            data.layers.0
        } else {
            data.layers.1
        }),
        data.spec_back() == (if data.back_index() == 0 {
            data.layers.0
        } else {
            data.layers.1
        }),
{
}

} // verus!
