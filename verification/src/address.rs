//! Addressing: the bijective packing of logical 3D cell indices into 2D
//! storage coordinates, and the periodic wraparound used for every neighbor
//! lookup.  The grid is a torus, so each axis wraps independently and no
//! lookup ever falls off an edge.

use vstd::prelude::*;
use vstd::arithmetic::div_mod::{
    lemma_fundamental_div_mod, lemma_fundamental_div_mod_converse_div,
    lemma_fundamental_div_mod_converse_mod, lemma_mod_add_multiples_vanish,
    lemma_mod_division_less_than_divisor, lemma_mod_twice,
};

use crate::grid::SimDimensions;

verus! {

/// Periodic wraparound: `((k mod extent) + extent) mod extent`, where `mod`
/// is the Euclidean remainder.
pub open spec fn wrap_spec(k: int, extent: int) -> int
    recommends
        extent > 0,
{
    ((k % extent) + extent) % extent
}

/// Packed 2D storage coordinate of the logical cell `(r, l, a)`:
/// column `l * angs + a`, row `r`.
pub open spec fn pack_spec(dims: SimDimensions, r: int, l: int, a: int) -> (int, int) {
    (l * dims.angs + a, r)
}

/// Logical cell index stored at the 2D coordinate `(x, y)`.
pub open spec fn unpack_spec(dims: SimDimensions, x: int, y: int) -> (int, int, int) {
    (y, x / dims.angs as int, x % dims.angs as int)
}

/// The wraparound result is the Euclidean remainder itself.
pub proof fn lemma_wrap_is_mod(k: int, extent: int)
    requires
        extent > 0,
    ensures
        wrap_spec(k, extent) == k % extent,
{
    lemma_mod_add_multiples_vanish(k % extent, extent);
    lemma_mod_twice(k, extent);
}

/// Wrap range and periodicity: for every integer `k` and positive `extent`,
/// `wrap_spec(k, extent)` lies in `[0, extent)`, and shifting `k` by one full
/// period does not change it.
pub proof fn lemma_wrap_range(k: int, extent: int)
    requires
        extent > 0,
    ensures
        0 <= wrap_spec(k, extent) < extent,
        wrap_spec(k + extent, extent) == wrap_spec(k, extent),
{
    lemma_wrap_is_mod(k, extent);
    lemma_wrap_is_mod(k + extent, extent);
    lemma_mod_division_less_than_divisor(k, extent);
    lemma_mod_add_multiples_vanish(k, extent);
}

/// Wraps any logical index, positive or negative, into `[0, extent)`.
///
/// Every neighbor lookup of the update stencil goes through this function,
/// so an offset two cells past either end of an axis (or any number of whole
/// periods away) lands back on the torus.
pub fn wrap(index: i64, extent: u32) -> (w: u32)
    requires
        extent > 0,
    ensures
        w == wrap_spec(index as int, extent as int),
        w < extent,
{
    proof {
        lemma_wrap_is_mod(index as int, extent as int);
        lemma_mod_division_less_than_divisor(index as int, extent as int);
    }
    let e: u64 = extent as u64;
    if index >= 0 {
        (index as u64 % e) as u32
    } else {
        // Magnitude of `index`, computed without overflowing `i64`.
        let neg: i64 = -(index + 1);
        let mag: u64 = (neg as u64) + 1;
        let m: u64 = mag % e;
        proof {
            let ki = index as int;
            let ei = e as int;
            let magi = mag as int;
            let q = magi / ei;
            let rem = magi % ei;
            lemma_fundamental_div_mod(magi, ei);
            lemma_mod_division_less_than_divisor(magi, ei);
            if m == 0 {
                assert((-q) * ei + 0 == -(ei * q + rem)) by (nonlinear_arith)
                    requires
                        rem == 0,
                ;
                lemma_fundamental_div_mod_converse_mod(ki, ei, -q, 0);
            } else {
                assert((-q - 1) * ei + (ei - rem) == -(ei * q + rem)) by (nonlinear_arith);
                lemma_fundamental_div_mod_converse_mod(ki, ei, -q - 1, ei - rem);
            }
        }
        if m == 0 {
            0
        } else {
            (e - m) as u32
        }
    }
}

/// Packs the logical cell `(r, l, a)` into its 2D storage coordinate.
pub fn pack(dims: &SimDimensions, r: u32, l: u32, a: u32) -> (xy: (u32, u32))
    requires
        dims.wf(),
        dims.valid_index(r as int, l as int, a as int),
    ensures
        (xy.0 as int, xy.1 as int) == pack_spec(*dims, r as int, l as int, a as int),
        xy.0 < dims.spec_width(),
        xy.1 < dims.rads,
{
    proof {
        assert(l * dims.angs + a < dims.levs * dims.angs) by (nonlinear_arith)
            requires
                l < dims.levs,
                a < dims.angs,
                dims.angs > 0,
        ;
    }
    (l * dims.angs + a, r)
}

/// Recovers the logical cell stored at the 2D coordinate `(x, y)`.
pub fn unpack(dims: &SimDimensions, x: u32, y: u32) -> (rla: (u32, u32, u32))
    requires
        dims.wf(),
        x < dims.spec_width(),
        y < dims.rads,
    ensures
        (rla.0 as int, rla.1 as int, rla.2 as int) == unpack_spec(*dims, x as int, y as int),
        dims.valid_index(rla.0 as int, rla.1 as int, rla.2 as int),
    {
    proof {
        lemma_mod_division_less_than_divisor(x as int, dims.angs as int);
        assert((x as int) / (dims.angs as int) < (dims.levs as int)) by (nonlinear_arith)
            requires
                dims.angs > 0,
                dims.levs > 0,
                x < dims.levs * dims.angs,
        ;
    }
    (y, x / dims.angs, x % dims.angs)
}

/// Address bijection, forward direction: unpacking a packed logical index
/// gives the index back, for every valid `(r, l, a)`.
pub proof fn lemma_pack_unpack(dims: SimDimensions, r: int, l: int, a: int)
    requires
        dims.wf(),
        dims.valid_index(r, l, a),
    ensures
        unpack_spec(dims, pack_spec(dims, r, l, a).0, pack_spec(dims, r, l, a).1) == (r, l, a),
{
    lemma_fundamental_div_mod_converse_div(l * dims.angs + a, dims.angs as int, l, a);
    lemma_fundamental_div_mod_converse_mod(l * dims.angs + a, dims.angs as int, l, a);
}

/// Address bijection, reverse direction: packing the logical index stored at
/// a coordinate of the declared buffer gives the coordinate back.
pub proof fn lemma_unpack_pack(dims: SimDimensions, x: int, y: int)
    requires
        dims.wf(),
        0 <= x < dims.spec_width(),
        0 <= y < dims.rads,
    ensures
        pack_spec(
            dims,
            unpack_spec(dims, x, y).0,
            unpack_spec(dims, x, y).1,
            unpack_spec(dims, x, y).2,
        ) == (x, y),
{
    let d = dims.angs as int;
    lemma_fundamental_div_mod(x, d);
    assert((x / d) * d == d * (x / d)) by (nonlinear_arith);
}

} // verus!
