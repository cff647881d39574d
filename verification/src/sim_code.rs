//! GLSL source text of the compute kernels.
//!
//! The execution substrate runs one fragment-shader invocation per packed
//! cell, writing the front layer's two fields as the two render targets
//! (`v_p` at location 0, `b` at location 1) while sampling the back layer's
//! fields through the `tex_v_p` and `tex_b` uniforms with exact
//! nearest-neighbor lookups.  The kernel text is fixed; the grid extents
//! (`rads`, `angs`, `levs`), the time increment `dt`, and the configuration
//! parameters (`wave_speed_sq`, `impulse_magnitude`, `impulse_half_width`)
//! reach it as uniforms.
//!
//! The `lookup` helper implements the packed addressing of
//! [`crate::address::pack_spec`] (column `l * angs + a`, row `r`), and the
//! `wrap` helper the periodic wraparound of [`crate::address::wrap_spec`];
//! the update body is the formula modeled in [`crate::kernel`].

use vstd::prelude::*;
use vstd::string::StringExecFns;

verus! {

/// Shared head of both kernels: the uniforms, the render targets, and the
/// packed-addressing helpers.
pub const FRAG_PREAMBLE: &'static str = r#"
    #version 330
    uniform uint rads; /* texture height */
    uniform uint angs; /* texture width per section */
    uniform uint levs; /* texture section count */

    in vec2 uv;

    uniform float dt;
    uniform float wave_speed_sq;
    uniform float impulse_magnitude;
    uniform int impulse_half_width;

    uniform sampler2D tex_v_p;
    uniform sampler2D tex_b;

    layout(location = 0) out vec4 v_p;
    layout(location = 1) out vec4 b;

    vec4 lookup(sampler2D tex, int rind, int lind, int aind) {
        return texelFetch(tex, ivec2(lind * int(angs) + aind, rind), 0);
    }

    int wrap(int ind, uint extent) {
        int e = int(extent);
        return ((ind % e) + e) % e;
    }
"#;

/// Opens `main`: recovers the cell's logical index from the render
/// target position.
pub const MAIN_OPEN: &'static str = r#"
    void main() {
        int rind = int(uv.y * rads);
        int lind = int(uv.x * levs);
        int aind = int(fract(uv.x * levs) * angs);
"#;

/// Closes `main`.
pub const MAIN_CLOSE: &'static str = r#"
    }
"#;

/// Per-cell body of the initialization rule: the impulse magnitude on the
/// cells within the impulse half-width of the grid center along every axis,
/// zero elsewhere; the derivative field at rest everywhere.
pub const INIT: &'static str = r#"
        float val;
        if (abs(rind - int(rads) / 2) <= impulse_half_width
            && abs(lind - int(levs) / 2) <= impulse_half_width
            && abs(aind - int(angs) / 2) <= impulse_half_width) {
            val = impulse_magnitude;
        } else {
            val = 0.0;
        }

        v_p = vec4(val, val, val, 1.0);
        b = vec4(0.0, 0.0, 0.0, 0.0);
"#;

/// Per-cell body of the time-step rule: a five-point second-derivative
/// stencil along each axis (every neighbor offset wrapped), the three axis
/// terms summed and divided by 12, then forward Euler in time —
/// `nx = x + v*dt`, `nv = v + lap*dt*wave_speed_sq` — reading only the back
/// layer and writing only the front layer.
pub const UPDATE: &'static str = r#"
        /* take v_p as value, b as derivative */

        #define VAL(r, l, a) (lookup(tex_v_p, r, l, a).r)

        float axis_r =
            -VAL(wrap(rind - 2, rads), lind, aind) + 16.0 * VAL(wrap(rind - 1, rads), lind, aind)
            - 30.0 * VAL(rind, lind, aind)
            + 16.0 * VAL(wrap(rind + 1, rads), lind, aind) - VAL(wrap(rind + 2, rads), lind, aind);
        float axis_l =
            -VAL(rind, wrap(lind - 2, levs), aind) + 16.0 * VAL(rind, wrap(lind - 1, levs), aind)
            - 30.0 * VAL(rind, lind, aind)
            + 16.0 * VAL(rind, wrap(lind + 1, levs), aind) - VAL(rind, wrap(lind + 2, levs), aind);
        float axis_a =
            -VAL(rind, lind, wrap(aind - 2, angs)) + 16.0 * VAL(rind, lind, wrap(aind - 1, angs))
            - 30.0 * VAL(rind, lind, aind)
            + 16.0 * VAL(rind, lind, wrap(aind + 1, angs)) - VAL(rind, lind, wrap(aind + 2, angs));

        float div2 = (axis_r + axis_l + axis_a) / 12.0;

        #undef VAL

        float x = lookup(tex_v_p, rind, lind, aind).r;
        float v = lookup(tex_b, rind, lind, aind).r;
        float nx = x + v * dt;
        float nv = v + div2 * dt * wave_speed_sq;

        v_p = vec4(nx, nx, nx, 1.0);
        b = vec4(nv, nv, nv, 1.0);
"#;

/// Vertex shader of the full-grid cover: passes the corner positions
/// through and hands the fragment stage its position in `[0, 1]^2`.
pub const VERT_SHADER: &'static str = r#"
    #version 330
    in vec2 pos;
    out vec2 uv;

    void main() {
        gl_Position = vec4(pos, 0.0, 1.0);
        uv = vec2((pos.x + 1.0) / 2.0, (pos.y + 1.0) / 2.0);
    }
"#;

/// Assembles a fragment shader: the fixed preamble, then `main` wrapped
/// around the given per-cell body.
pub fn gen_frag_shader(update_func: &str) -> (r: String)
    ensures
        r@ == FRAG_PREAMBLE@ + MAIN_OPEN@ + update_func@ + MAIN_CLOSE@,
{
    let mut s = String::new();
    s.append(FRAG_PREAMBLE);
    s.append(MAIN_OPEN);
    s.append(update_func);
    s.append(MAIN_CLOSE);
    proof {
        assert(s@ =~= FRAG_PREAMBLE@ + MAIN_OPEN@ + update_func@ + MAIN_CLOSE@);
    }
    s
}

/// The full fragment shader of the initialization rule.
pub fn initial_frag_shader() -> (r: String)
    ensures
        r@ == FRAG_PREAMBLE@ + MAIN_OPEN@ + INIT@ + MAIN_CLOSE@,
{
    gen_frag_shader(INIT)
}

/// The full fragment shader of the time-step rule.
pub fn update_frag_shader() -> (r: String)
    ensures
        r@ == FRAG_PREAMBLE@ + MAIN_OPEN@ + UPDATE@ + MAIN_CLOSE@,
{
    gen_frag_shader(UPDATE)
}

} // verus!
