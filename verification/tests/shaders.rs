use bh_mhd::sim_code::{
    gen_frag_shader, initial_frag_shader, update_frag_shader, FRAG_PREAMBLE, INIT, MAIN_CLOSE,
    MAIN_OPEN, UPDATE, VERT_SHADER,
};

#[test]
fn gen_wraps_body_in_preamble_and_main() {
    let body = "        v_p = vec4(0.0);\n";
    let shader = gen_frag_shader(body);
    let expected = format!("{}{}{}{}", FRAG_PREAMBLE, MAIN_OPEN, body, MAIN_CLOSE);
    assert_eq!(shader, expected);
}

#[test]
fn initial_shader_is_preamble_main_and_init_body() {
    let shader = initial_frag_shader();
    let expected = format!("{}{}{}{}", FRAG_PREAMBLE, MAIN_OPEN, INIT, MAIN_CLOSE);
    assert_eq!(shader, expected);
}

#[test]
fn update_shader_is_preamble_main_and_update_body() {
    let shader = update_frag_shader();
    let expected = format!("{}{}{}{}", FRAG_PREAMBLE, MAIN_OPEN, UPDATE, MAIN_CLOSE);
    assert_eq!(shader, expected);
}

#[test]
fn initial_shader_reads_configuration_uniforms() {
    let shader = initial_frag_shader();
    assert!(shader.contains("uniform float impulse_magnitude;"));
    assert!(shader.contains("uniform int impulse_half_width;"));
    assert!(shader.contains("val = impulse_magnitude;"));
    assert!(shader.contains("b = vec4(0.0, 0.0, 0.0, 0.0);"));
}

#[test]
fn update_shader_has_wrapped_stencil_and_euler_step() {
    let shader = update_frag_shader();
    // Every +-1 and +-2 neighbor offset of each axis goes through wrap.
    for (axis, extent) in [("rind", "rads"), ("lind", "levs"), ("aind", "angs")] {
        for offset in ["- 2", "- 1", "+ 1", "+ 2"] {
            let call = format!("wrap({} {}, {})", axis, offset, extent);
            assert!(shader.contains(&call), "missing stencil lookup: {}", call);
        }
    }
    // One -30 central coefficient per axis, and one division of the sum by 12.
    assert_eq!(shader.matches("- 30.0 * VAL(rind, lind, aind)").count(), 3);
    assert!(shader.contains("(axis_r + axis_l + axis_a) / 12.0"));
    // Forward Euler in time, with the wave speed as a uniform.
    assert!(shader.contains("float nx = x + v * dt;"));
    assert!(shader.contains("float nv = v + div2 * dt * wave_speed_sq;"));
}

#[test]
fn lookup_packs_column_as_section_times_angs() {
    assert!(FRAG_PREAMBLE.contains("ivec2(lind * int(angs) + aind, rind)"));
}

#[test]
fn vertex_shader_covers_unit_square() {
    assert!(VERT_SHADER.contains("gl_Position = vec4(pos, 0.0, 1.0);"));
    assert!(VERT_SHADER.contains("uv = vec2((pos.x + 1.0) / 2.0, (pos.y + 1.0) / 2.0);"));
}
