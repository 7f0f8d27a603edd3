use nalgebra_glm as glm;
use webgl_canvas::view::{
    axis_is_nonzero, default_view_matrix, default_view_state, ViewMatrix, NEG_ONE_F32_BITS,
    ONE_F32_BITS,
};

/// The same composition the host performs for the drawer: the fixed camera's
/// look-at matrix times the axis-angle rotation, flattened column-major.
fn composed_view_matrix(axis: [f32; 3], radians: f32) -> [f32; 16] {
    let camera_pos = glm::make_vec3(&[0.0, 0.0, 1.0]);
    let camera_target = glm::make_vec3(&[0.0, 0.0, 0.0]);
    let camera_up = glm::make_vec3(&[0.0, 1.0, 0.0]);
    let view = glm::look_at(&camera_pos, &camera_target, &camera_up);
    let rotation = glm::rotate(&glm::Mat4::identity(), radians, &glm::make_vec3(&axis));
    let composed: [[f32; 4]; 4] = (view * rotation).into();
    let mut flat = [0.0f32; 16];
    for (c, column) in composed.iter().enumerate() {
        for (r, entry) in column.iter().enumerate() {
            flat[4 * c + r] = *entry;
        }
    }
    flat
}

fn to_bits(m: [f32; 16]) -> [u32; 16] {
    let mut bits = [0u32; 16];
    for (i, f) in m.iter().enumerate() {
        bits[i] = f.to_bits();
    }
    bits
}

#[test]
fn float_bit_constants_match() {
    assert_eq!(ONE_F32_BITS, 1.0f32.to_bits());
    assert_eq!(NEG_ONE_F32_BITS, (-1.0f32).to_bits());
}

#[test]
fn default_view_state_is_zero_rotation_about_z() {
    let v = default_view_state();
    assert_eq!(v.axis, [0.0f32.to_bits(), 0.0f32.to_bits(), 1.0f32.to_bits()]);
    assert_eq!(v.radians, 0.0f32.to_bits());
}

#[test]
fn default_view_matrix_matches_look_at_composition() {
    let expected = to_bits(composed_view_matrix([0.0, 0.0, 1.0], 0.0));
    assert_eq!(default_view_matrix().cols, expected);
}

#[test]
fn zero_angle_rotation_equals_full_turn() {
    for axis in [[0.0, 0.0, 1.0], [0.0, 1.0, 0.0], [0.6, 0.0, 0.8]] {
        let zero = composed_view_matrix(axis, 0.0);
        let full_turn = composed_view_matrix(axis, 2.0 * std::f32::consts::PI);
        for i in 0..16 {
            assert!(
                (zero[i] - full_turn[i]).abs() < 1e-5,
                "entry {} differs for axis {:?}: {} vs {}",
                i,
                axis,
                zero[i],
                full_turn[i]
            );
        }
    }
}

#[test]
fn axis_is_nonzero_reads_the_bits() {
    assert!(!axis_is_nonzero(&[0, 0, 0]));
    // A negative float zero is still the zero vector.
    assert!(!axis_is_nonzero(&[(-0.0f32).to_bits(), 0, (-0.0f32).to_bits()]));
    assert!(axis_is_nonzero(&[0, 0, 1.0f32.to_bits()]));
    assert!(axis_is_nonzero(&[f32::MIN_POSITIVE.to_bits(), 0, 0]));
}

#[test]
fn view_matrix_carries_exact_bits() {
    let bits = to_bits(composed_view_matrix([0.0, 1.0, 0.0], 0.75));
    let m = ViewMatrix { cols: bits };
    assert_eq!(m.cols, bits);
    let again = ViewMatrix { cols: to_bits(composed_view_matrix([0.0, 1.0, 0.0], 0.75)) };
    assert_eq!(m, again);
}
