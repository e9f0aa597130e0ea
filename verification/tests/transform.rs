use glium_book::transform::{
    model_term, projection_term, view_term, Axis, Coordinate, ModelTerm, ProjectionTerm, ViewTerm,
    FAR_PLANE_TENTHS, NEAR_PLANE_TENTHS,
};
use glium_book::viewport::ViewportSize;
use std::f32::consts::PI;

type Matrix = [[f32; 4]; 4];

// The helpers below fill the tables as a host does, with terms computed here.

fn projection((width, height): (u32, u32), fov: f32) -> Matrix {
    let (numerator, denominator) = ViewportSize::new(width, height).aspect_terms();
    let aspect_ratio = numerator as f32 / denominator as f32;
    let z_far = FAR_PLANE_TENTHS as f32 / 10.0;
    let z_near = NEAR_PLANE_TENTHS as f32 / 10.0;
    let f = 1.0 / (fov * 0.5).tan();
    let mut matrix = [[0.0; 4]; 4];
    for row in 0..4 {
        for col in 0..4 {
            matrix[row][col] = match projection_term(row, col) {
                ProjectionTerm::Zero => 0.0,
                ProjectionTerm::One => 1.0,
                ProjectionTerm::ScaleX => f * aspect_ratio,
                ProjectionTerm::ScaleY => f,
                ProjectionTerm::DepthScale => (z_far + z_near) / (z_far - z_near),
                ProjectionTerm::DepthOffset => -(2.0 * z_far * z_near) / (z_far - z_near),
            };
        }
    }
    matrix
}

fn normalised(v: [f32; 3]) -> [f32; 3] {
    let len = (v[0] * v[0] + v[1] * v[1] + v[2] * v[2]).sqrt();
    [v[0] / len, v[1] / len, v[2] / len]
}

fn cross(a: [f32; 3], b: [f32; 3]) -> [f32; 3] {
    [a[1] * b[2] - a[2] * b[1], a[2] * b[0] - a[0] * b[2], a[0] * b[1] - a[1] * b[0]]
}

fn dot(a: [f32; 3], b: [f32; 3]) -> f32 {
    a[0] * b[0] + a[1] * b[1] + a[2] * b[2]
}

fn view(eye: [f32; 3], direction: [f32; 3], up: [f32; 3]) -> Matrix {
    let forward = normalised(direction);
    let right = normalised(cross(up, forward));
    let above = cross(forward, right);
    let mut matrix = [[0.0; 4]; 4];
    for row in 0..4 {
        for col in 0..4 {
            let of = |axis: Axis| match axis {
                Axis::Right => right,
                Axis::Up => above,
                Axis::Forward => forward,
            };
            matrix[row][col] = match view_term(row, col) {
                ViewTerm::Zero => 0.0,
                ViewTerm::One => 1.0,
                ViewTerm::Basis(axis, Coordinate::X) => of(axis)[0],
                ViewTerm::Basis(axis, Coordinate::Y) => of(axis)[1],
                ViewTerm::Basis(axis, Coordinate::Z) => of(axis)[2],
                ViewTerm::Shift(axis) => -dot(eye, of(axis)),
            };
        }
    }
    matrix
}

fn model(t: f32) -> Matrix {
    let (sin, cos) = t.sin_cos();
    let mut matrix = [[0.0; 4]; 4];
    for row in 0..4 {
        for col in 0..4 {
            matrix[row][col] = match model_term(row, col) {
                ModelTerm::Zero => 0.0,
                ModelTerm::One => 1.0,
                ModelTerm::Cosine => cos,
                ModelTerm::Sine => sin,
                ModelTerm::MinusSine => -sin,
            };
        }
    }
    matrix
}

#[test]
fn the_projection_table_names_five_terms() {
    let zero = ProjectionTerm::Zero;
    let expected = [
        [ProjectionTerm::ScaleX, zero, zero, zero],
        [zero, ProjectionTerm::ScaleY, zero, zero],
        [zero, zero, ProjectionTerm::DepthScale, ProjectionTerm::One],
        [zero, zero, ProjectionTerm::DepthOffset, zero],
    ];
    for row in 0..4 {
        for col in 0..4 {
            assert_eq!(projection_term(row, col), expected[row][col]);
        }
    }
}

#[test]
fn eleven_entries_of_the_projection_are_zero() {
    let mut zeros = 0;
    for row in 0..4 {
        for col in 0..4 {
            if projection_term(row, col) == ProjectionTerm::Zero {
                zeros += 1;
            }
        }
    }
    assert_eq!(zeros, 11);
}

#[test]
fn only_the_scale_terms_depend_on_the_inputs() {
    assert!(ProjectionTerm::Zero.fixed());
    assert!(ProjectionTerm::One.fixed());
    assert!(ProjectionTerm::DepthScale.fixed());
    assert!(ProjectionTerm::DepthOffset.fixed());
    assert!(!ProjectionTerm::ScaleX.fixed());
    assert!(!ProjectionTerm::ScaleY.fixed());
}

#[test]
fn the_clipping_planes_are_a_tenth_and_1024() {
    assert_eq!(NEAR_PLANE_TENTHS, 1);
    assert_eq!(FAR_PLANE_TENTHS, 10240);
    assert_eq!(NEAR_PLANE_TENTHS as f32 / 10.0, 0.1);
    assert_eq!(FAR_PLANE_TENTHS as f32 / 10.0, 1024.0);
}

#[test]
fn the_divide_marker_is_one_and_the_entry_below_it_zero() {
    let sizes = [(800, 600), (600, 800), (1, 1), (1920, 1080), (3, 4000)];
    let fovs = [0.01, PI / 6.0, PI / 3.0, PI / 2.0, 3.0];
    for size in sizes {
        for fov in fovs {
            let m = projection(size, fov);
            assert_eq!(m[2][3], 1.0);
            assert_eq!(m[3][3], 0.0);
        }
    }
}

#[test]
fn the_depth_entries_are_the_same_for_all_inputs() {
    let a = projection((800, 600), PI / 3.0);
    let b = projection((31, 977), 2.5);
    assert_eq!(a[2][2].to_bits(), b[2][2].to_bits());
    assert_eq!(a[3][2].to_bits(), b[3][2].to_bits());
    assert!((a[2][2] - 1024.1 / 1023.9).abs() < 1e-6);
    assert!((a[3][2] + 204.8 / 1023.9).abs() < 1e-6);
}

#[test]
fn the_scale_entries_follow_the_field_of_view_and_the_inverted_aspect() {
    let m = projection((800, 600), PI / 3.0);
    let f = 1.0 / (PI / 6.0).tan();
    assert!((m[1][1] - f).abs() < 1e-6);
    assert!((m[0][0] - f * 0.75).abs() < 1e-6);
    assert!((f - 1.732_050_8).abs() < 1e-5);
}

#[test]
fn the_projection_is_the_same_bits_when_filled_twice() {
    let first = projection((800, 600), PI / 3.0);
    let second = projection((800, 600), PI / 3.0);
    for row in 0..4 {
        for col in 0..4 {
            assert_eq!(first[row][col].to_bits(), second[row][col].to_bits());
        }
    }
}

#[test]
fn the_view_table_sets_the_axes_side_by_side() {
    let (right, up, forward) = (Axis::Right, Axis::Up, Axis::Forward);
    let (x, y, z) = (Coordinate::X, Coordinate::Y, Coordinate::Z);
    let expected = [
        [ViewTerm::Basis(right, x), ViewTerm::Basis(up, x), ViewTerm::Basis(forward, x), ViewTerm::Zero],
        [ViewTerm::Basis(right, y), ViewTerm::Basis(up, y), ViewTerm::Basis(forward, y), ViewTerm::Zero],
        [ViewTerm::Basis(right, z), ViewTerm::Basis(up, z), ViewTerm::Basis(forward, z), ViewTerm::Zero],
        [ViewTerm::Shift(right), ViewTerm::Shift(up), ViewTerm::Shift(forward), ViewTerm::One],
    ];
    for row in 0..4 {
        for col in 0..4 {
            assert_eq!(view_term(row, col), expected[row][col]);
        }
    }
}

#[test]
fn the_last_column_of_the_view_is_fixed() {
    let m = view([0.5, 0.2, -3.0], [-0.5, -0.2, 3.0], [0.0, 1.0, 0.0]);
    assert_eq!([m[0][3], m[1][3], m[2][3], m[3][3]], [0.0, 0.0, 0.0, 1.0]);
}

#[test]
fn an_eye_behind_the_target_is_shifted_along_the_forward_axis() {
    let m = view([0.0, 0.0, -3.0], [0.0, 0.0, 1.0], [0.0, 1.0, 0.0]);
    assert!((m[3][0] - 0.0).abs() < 1e-5);
    assert!((m[3][1] - 0.0).abs() < 1e-5);
    assert!((m[3][2] - 3.0).abs() < 1e-5);
    assert_eq!(m[3][3], 1.0);
}

#[test]
fn orthogonal_unit_inputs_give_an_orthonormal_block() {
    let m = view([1.0, 2.0, 3.0], [0.0, 0.0, 1.0], [0.0, 1.0, 0.0]);
    let rows = [[m[0][0], m[0][1], m[0][2]], [m[1][0], m[1][1], m[1][2]], [
        m[2][0],
        m[2][1],
        m[2][2],
    ]];
    for i in 0..3 {
        assert!((dot(rows[i], rows[i]) - 1.0).abs() < 1e-5);
        for j in 0..3 {
            if i != j {
                assert!(dot(rows[i], rows[j]).abs() < 1e-5);
            }
        }
    }
    let slanted = view([1.0, 2.0, 3.0], [0.6, 0.0, 0.8], [0.0, 1.0, 0.0]);
    for i in 0..3 {
        let axis = [slanted[0][i], slanted[1][i], slanted[2][i]];
        assert!((dot(axis, axis) - 1.0).abs() < 1e-5);
    }
}

#[test]
fn the_model_table_rotates_about_the_z_axis() {
    let (zero, one) = (ModelTerm::Zero, ModelTerm::One);
    let expected = [
        [ModelTerm::Cosine, ModelTerm::Sine, zero, zero],
        [ModelTerm::MinusSine, ModelTerm::Cosine, zero, zero],
        [zero, zero, one, zero],
        [zero, zero, zero, one],
    ];
    for row in 0..4 {
        for col in 0..4 {
            assert_eq!(model_term(row, col), expected[row][col]);
        }
    }
}

#[test]
fn a_full_turn_gives_the_same_model_matrix() {
    for t in [0.0f32, 0.02, 1.0, 2.5, 8.0] {
        let a = model(t);
        let b = model(t + 2.0 * PI);
        for row in 0..4 {
            for col in 0..4 {
                assert!((a[row][col] - b[row][col]).abs() < 1e-5);
            }
        }
    }
    assert_eq!(model(0.0), [
        [1.0, 0.0, 0.0, 0.0],
        [-0.0, 1.0, 0.0, 0.0],
        [0.0, 0.0, 1.0, 0.0],
        [0.0, 0.0, 0.0, 1.0],
    ]);
}
