use vr_tracker::pose::PoseMatrix;

fn matrix_bits(m: [[f32; 4]; 3]) -> PoseMatrix {
    PoseMatrix {
        m00: m[0][0].to_bits(),
        m01: m[0][1].to_bits(),
        m02: m[0][2].to_bits(),
        m03: m[0][3].to_bits(),
        m10: m[1][0].to_bits(),
        m11: m[1][1].to_bits(),
        m12: m[1][2].to_bits(),
        m13: m[1][3].to_bits(),
        m20: m[2][0].to_bits(),
        m21: m[2][1].to_bits(),
        m22: m[2][2].to_bits(),
        m23: m[2][3].to_bits(),
    }
}

#[test]
fn test_matrix_layout() {
    let matrix = [[0., 1., 2., 3.], [4., 5., 6., 7.], [8., 9., 10., 11.]];
    let position = matrix_bits(matrix).to_position();
    assert_eq!(f32::from_bits(position.x) as i32, 3);
    assert_eq!(f32::from_bits(position.y) as i32, 7);
    assert_eq!(f32::from_bits(position.z) as i32, 11);
}

#[test]
fn position_is_translation_column_bitexact() {
    let matrix = [
        [1.0, 0.0, 0.0, 1.5],
        [0.0, 1.0, 0.0, -2.25],
        [0.0, 0.0, 1.0, 3.75],
    ];
    let position = matrix_bits(matrix).to_position();
    assert_eq!(position.x, 1.5f32.to_bits());
    assert_eq!(position.y, (-2.25f32).to_bits());
    assert_eq!(position.z, 3.75f32.to_bits());
}

#[test]
fn to_position_is_deterministic() {
    let matrix = [
        [0.5, -0.5, 0.25, 9.125],
        [0.125, 1.0, -1.0, -0.0625],
        [2.0, -2.0, 4.0, 7.5],
    ];
    let m = matrix_bits(matrix);
    let first = m.to_position();
    let second = m.to_position();
    assert_eq!(first, second);
}

#[test]
fn origin_and_identity_defaults() {
    let origin = vr_tracker::pose::Position::origin();
    assert_eq!(f32::from_bits(origin.x), 0.0);
    assert_eq!(f32::from_bits(origin.y), 0.0);
    assert_eq!(f32::from_bits(origin.z), 0.0);
    let identity = vr_tracker::pose::Rotation::identity();
    assert_eq!(f32::from_bits(identity.w), 1.0);
    assert_eq!(f32::from_bits(identity.x), 0.0);
    assert_eq!(f32::from_bits(identity.y), 0.0);
    assert_eq!(f32::from_bits(identity.z), 0.0);
}
