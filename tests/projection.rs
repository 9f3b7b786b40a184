use terra_graphics_engine::projection::{orthographic_projection, Ratio};

fn as_f32(m: &[Ratio]) -> Vec<f32> {
    m.iter().map(|r| r.num as f32 / r.den as f32).collect()
}

#[test]
fn projection_of_800_by_600() {
    let m = orthographic_projection(800, 600);
    assert_eq!(m.len(), 16);
    assert_eq!(m[0], Ratio { num: 2, den: 800 });
    assert_eq!(m[3], Ratio { num: -800, den: 800 });
    assert_eq!(m[5], Ratio { num: -2, den: 600 });
    assert_eq!(m[7], Ratio { num: 600, den: 600 });
    assert_eq!(m[10], Ratio { num: -1, den: 1 });
    assert_eq!(m[15], Ratio { num: 1, den: 1 });
    let (l, r, t, b) = (0.0f32, 800.0f32, 0.0f32, 600.0f32);
    let expected = [
        2.0 / (r - l), 0.0, 0.0, -(r + l) / (r - l),
        0.0, 2.0 / (t - b), 0.0, -(t + b) / (t - b),
        0.0, 0.0, -1.0, 0.0,
        0.0, 0.0, 0.0, 1.0,
    ];
    assert_eq!(as_f32(&m), expected.to_vec());
}

#[test]
fn projection_maps_corners_to_device_square() {
    let m = as_f32(&orthographic_projection(640, 480));
    let at = |x: f32, y: f32| (m[0] * x + m[1] * y + m[3], m[4] * x + m[5] * y + m[7]);
    assert_eq!(at(0.0, 0.0), (-1.0, 1.0));
    assert_eq!(at(640.0, 480.0), (1.0, -1.0));
    assert_eq!(at(320.0, 240.0), (0.0, 0.0));
}
