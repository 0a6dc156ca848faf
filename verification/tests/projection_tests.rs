use eren_frame_core::commands::{projection_flips_y, ClipConvention};
use glam::Mat4;

const FOV_DEGREES: f32 = 45.0;
const NEAR: f32 = 0.1;
const FAR: f32 = 10.0;

fn projection() -> Mat4 {
    let aspect = 800.0f32 / 600.0f32;
    Mat4::perspective_rh(FOV_DEGREES.to_radians(), aspect, NEAR, FAR)
}

#[test]
fn perspective_matches_the_closed_form_within_tolerance() {
    let aspect = 800.0f32 / 600.0f32;
    let m = projection().to_cols_array_2d();
    let f = 1.0f32 / (FOV_DEGREES.to_radians() * 0.5).tan();
    let expected = [
        [f / aspect, 0.0, 0.0, 0.0],
        [0.0, f, 0.0, 0.0],
        [0.0, 0.0, FAR / (NEAR - FAR), -1.0],
        [0.0, 0.0, (NEAR * FAR) / (NEAR - FAR), 0.0],
    ];
    for c in 0..4 {
        for r in 0..4 {
            assert!(
                (m[c][r] - expected[c][r]).abs() < 1e-5,
                "entry [{}][{}]: {} vs {}",
                c,
                r,
                m[c][r],
                expected[c][r]
            );
        }
    }
}

#[test]
fn vertical_flip_appears_only_in_the_y_down_path() {
    let m = projection();
    for convention in [ClipConvention::YDown, ClipConvention::YUp] {
        let mut proj = m;
        if projection_flips_y(convention) {
            proj.y_axis.y *= -1.0;
        }
        match convention {
            ClipConvention::YDown => {
                assert!((proj.y_axis.y + m.y_axis.y).abs() < 1e-6);
                assert!(proj.y_axis.y < 0.0);
            },
            ClipConvention::YUp => {
                assert_eq!(proj.y_axis.y, m.y_axis.y);
                assert!(proj.y_axis.y > 0.0);
            },
        }
    }
}
