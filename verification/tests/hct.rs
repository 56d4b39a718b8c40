use m3_colors::hct::cam16::Cam16;
use m3_colors::hct::viewing_conditions::ViewingConditions;
use m3_colors::hct::Hct;
use m3_colors::utils::color::{lstar_from_argb, y_from_lstar};

const BLACK: [u8; 4] = [0xff, 0x00, 0x00, 0x00];
const WHITE: [u8; 4] = [0xff, 0xff, 0xff, 0xff];
const RED: [u8; 4] = [0xff, 0xff, 0x00, 0x00];
const GREEN: [u8; 4] = [0xff, 0x00, 0xff, 0x00];
const BLUE: [u8; 4] = [0xff, 0x00, 0x00, 0xff];

fn fx(x: f64) -> i64 {
    (x * 4294967296.0).round() as i64
}

fn to_f(v: i64) -> f64 {
    v as f64 / 4294967296.0
}

fn close(v: i64, expected: f64, tol: f64) -> bool {
    (to_f(v) - expected).abs() < tol
}

#[test]
fn conversions_are_reflexive() {
    let cam = Cam16::from_argb(RED);
    let conditions = ViewingConditions::default();
    println!("{conditions:#?}");
    let color = cam.viewed(conditions);
    assert_eq!(color, RED)
}

#[test]
fn colors() {
    assert!(close(y_from_lstar(fx(50.0)), 18.418, 0.001));
    assert!(close(y_from_lstar(fx(0.0)), 0.0, 0.001));
    assert!(close(y_from_lstar(fx(100.0)), 100.0, 0.001));
}

#[test]
fn cam_red() {
    let cam = Cam16::from_argb(RED);
    assert!(close(cam.j(), 46.445, 0.001));
    assert!(close(cam.chroma(), 113.357, 0.001));
    assert!(close(cam.hue(), 27.408, 0.001));
    assert!(close(cam.m(), 89.494, 0.001));
    assert!(close(cam.s(), 91.889, 0.001));
    assert!(close(cam.q(), 105.988, 0.001));
}

#[test]
fn cam_green() {
    let cam = Cam16::from_argb(GREEN);
    assert!(close(cam.j(), 79.331, 0.001));
    assert!(close(cam.chroma(), 108.410, 0.001));
    assert!(close(cam.hue(), 142.139, 0.001));
    assert!(close(cam.m(), 85.587, 0.001));
    assert!(close(cam.s(), 78.604, 0.001));
    assert!(close(cam.q(), 138.520, 0.001));
}

#[test]
fn cam_blue() {
    let cam = Cam16::from_argb(BLUE);
    assert!(close(cam.j(), 25.465, 0.001));
    assert!(close(cam.chroma(), 87.230, 0.001));
    assert!(close(cam.hue(), 282.788, 0.001));
    assert!(close(cam.m(), 68.867, 0.001));
    assert!(close(cam.s(), 93.674, 0.001));
    assert!(close(cam.q(), 78.481, 0.001));
}

#[test]
fn cam_black() {
    let cam = Cam16::from_argb(BLACK);
    assert!(close(cam.j(), 0.0, 0.001));
    assert!(close(cam.chroma(), 0.0, 0.001));
    assert!(close(cam.hue(), 0.0, 0.001));
    assert!(close(cam.m(), 0.0, 0.001));
    assert!(close(cam.s(), 0.0, 0.001));
    assert!(close(cam.q(), 0.0, 0.001));
}

#[test]
fn cam_white() {
    let cam = Cam16::from_argb(WHITE);
    assert!(close(cam.j(), 100.0, 0.001));
    assert!(close(cam.chroma(), 2.869, 0.001));
    assert!(close(cam.hue(), 209.492, 0.001));
    assert!(close(cam.m(), 2.265, 0.001));
    assert!(close(cam.s(), 12.068, 0.001));
    assert!(close(cam.q(), 155.521, 0.001));
}

#[test]
fn gamut_map_colors() {
    fn gamut_map_test(color_to_test: [u8; 4]) {
        let cam = Cam16::from_argb(color_to_test);
        let color = Hct::from(cam.hue(), cam.chroma(), lstar_from_argb(color_to_test)).to_int();
        assert_eq!(color_to_test, color);
    }

    gamut_map_test(RED);
    gamut_map_test(GREEN);
    gamut_map_test(BLUE);
    gamut_map_test(WHITE);
    gamut_map_test(BLACK);
}
