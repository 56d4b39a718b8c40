use m3_colors::utils::color::{
    alpha_from_argb, argb_from_lab, argb_from_linrgb, argb_from_lstar, argb_from_rgb,
    argb_from_xyz, blue_from_argb, delinearized, green_from_argb, is_opaque, lab_from_argb,
    linearized, lstar_from_argb, red_from_argb, white_point_d65, xyz_from_argb, y_from_lstar,
};

fn fx(x: f64) -> i64 {
    (x * 4294967296.0).round() as i64
}

fn to_f(v: i64) -> f64 {
    v as f64 / 4294967296.0
}

fn close(v: i64, expected: f64, tol: f64) -> bool {
    (to_f(v) - expected).abs() < tol
}

#[test]
fn test_argb_from_rgb() {
    let argb = argb_from_rgb([119, 0, 153]);
    assert_eq!(argb[0], 255);
    assert_eq!(argb[1], 119);
    assert_eq!(argb[2], 0);
    assert_eq!(argb[3], 153);
}

#[test]
fn test_argb_from_linrgb() {
    let lin = fx(18.4474994500441);
    let argb = argb_from_linrgb([lin, lin, lin]);
    assert_eq!(argb[0], 255);
    assert_eq!(argb[1], 119);
    assert_eq!(argb[2], 119);
    assert_eq!(argb[3], 119);
}

#[test]
fn test_alpha_from_argb() {
    let alpha = alpha_from_argb([255, 119, 0, 153]);
    assert_eq!(alpha, 255);
}

#[test]
fn test_red_from_argb() {
    let red = red_from_argb([255, 119, 0, 153]);
    assert_eq!(red, 119);
}

#[test]
fn test_green_from_argb() {
    let green = green_from_argb([255, 119, 0, 153]);
    assert_eq!(green, 0);
}

#[test]
fn test_blue_from_argb() {
    let blue = blue_from_argb([255, 119, 0, 153]);
    assert_eq!(blue, 153);
}

#[test]
fn test_is_opaque() {
    let fixed_argb_one = [255, 119, 0, 153];
    let fixed_argb_two = [160, 72, 102, 190];
    let is = is_opaque(fixed_argb_one);
    let isnot = is_opaque(fixed_argb_two);
    assert_eq!(is, true);
    assert_eq!(isnot, false);
}

#[test]
fn test_argb_from_xyz() {
    let xyz = [
        fx(13.356723824257475),
        fx(6.221846121142539),
        fx(30.629358478049),
    ];
    let argb = argb_from_xyz(xyz);
    assert_eq!(argb[0], 255);
    assert_eq!(argb[1], 119);
    assert_eq!(argb[2], 0);
    assert_eq!(argb[3], 153);
}

#[test]
fn test_xyz_from_argb() {
    let xyz = xyz_from_argb([255, 119, 0, 153]);
    assert!(close(xyz[0], 13.356723824257475, 1e-5));
    assert!(close(xyz[1], 6.221846121142539, 1e-5));
    assert!(close(xyz[2], 30.629358478049, 1e-5));
}

#[test]
fn test_argb_from_lab() {
    let argb = argb_from_lab(
        fx(29.965403607253286),
        fx(61.82367536548383),
        fx(-51.794952267087055),
    );
    assert_eq!(argb[0], 255);
    assert_eq!(argb[1], 119);
    assert_eq!(argb[2], 0);
    assert_eq!(argb[3], 153);
}

#[test]
fn test_lab_from_argb() {
    let lab = lab_from_argb([255, 119, 0, 153]);
    assert!(close(lab[0], 29.965403607253286, 1e-5));
    assert!(close(lab[1], 61.82367536548383, 1e-5));
    assert!(close(lab[2], -51.794952267087055, 1e-5));
}

#[test]
fn test_argb_from_lstar() {
    let argb = argb_from_lstar(fx(29.965403607253286));
    assert_eq!(argb[0], 255);
    assert_eq!(argb[1], 71);
    assert_eq!(argb[2], 71);
    assert_eq!(argb[3], 71);
}

#[test]
fn test_lstar_from_argb() {
    let lstar = lstar_from_argb([255, 119, 0, 153]);
    assert!(close(lstar, 29.965403607253286, 1e-5));
}

#[test]
fn test_y_from_lstar() {
    let y = y_from_lstar(fx(29.965403607253286));
    assert!(close(y, 6.221846121142538, 1e-5));
}

#[test]
fn test_linearized() {
    let lin = linearized(119);
    assert!(close(lin, 18.4474994500441, 1e-5));
}

#[test]
fn test_delinearized() {
    let delin = delinearized(fx(18.4474994500441));
    assert_eq!(delin, 119);
}

#[test]
fn test_white_point_d65() {
    let wp = white_point_d65();
    assert!(close(wp[0], 95.047, 1e-6));
    assert!(close(wp[1], 100.0, 1e-6));
    assert!(close(wp[2], 108.883, 1e-6));
}
