use m3_colors::utils::math::{
    difference_degrees, lerp, matrix_multiply, rotation_direction, sanitize_degrees_double,
    sanitize_degrees_int,
};

fn fx(x: f64) -> i64 {
    (x * 4294967296.0).round() as i64
}

fn to_f(v: i64) -> f64 {
    v as f64 / 4294967296.0
}

fn close(v: i64, expected: f64, tol: f64) -> bool {
    (to_f(v) - expected).abs() < tol
}

#[test]
fn validate_lerp() {
    let lerp_val = lerp(fx(12.34567), fx(34.5678), fx(1.234));
    assert!(close(lerp_val, 39.76777842, 1e-6));
}

#[test]
fn validate_rotation_direction() {
    let pos_rotation = rotation_direction(fx(12.34567), fx(160.99876));
    let neg_rotation = rotation_direction(fx(160.99876), fx(12.34567));
    assert!(close(pos_rotation, 1.0, 0.0001));
    assert!(close(neg_rotation, -1.0, 0.0001));
}

#[test]
fn validate_difference_degrees() {
    let diff = difference_degrees(fx(12.34567), fx(112.34567));
    assert!(close(diff, 100.0, 1e-6));
}

#[test]
fn validate_sanitize_degrees_int_pos() {
    let sanitized_int = sanitize_degrees_int(15);
    assert_eq!(sanitized_int, 15);
}

#[test]
fn validate_sanitize_degrees_int_neg() {
    let sanitized_int = sanitize_degrees_int(-96);
    assert_eq!(sanitized_int, 264);
}

#[test]
fn validate_sanitize_degrees_double_pos() {
    let sanitized_dbl = sanitize_degrees_double(fx(15.1234));
    assert!(close(sanitized_dbl, 15.1234, 1e-6));
}

#[test]
fn validate_sanitize_degrees_double_neg() {
    let sanitized_dbl = sanitize_degrees_double(fx(-96.3456));
    assert!(close(sanitized_dbl, 263.6544, 1e-6));
}

#[test]
fn validate_matrix_multiply() {
    let row = [fx(1.25), fx(2.50), fx(3.75)];
    let matrix = [
        [fx(1.0), fx(1.0), fx(1.0)],
        [fx(2.0), fx(2.0), fx(2.0)],
        [fx(3.0), fx(3.0), fx(3.0)],
    ];
    let multiplied = matrix_multiply(row, matrix);
    assert_eq!(to_f(multiplied[0]), 7.5);
    assert_eq!(to_f(multiplied[1]), 15.0);
    assert_eq!(to_f(multiplied[2]), 22.5);
}
