use m3_colors::utils::string::{argb_from_hex, hex_from_argb};

#[test]
fn get_argb_from_hex() {
    let argb_one = argb_from_hex(String::from("#770099"));
    assert_eq!(argb_one[0], 255);
    assert_eq!(argb_one[1], 119);
    assert_eq!(argb_one[2], 0);
    assert_eq!(argb_one[3], 153);
}

#[test]
fn get_argb_from_hex_three() {
    let argb_two = argb_from_hex(String::from("#709"));
    assert_eq!(argb_two[0], 255);
    assert_eq!(argb_two[1], 119);
    assert_eq!(argb_two[2], 0);
    assert_eq!(argb_two[3], 153);
}

#[test]
#[should_panic]
fn test_argb_from_hex_panic() {
    let argb = argb_from_hex(String::from("#12345"));
    assert_eq!(argb[0], 12);
}

#[test]
fn get_hex_from_argb() {
    let hex = hex_from_argb([255, 119, 0, 153]);
    assert_eq!(hex, String::from("#770099"));
}

#[test]
fn get_argb_from_hex_alpha() {
    let argb = argb_from_hex(String::from("#77009980"));
    assert_eq!(argb[0], 128);
    assert_eq!(argb[1], 119);
    assert_eq!(argb[2], 0);
    assert_eq!(argb[3], 153);
}

#[test]
fn get_hex_alpha_from_argb() {
    let hex = hex_from_argb([128, 119, 0, 153]);
    assert_eq!(hex, String::from("#77009980"));
}

#[test]
fn hex_round_trip_uppercase() {
    let argb = argb_from_hex(String::from("AbCdEf"));
    assert_eq!(argb, [255, 171, 205, 239]);
    let hex = hex_from_argb(argb);
    assert_eq!(hex, String::from("#abcdef"));
}
