use m3_colors::blend::harmonize;

const RED: [u8; 4] = [255, 255, 0, 0];
const BLUE: [u8; 4] = [255, 0, 0, 255];
const GREEN: [u8; 4] = [255, 0, 255, 0];
const YELLOW: [u8; 4] = [255, 255, 255, 0];

#[test]
fn harmonize_red_to_blue() {
    let val = harmonize(RED, BLUE);
    assert_eq!(val, [255, 251, 0, 87]);
}

#[test]
fn harmonize_red_to_green() {
    let val = harmonize(RED, GREEN);
    assert_eq!(val, [255, 216, 86, 0]);
}

#[test]
fn harmonize_red_to_yellow() {
    let val = harmonize(RED, YELLOW);
    assert_eq!(val, [255, 216, 86, 0]);
}

#[test]
fn harmonize_blue_to_green() {
    let val = harmonize(BLUE, GREEN);
    assert_eq!(val, [255, 0, 71, 163]);
}

#[test]
fn harmonize_blue_to_red() {
    let val = harmonize(BLUE, RED);
    assert_eq!(val, [255, 87, 0, 220]);
}

#[test]
fn harmonize_blue_to_yellow() {
    let val = harmonize(BLUE, YELLOW);
    assert_eq!(val, [255, 0, 71, 163]);
}

#[test]
fn harmonize_green_to_blue() {
    let val = harmonize(GREEN, BLUE);
    assert_eq!(val, [255, 0, 252, 148]);
}

#[test]
fn harmonize_green_to_red() {
    let val = harmonize(GREEN, RED);
    assert_eq!(val, [255, 177, 240, 0]);
}

#[test]
fn harmonize_green_to_yellow() {
    let val = harmonize(GREEN, YELLOW);
    assert_eq!(val, [255, 177, 240, 0]);
}

#[test]
fn harmonize_yellow_to_blue() {
    let val = harmonize(YELLOW, BLUE);
    assert_eq!(val, [255, 235, 255, 186]);
}

#[test]
fn harmonize_yellow_to_green() {
    let val = harmonize(YELLOW, GREEN);
    assert_eq!(val, [255, 235, 255, 186]);
}

#[test]
fn harmonize_yellow_to_red() {
    let val = harmonize(YELLOW, RED);
    assert_eq!(val, [255, 255, 246, 227]);
}
