use m3_colors::blend::{cam16ucs, hct_hue};
use m3_colors::hct::viewing_conditions::ViewingConditions;
use m3_colors::hct::cam16::Cam16;
use m3_colors::hct::hct_solver::solve_to_int;
use m3_colors::hct::Hct;
use m3_colors::utils::color::lstar_from_argb;

fn fx(x: f64) -> i64 {
    (x * 4294967296.0).round() as i64
}

#[test]
fn round_trip_holds_on_sampled_colors() {
    // every 32nd channel value in each channel, plus the extremes
    let steps = [0u8, 32, 64, 96, 128, 160, 192, 224, 255];
    for &r in steps.iter() {
        for &g in steps.iter() {
            for &b in steps.iter() {
                let color = [255, r, g, b];
                let hct = Hct::from_int(color);
                let back = Hct::from(hct.hue(), hct.chroma(), hct.tone()).to_int();
                assert_eq!(back, color);
            }
        }
    }
}

#[test]
fn excessive_chroma_is_clamped_and_idempotent() {
    // chroma far above the gamut maximum for this hue and tone
    let first = Hct::from(fx(27.4), fx(500.0), fx(53.2));
    assert!(first.chroma() <= fx(500.0));
    // re-requesting the realized maximum yields the same color
    let again = Hct::from(first.hue(), first.chroma(), first.tone());
    assert_eq!(again.to_int(), first.to_int());
}

#[test]
fn tone_extremes_are_black_and_white() {
    for hue in [0.0f64, 90.0, 180.0, 270.0, 359.9] {
        for chroma in [0.0f64, 50.0, 200.0] {
            assert_eq!(solve_to_int(fx(hue), fx(chroma), fx(0.0)), [255, 0, 0, 0]);
            assert_eq!(solve_to_int(fx(hue), fx(chroma), fx(-5.0)), [255, 0, 0, 0]);
            assert_eq!(
                solve_to_int(fx(hue), fx(chroma), fx(100.0)),
                [255, 255, 255, 255]
            );
            assert_eq!(
                solve_to_int(fx(hue), fx(chroma), fx(140.0)),
                [255, 255, 255, 255]
            );
        }
    }
}

#[test]
fn black_decomposes_to_exact_zero() {
    let black = [255, 0, 0, 0];
    let h = Hct::from_int(black);
    assert_eq!(h.hue(), 0);
    assert_eq!(h.chroma(), 0);
    assert_eq!(h.tone(), 0);
    assert_eq!(h.to_int(), black);
    assert_eq!(lstar_from_argb(black), 0);
}

#[test]
fn tone_stays_in_range_at_the_extremes() {
    let white = [255, 255, 255, 255];
    assert_eq!(lstar_from_argb(white), fx(100.0));
    let h = Hct::from_int(white);
    assert_eq!(h.tone(), fx(100.0));
    let hb = Hct::from(fx(27.4), fx(50.0), fx(0.0));
    assert_eq!(hb.tone(), 0);
    assert_eq!(hb.chroma(), 0);
    assert_eq!(hb.to_int(), [255, 0, 0, 0]);
}

#[test]
fn solver_is_deterministic() {
    let a = solve_to_int(fx(123.456), fx(47.11), fx(61.8));
    let b = solve_to_int(fx(123.456), fx(47.11), fx(61.8));
    assert_eq!(a, b);
}

#[test]
fn setters_re_solve_atomically() {
    let mut hct = Hct::from_int([255, 216, 86, 0]);
    hct.set_tone(fx(80.0));
    // the cached color and the scalars agree after the mutation
    let re = Hct::from_int(hct.to_int());
    assert_eq!(re.hue(), hct.hue());
    assert_eq!(re.chroma(), hct.chroma());
    assert_eq!(re.tone(), hct.tone());
    hct.set_chroma(fx(20.0));
    assert!(hct.chroma() <= fx(20.0) + 1);
    hct.set_hue(fx(90.0));
    let re2 = Hct::from_int(hct.to_int());
    assert_eq!(re2.hue(), hct.hue());
}

#[test]
fn ucs_blend_endpoints_are_the_inputs() {
    let red = [255, 255, 0, 0];
    let blue = [255, 0, 0, 255];
    assert_eq!(cam16ucs(red, blue, 0), red);
    assert_eq!(cam16ucs(red, blue, fx(1.0)), blue);
    let mid = cam16ucs(red, blue, fx(0.5));
    assert_eq!(mid[0], 255);
}

#[test]
fn hue_blend_keeps_tone() {
    let red = [255, 255, 0, 0];
    let blue = [255, 0, 0, 255];
    let blended = hct_hue(red, blue, fx(0.5));
    let tone_diff = lstar_from_argb(blended) - lstar_from_argb(red);
    assert!(tone_diff.abs() < fx(2.0));
}

#[test]
fn appearance_reflexivity_on_sampled_colors() {
    let steps = [0u8, 51, 102, 153, 204, 255];
    for &r in steps.iter() {
        for &g in steps.iter() {
            for &b in steps.iter() {
                let color = [255, r, g, b];
                let cam = Cam16::from_argb(color);
                assert_eq!(cam.viewed(ViewingConditions::default()), color);
            }
        }
    }
}
