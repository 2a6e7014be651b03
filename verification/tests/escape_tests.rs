use num::complex::Complex;
use tinybrot::escape::escape_time;

fn julia_count(z0: Complex<f64>, c: Complex<f64>, r2: f64, cap: usize) -> usize {
    escape_time(z0, &|z: Complex<f64>| z.powu(2) + c, &|z: &Complex<f64>| !(z.norm_sqr() <= r2), cap)
}

#[test]
fn a_point_outside_the_radius_has_count_zero() {
    let c = Complex { re: 0.355534, im: -0.337292 };
    assert_eq!(julia_count(Complex { re: 3.0, im: 1.0 }, c, 9.0, 10000), 0);
    assert_eq!(julia_count(Complex { re: 0.0, im: -3.5 }, c, 9.0, 10000), 0);
    assert_eq!(julia_count(Complex { re: 100.0, im: 100.0 }, c, 9.0, 1), 0);
}

#[test]
fn a_point_on_the_radius_has_not_diverged() {
    let zero = Complex { re: 0.0, im: 0.0 };
    // |z0|^2 is exactly 9, which does not exceed 9; the next point is 9 + 0i.
    assert_eq!(julia_count(Complex { re: 3.0, im: 0.0 }, zero, 9.0, 50), 1);
}

#[test]
fn the_origin_under_the_plain_square_never_escapes() {
    let zero = Complex { re: 0.0, im: 0.0 };
    assert_eq!(julia_count(zero, zero, 9.0, 10000), 10000);
    assert_eq!(julia_count(zero, zero, 0.5, 50), 50);
    assert_eq!(julia_count(zero, zero, 9.0, 1), 1);
}

#[test]
fn a_zero_cap_gives_zero() {
    let zero = Complex { re: 0.0, im: 0.0 };
    let c = Complex { re: 0.355534, im: -0.337292 };
    assert_eq!(julia_count(zero, zero, 9.0, 0), 0);
    assert_eq!(julia_count(Complex { re: 5.0, im: 5.0 }, c, 9.0, 0), 0);
}

#[test]
fn the_count_is_the_first_index_outside_the_radius() {
    let zero = Complex { re: 0.0, im: 0.0 };
    // 2, 4: the second point has squared magnitude 16.
    assert_eq!(julia_count(Complex { re: 2.0, im: 0.0 }, zero, 9.0, 50), 1);
    // 1.5, 2.25, 5.0625: squared magnitudes 2.25, 5.0625, 25.6...
    assert_eq!(julia_count(Complex { re: 1.5, im: 0.0 }, zero, 9.0, 50), 2);
    let c = Complex { re: 0.355534, im: -0.337292 };
    assert_eq!(julia_count(Complex { re: -1.0, im: -1.0 }, c, 9.0, 10000), 3);
}

#[test]
fn the_cap_cuts_a_longer_orbit_short() {
    let c = Complex { re: 0.355534, im: -0.337292 };
    let z0 = Complex { re: -1.0, im: -1.0 };
    assert_eq!(julia_count(z0, c, 9.0, 3), 3);
    assert_eq!(julia_count(z0, c, 9.0, 2), 2);
    assert_eq!(julia_count(z0, c, 9.0, 1), 1);
}

#[test]
fn the_count_never_exceeds_the_cap() {
    let c = Complex { re: 0.355534, im: -0.337292 };
    for cap in [0usize, 1, 2, 7, 100] {
        for step in 0..40 {
            let t = -2.0 + 0.1 * step as f64;
            let k = julia_count(Complex { re: t, im: 0.5 * t }, c, 9.0, cap);
            assert!(k <= cap);
        }
    }
}

#[test]
fn the_same_inputs_give_the_same_count() {
    let c = Complex { re: 0.355534, im: -0.337292 };
    for step in 0..40 {
        let z0 = Complex { re: -1.0 + 0.05 * step as f64, im: 0.25 };
        assert_eq!(julia_count(z0, c, 9.0, 500), julia_count(z0, c, 9.0, 500));
    }
}

#[test]
fn a_point_that_is_not_a_number_has_count_zero() {
    let zero = Complex { re: 0.0, im: 0.0 };
    assert_eq!(julia_count(Complex { re: f64::NAN, im: 0.0 }, zero, 9.0, 50), 0);
}

#[test]
fn works_on_integers_as_well() {
    // 20, 10, 5, 2: the first point below 3 is at index 3.
    let k = escape_time(20u64, &|z: u64| z / 2, &|z: &u64| *z < 3, 10);
    assert_eq!(k, 3);
    let capped = escape_time(20u64, &|z: u64| z / 2, &|z: &u64| *z < 3, 2);
    assert_eq!(capped, 2);
}
