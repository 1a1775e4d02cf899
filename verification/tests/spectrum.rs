use fft_utils::transform::{convolve_core, fft_core, ifft_core, Butterfly};
use std::f64::consts::PI;

#[derive(Clone, Copy, Debug)]
struct Sample {
    re: f64,
    im: f64,
}

fn c(re: f64, im: f64) -> Sample {
    Sample { re, im }
}

fn zero() -> Sample {
    c(0.0, 0.0)
}

fn cmul(a: Sample, b: Sample) -> Sample {
    c(a.re * b.re - a.im * b.im, a.re * b.im + b.re * a.im)
}

fn butterfly_value(n: usize, j: usize, inverse: bool, even: Sample, odd: Sample) -> (Sample, Sample) {
    let sign = if inverse { -1.0 } else { 1.0 };
    let phase = (j as f64) * (sign * 2.0 * PI / n as f64);
    let w = c(phase.cos(), phase.sin());
    let t = cmul(w, odd);
    (c(even.re + t.re, even.im + t.im), c(even.re - t.re, even.im - t.im))
}

fn scaled_value(n: usize, x: Sample) -> Sample {
    let f = 1.0 / n as f64;
    c(x.re * f, x.im * f)
}

impl Butterfly for Sample {
    fn spec_combine(n: usize, j: usize, inverse: bool, even: Sample, odd: Sample) -> (Sample, Sample) {
        butterfly_value(n, j, inverse, even, odd)
    }

    fn spec_scale_down(n: usize, x: Sample) -> Sample {
        scaled_value(n, x)
    }

    fn spec_product(a: Sample, b: Sample) -> Sample {
        cmul(a, b)
    }

    fn combine(n: usize, j: usize, inverse: bool, even: Sample, odd: Sample) -> (Sample, Sample) {
        butterfly_value(n, j, inverse, even, odd)
    }

    fn scale_down(n: usize, x: Sample) -> Sample {
        scaled_value(n, x)
    }

    fn product(a: Sample, b: Sample) -> Sample {
        cmul(a, b)
    }
}

fn assert_close(a: Sample, b: Sample) {
    assert!(
        (a.re - b.re).abs() < 1e-9 && (a.im - b.im).abs() < 1e-9,
        "expected {:?} to be close to {:?}",
        a,
        b
    );
}

#[test]
fn impulse_response_is_all_ones() {
    let v = vec![c(1.0, 0.0), zero(), zero(), zero()];
    let spectrum = fft_core(v, zero(), false);
    assert_eq!(spectrum.len(), 4);
    for x in spectrum {
        assert_close(x, c(1.0, 0.0));
    }
}

#[test]
fn constant_signal_concentrates_in_first_bin() {
    let v = vec![c(1.0, 0.0); 4];
    let spectrum = fft_core(v, zero(), false);
    assert_eq!(spectrum.len(), 4);
    assert_close(spectrum[0], c(4.0, 0.0));
    for x in &spectrum[1..] {
        assert_close(*x, zero());
    }
}

#[test]
fn forward_transform_pads_to_next_power_of_two() {
    let v = vec![c(1.0, 0.0), c(2.0, 0.0), c(3.0, 0.0)];
    let spectrum = fft_core(v, zero(), false);
    assert_eq!(spectrum.len(), 4);

    let spectrum = fft_core(Vec::new(), zero(), false);
    assert_eq!(spectrum.len(), 1);
    assert_close(spectrum[0], zero());

    let v = vec![c(5.0, -1.0)];
    let spectrum = fft_core(v, zero(), false);
    assert_eq!(spectrum.len(), 1);
    assert_close(spectrum[0], c(5.0, -1.0));
}

#[test]
fn round_trip_recovers_power_of_two_input() {
    let x = vec![
        c(0.5, -1.25),
        c(3.0, 0.0),
        c(-2.75, 4.5),
        c(0.0, 0.125),
        c(9.0, -3.0),
        c(-1.0, -1.0),
        c(2.25, 8.5),
        c(7.125, 0.625),
    ];
    let back = ifft_core(fft_core(x.clone(), zero(), false), zero());
    assert_eq!(back.len(), x.len());
    for (a, b) in back.iter().zip(x.iter()) {
        assert_close(*a, *b);
    }
}

#[test]
fn transform_is_linear() {
    let a = vec![c(1.0, 2.0), c(-3.0, 0.5), c(0.25, 0.0), c(4.0, -4.0)];
    let b = vec![c(0.0, -1.0), c(2.5, 2.5), c(-6.0, 1.0), c(0.5, 0.5)];
    let sum: Vec<Sample> = a
        .iter()
        .zip(b.iter())
        .map(|(x, y)| c(x.re + y.re, x.im + y.im))
        .collect();
    let fa = fft_core(a, zero(), false);
    let fb = fft_core(b, zero(), false);
    let fsum = fft_core(sum, zero(), false);
    for k in 0..4 {
        assert_close(fsum[k], c(fa[k].re + fb[k].re, fa[k].im + fb[k].im));
    }
}

fn direct_convolution(a: &[f64], b: &[f64]) -> Vec<f64> {
    let out_len = a.len() + b.len() - 1;
    let mut out = vec![0.0; out_len];
    for (i, x) in a.iter().enumerate() {
        for (j, y) in b.iter().enumerate() {
            out[i + j] += x * y;
        }
    }
    out
}

fn convolve_reals(a: &[f64], b: &[f64]) -> Vec<f64> {
    let ca: Vec<Sample> = a.iter().map(|x| c(*x, 0.0)).collect();
    let cb: Vec<Sample> = b.iter().map(|x| c(*x, 0.0)).collect();
    convolve_core(ca, cb, zero()).iter().map(|x| x.re).collect()
}

#[test]
fn convolution_matches_direct_sum() {
    let a = [1.0, 2.0, 3.0];
    let b = [0.0, 1.0, 0.5];
    let got = convolve_reals(&a, &b);
    let want = [0.0, 1.0, 2.5, 4.0, 1.5];
    assert_eq!(got.len(), 8);
    for k in 0..want.len() {
        assert!((got[k] - want[k]).abs() < 1e-9, "index {}: {} vs {}", k, got[k], want[k]);
    }
    for k in want.len()..got.len() {
        assert!(got[k].abs() < 1e-9, "trailing index {} is {}", k, got[k]);
    }
}

#[test]
fn convolution_matches_direct_sum_on_uneven_lengths() {
    let a = [2.0, -1.0, 0.5, 3.0, 4.0];
    let b = [1.5, 0.25];
    let got = convolve_reals(&a, &b);
    let want = direct_convolution(&a, &b);
    assert_eq!(got.len(), 8);
    for k in 0..want.len() {
        assert!((got[k] - want[k]).abs() < 1e-9, "index {}: {} vs {}", k, got[k], want[k]);
    }
    for k in want.len()..got.len() {
        assert!(got[k].abs() < 1e-9, "trailing index {} is {}", k, got[k]);
    }
}
