use aberth::{aberth, aberth_mt, horner_eval_c, horner_eval_f, initial_aberth, micro_tol_exec,
    AberthError, Cplx, Options, TAU_BITS};

fn bits(x: f64) -> u64 {
    x.to_bits()
}

fn val(b: u64) -> f64 {
    f64::from_bits(b)
}

fn cx(re: f64, im: f64) -> Cplx {
    Cplx { re: re.to_bits(), im: im.to_bits() }
}

fn re_of(c: Cplx) -> f64 {
    f64::from_bits(c.re)
}

fn im_of(c: Cplx) -> f64 {
    f64::from_bits(c.im)
}

fn sample_coeffs() -> Vec<u64> {
    [10.0, 34.0, 75.0, 94.0, 150.0, 94.0, 75.0, 34.0, 10.0].iter().map(|c: &f64| c.to_bits()).collect()
}

fn options(max_iters: usize, tol: f64) -> Options {
    Options { max_iters, tol: tol.to_bits() }
}

fn residual(coeffs: &[u64], z: Cplx) -> f64 {
    let p = horner_eval_c(coeffs, &z).unwrap();
    re_of(p).abs() + im_of(p).abs()
}

#[test]
fn horner_real_at_two() {
    let coeffs = sample_coeffs();
    let px = horner_eval_f(&coeffs, bits(2.0)).unwrap();
    assert!((val(px) - 18250.0).abs() < 1e-9);
}

#[test]
fn horner_complex_at_one_two() {
    let coeffs = sample_coeffs();
    let px = horner_eval_c(&coeffs, &cx(1.0, 2.0)).unwrap();
    assert!((re_of(px) - 6080.0).abs() < 1e-9);
    assert!((im_of(px) - 9120.0).abs() < 1e-9);
}

#[test]
fn horner_constant_polynomial() {
    let coeffs = vec![bits(5.0)];
    let px = horner_eval_f(&coeffs, bits(3.0)).unwrap();
    assert_eq!(val(px), 5.0);
    let pc = horner_eval_c(&coeffs, &cx(3.0, 4.0)).unwrap();
    assert_eq!(re_of(pc), 5.0);
    assert_eq!(im_of(pc), 0.0);
}

#[test]
fn horner_empty_is_error() {
    let coeffs: Vec<u64> = vec![];
    assert_eq!(horner_eval_f(&coeffs, bits(2.0)), Err(AberthError::InvalidDegree));
    assert_eq!(horner_eval_c(&coeffs, &cx(1.0, 2.0)), Err(AberthError::InvalidDegree));
}

#[test]
fn initial_guess_count_and_radius() {
    let coeffs = sample_coeffs();
    let z0s = initial_aberth(&coeffs).unwrap();
    assert_eq!(z0s.len(), 8);
    let center = -34.0 / (10.0 * 8.0);
    let r0 = ((re_of(z0s[0]) - center).powi(2) + im_of(z0s[0]).powi(2)).sqrt();
    for z in z0s.iter() {
        let r = ((re_of(*z) - center).powi(2) + im_of(*z).powi(2)).sqrt();
        assert!((r - r0).abs() < 1e-9);
    }
}

#[test]
fn initial_guess_angular_spacing() {
    let coeffs = sample_coeffs();
    let z0s = initial_aberth(&coeffs).unwrap();
    let center = -34.0 / (10.0 * 8.0);
    let tau = std::f64::consts::TAU;
    let step = tau / 8.0;
    for k in 0..7 {
        let a0 = (im_of(z0s[k])).atan2(re_of(z0s[k]) - center);
        let a1 = (im_of(z0s[k + 1])).atan2(re_of(z0s[k + 1]) - center);
        let mut d = a1 - a0;
        while d <= -std::f64::consts::PI {
            d += tau;
        }
        while d > std::f64::consts::PI {
            d -= tau;
        }
        assert!((d - step).abs() < 1e-9);
    }
}

#[test]
fn initial_guess_first_estimate() {
    let coeffs = sample_coeffs();
    let z0s = initial_aberth(&coeffs).unwrap();
    assert!((re_of(z0s[0]) - 0.6116610247366323).abs() < 1e-9);
    assert!((im_of(z0s[0]) - 0.6926747514925476).abs() < 1e-9);
}

#[test]
fn short_input_is_error_never_a_crash() {
    let opts = options(50, 1e-12);
    for coeffs in [Vec::<u64>::new(), vec![bits(7.0)]] {
        assert_eq!(initial_aberth(&coeffs), Err(AberthError::InvalidDegree));
        let mut zs = vec![cx(1.0, 1.0)];
        assert_eq!(aberth(&coeffs, &mut zs, &opts), Err(AberthError::InvalidDegree));
        assert_eq!(zs, vec![cx(1.0, 1.0)]);
        assert_eq!(aberth_mt(&coeffs, &mut zs, &opts), Err(AberthError::InvalidDegree));
        assert_eq!(zs, vec![cx(1.0, 1.0)]);
    }
}

#[test]
fn sequential_converges_within_budget() {
    let coeffs = sample_coeffs();
    let mut zs = initial_aberth(&coeffs).unwrap();
    let opts = options(50, 1e-12);
    let (niter, found) = aberth(&coeffs, &mut zs, &opts).unwrap();
    assert!(found);
    assert!(niter < 50);
    for z in zs.iter() {
        assert!(residual(&coeffs, *z) < 1e-8);
    }
}

#[test]
fn parallel_converges_within_budget() {
    let coeffs = sample_coeffs();
    let mut zs = initial_aberth(&coeffs).unwrap();
    let opts = options(50, 1e-12);
    let (niter, found) = aberth_mt(&coeffs, &mut zs, &opts).unwrap();
    assert!(found);
    assert!(niter < 50);
    for z in zs.iter() {
        assert!(residual(&coeffs, *z) < 1e-8);
    }
}

#[test]
fn sequential_and_parallel_find_the_same_roots() {
    let coeffs = sample_coeffs();
    let seeds = initial_aberth(&coeffs).unwrap();
    let opts = options(50, 1e-12);
    let mut zs_seq = seeds.clone();
    let mut zs_par = seeds.clone();
    let (_, found_seq) = aberth(&coeffs, &mut zs_seq, &opts).unwrap();
    let (_, found_par) = aberth_mt(&coeffs, &mut zs_par, &opts).unwrap();
    assert!(found_seq && found_par);
    let mut used = vec![false; zs_par.len()];
    for a in zs_seq.iter() {
        let mut matched = false;
        for (j, b) in zs_par.iter().enumerate() {
            if used[j] {
                continue;
            }
            let d = ((re_of(*a) - re_of(*b)).powi(2) + (im_of(*a) - im_of(*b)).powi(2)).sqrt();
            if d < 1e-6 {
                used[j] = true;
                matched = true;
                break;
            }
        }
        assert!(matched);
    }
}

#[test]
fn rerun_on_converged_roots_is_immediate_sequential() {
    let coeffs = sample_coeffs();
    let mut zs = initial_aberth(&coeffs).unwrap();
    let opts = options(50, 1e-12);
    let (_, found) = aberth(&coeffs, &mut zs, &opts).unwrap();
    assert!(found);
    let (niter2, found2) = aberth(&coeffs, &mut zs, &opts).unwrap();
    assert!(found2);
    assert!(niter2 == 0);
}

#[test]
fn rerun_on_converged_roots_is_immediate_parallel() {
    let coeffs = sample_coeffs();
    let mut zs = initial_aberth(&coeffs).unwrap();
    let opts = options(50, 1e-12);
    let (_, found) = aberth_mt(&coeffs, &mut zs, &opts).unwrap();
    assert!(found);
    let (niter2, found2) = aberth_mt(&coeffs, &mut zs, &opts).unwrap();
    assert!(found2);
    assert!(niter2 == 0);
}

#[test]
fn vieta_sum_of_roots() {
    let coeffs = sample_coeffs();
    let mut zs = initial_aberth(&coeffs).unwrap();
    let opts = options(50, 1e-12);
    let (_, found) = aberth(&coeffs, &mut zs, &opts).unwrap();
    assert!(found);
    let mut sum_re = 0.0;
    let mut sum_im = 0.0;
    for z in zs.iter() {
        sum_re += re_of(*z);
        sum_im += im_of(*z);
    }
    assert!((sum_re - (-34.0 / 10.0)).abs() < 1e-3);
    assert!(sum_im.abs() < 1e-3);
}

#[test]
fn default_options_values() {
    let opts = Options::default();
    assert_eq!(opts.max_iters, 2000);
    assert_eq!(opts.tol, 1e-12f64.to_bits());
}

#[test]
fn tau_constant_matches_std() {
    assert_eq!(TAU_BITS, std::f64::consts::TAU.to_bits());
}

#[test]
fn micro_tolerance_matches_literal() {
    assert_eq!(micro_tol_exec(), 1e-15f64.to_bits());
}
