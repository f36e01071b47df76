use kalman_rs::{
    BasicKalmanFilter, ContinuousTimeInvariant, KalmanError, KalmanErrorCovarianceTransferFunction,
    KalmanFilter, KalmanGainsController, KalmanStateTransferFunction, RealMatrix,
    StateSpaceNotation,
};

fn m(rows: usize, cols: usize, v: &[f64]) -> RealMatrix<f64> {
    RealMatrix::from_row_slice(rows, cols, v)
}

fn entries(a: &RealMatrix<f64>) -> Vec<f64> {
    let mut out = Vec::new();
    for i in 0..a.nrows() {
        for j in 0..a.ncols() {
            out.push(a.entry(i, j));
        }
    }
    out
}

fn assert_close(a: &RealMatrix<f64>, expected: &[f64], tol: f64) {
    let got = entries(a);
    assert_eq!(got.len(), expected.len());
    for (g, e) in got.iter().zip(expected.iter()) {
        assert!((g - e).abs() <= tol * (1.0 + e.abs()), "got {:?}, expected {:?}", got, expected);
    }
}

fn trace(a: &RealMatrix<f64>) -> f64 {
    let mut t = 0.0;
    for i in 0..a.nrows() {
        t += a.entry(i, i);
    }
    t
}

/// A two-state position/velocity model measured in position.
fn two_state_filter() -> KalmanFilter<f64> {
    KalmanFilter::new(
        m(2, 2, &[1.0, 1.0, 0.0, 1.0]),
        m(2, 1, &[0.5, 1.0]),
        m(2, 2, &[0.01, 0.0, 0.0, 0.01]),
        m(1, 2, &[1.0, 0.0]),
        m(1, 1, &[0.25]),
    )
}

#[test]
fn predict_and_update_keep_dimensions() {
    let f = two_state_filter();
    let x = f.predict_state(m(2, 1, &[0.0, 1.0]), m(1, 1, &[2.0]));
    assert_eq!((x.nrows(), x.ncols()), (2, 1));
    let p = f.predict_error_covariance(m(2, 2, &[1.0, 0.0, 0.0, 1.0]));
    assert_eq!((p.nrows(), p.ncols()), (2, 2));
    let (x2, p2) = f.update(p, x, m(1, 1, &[2.5])).unwrap();
    assert_eq!((x2.nrows(), x2.ncols()), (2, 1));
    assert_eq!((p2.nrows(), p2.ncols()), (2, 2));
}

#[test]
fn predict_state_values() {
    let f = two_state_filter();
    let x = f.predict_state(m(2, 1, &[0.0, 1.0]), m(1, 1, &[2.0]));
    assert_close(&x, &[2.0, 3.0], 1e-12);
}

#[test]
fn predict_error_covariance_values() {
    let f = two_state_filter();
    let p = f.predict_error_covariance(m(2, 2, &[1.0, 0.0, 0.0, 1.0]));
    assert_close(&p, &[2.01, 1.0, 1.0, 1.01], 1e-12);
}

#[test]
fn gains_match_direct_formula() {
    let h = m(2, 3, &[1.0, 0.0, 2.0, 0.5, 1.0, 0.0]);
    let r = m(2, 2, &[0.3, 0.1, 0.1, 0.4]);
    let p_values = [2.0, 0.3, 0.1, 0.3, 1.5, 0.2, 0.1, 0.2, 1.0];
    let controller = KalmanGainsController::new(h.duplicate(), r.duplicate());
    let k = controller.next_gains(m(3, 3, &p_values)).unwrap();

    let hn = nalgebra::DMatrix::from_row_slice(2, 3, &[1.0, 0.0, 2.0, 0.5, 1.0, 0.0]);
    let rn = nalgebra::DMatrix::from_row_slice(2, 2, &[0.3, 0.1, 0.1, 0.4]);
    let pn = nalgebra::DMatrix::from_row_slice(3, 3, &p_values);
    let s = &hn * &pn * hn.transpose() + &rn;
    let expected = &pn * hn.transpose() * s.try_inverse().unwrap();
    let mut want = Vec::new();
    for i in 0..3 {
        for j in 0..2 {
            want.push(expected[(i, j)]);
        }
    }
    assert_close(&k, &want, 1e-9);
}

#[test]
fn scalar_gain_value() {
    let controller = KalmanGainsController::new(m(1, 1, &[1.0]), m(1, 1, &[1.0]));
    let k = controller.next_gains(m(1, 1, &[3.0])).unwrap();
    assert_close(&k, &[0.75], 1e-12);
}

#[test]
fn zero_innovation_keeps_predicted_state() {
    let corrector = KalmanStateTransferFunction::new(m(2, 2, &[1.0, 0.0, 0.0, 1.0]));
    let x = [1.5, -2.25];
    for gain in [[0.0, 0.0, 0.0, 0.0], [0.7, -3.0, 12.5, 0.01], [1.0, 1.0, 1.0, 1.0]] {
        let r = corrector.eval(m(2, 2, &gain), m(2, 1, &x), m(2, 1, &x));
        assert_eq!(entries(&r), x.to_vec());
    }
}

#[test]
fn state_correction_value() {
    let corrector = KalmanStateTransferFunction::new(m(1, 2, &[1.0, 0.0]));
    let r = corrector.eval(m(2, 1, &[0.5, 0.25]), m(2, 1, &[1.0, 2.0]), m(1, 1, &[3.0]));
    assert_close(&r, &[2.0, 2.5], 1e-12);
}

#[test]
fn covariance_correction_value() {
    let corrector = KalmanErrorCovarianceTransferFunction::new(m(1, 2, &[1.0, 0.0]));
    let r = corrector.eval(m(2, 1, &[0.5, 0.25]), m(2, 2, &[2.0, 1.0, 1.0, 3.0]));
    // (I - K·H) = [[0.5, 0], [-0.25, 1]]
    assert_close(&r, &[1.0, 0.5, 0.5, 2.75], 1e-12);
}

#[test]
fn correction_does_not_grow_trace() {
    let fixtures: [(&[f64], &[f64], &[f64]); 3] = [
        (&[2.0, 0.3, 0.3, 1.0], &[1.0, 0.0], &[0.5]),
        (&[1.0, 0.0, 0.0, 1.0], &[1.0, 1.0], &[2.0]),
        (&[4.0, -1.0, -1.0, 3.0], &[0.2, -0.7], &[0.1]),
    ];
    for (p, h, r) in fixtures {
        let controller = KalmanGainsController::new(m(1, 2, h), m(1, 1, r));
        let corrector = KalmanErrorCovarianceTransferFunction::new(m(1, 2, h));
        let k = controller.next_gains(m(2, 2, p)).unwrap();
        let corrected = corrector.eval(k, m(2, 2, p));
        assert!(trace(&corrected) <= trace(&m(2, 2, p)) + 1e-12);
    }
}

#[test]
fn scalar_filter_converges() {
    let mut f = BasicKalmanFilter::new(
        m(1, 1, &[1.0]),
        m(1, 1, &[0.0]),
        m(1, 1, &[0.01]),
        m(1, 1, &[1.0]),
        m(1, 1, &[1.0]),
    );
    f.set_error_covariance(m(1, 1, &[1.0]));
    let mut state = m(1, 1, &[0.0]);
    let mut last_covariance = 1.0;
    for step in 0..50 {
        state = f.update(state, m(1, 1, &[0.0]), m(1, 1, &[5.0])).unwrap();
        let covariance = f.error_covariance().entry(0, 0);
        if step < 10 {
            assert!(covariance < last_covariance);
        }
        last_covariance = covariance;
    }
    assert!((state.entry(0, 0) - 5.0).abs() < 0.05);
}

#[test]
fn singular_innovation_covariance_fails() {
    let controller = KalmanGainsController::new(m(2, 2, &[0.0; 4]), m(2, 2, &[0.0; 4]));
    let r = controller.next_gains(m(2, 2, &[1.0, 0.0, 0.0, 1.0]));
    assert!(matches!(r, Err(KalmanError::NumericalSingularity)));
}

#[test]
fn singular_update_fails_in_both_filters() {
    let f = KalmanFilter::new(
        m(2, 2, &[1.0, 0.0, 0.0, 1.0]),
        m(2, 1, &[0.0, 0.0]),
        m(2, 2, &[0.0; 4]),
        m(2, 2, &[0.0; 4]),
        m(2, 2, &[0.0; 4]),
    );
    let r = f.update(m(2, 2, &[1.0, 0.0, 0.0, 1.0]), m(2, 1, &[1.0, 2.0]), m(2, 1, &[0.0; 2]));
    assert!(matches!(r, Err(KalmanError::NumericalSingularity)));

    let mut g = BasicKalmanFilter::new(
        m(2, 2, &[1.0, 0.0, 0.0, 1.0]),
        m(2, 1, &[0.0, 0.0]),
        m(2, 2, &[0.0; 4]),
        m(2, 2, &[0.0; 4]),
        m(2, 2, &[0.0; 4]),
    );
    g.set_error_covariance(m(2, 2, &[1.0, 0.5, 0.5, 1.0]));
    let r = g.update(m(2, 1, &[1.0, 2.0]), m(1, 1, &[0.0]), m(2, 1, &[0.0; 2]));
    assert!(matches!(r, Err(KalmanError::NumericalSingularity)));
    assert_eq!(entries(g.error_covariance()), vec![1.0, 0.5, 0.5, 1.0]);
}

#[test]
fn stateless_and_stateful_runs_agree() {
    let stateless = two_state_filter();
    let mut stateful = BasicKalmanFilter::new(
        m(2, 2, &[1.0, 1.0, 0.0, 1.0]),
        m(2, 1, &[0.5, 1.0]),
        m(2, 2, &[0.01, 0.0, 0.0, 0.01]),
        m(1, 2, &[1.0, 0.0]),
        m(1, 1, &[0.25]),
    );
    let p0 = [1.0, 0.0, 0.0, 1.0];
    stateful.set_error_covariance(m(2, 2, &p0));
    let mut p = m(2, 2, &p0);
    let mut x = m(2, 1, &[0.0, 0.0]);
    let mut y = m(2, 1, &[0.0, 0.0]);
    for step in 0..20 {
        let u = m(1, 1, &[(step % 3) as f64 - 1.0]);
        let z = m(1, 1, &[0.3 * step as f64]);
        let predicted_p = stateless.predict_error_covariance(p);
        let predicted_x = stateless.predict_state(x, u.duplicate());
        let (x2, p2) = stateless.update(predicted_p, predicted_x, z.duplicate()).unwrap();
        x = x2;
        p = p2;
        y = stateful.update(y, u, z).unwrap();
        assert_close(&y, &entries(&x), 1e-12);
        assert_close(stateful.error_covariance(), &entries(&p), 1e-12);
    }
}

#[test]
fn new_stateful_filter_starts_from_zero_covariance() {
    let f = BasicKalmanFilter::new(
        m(2, 2, &[1.0, 1.0, 0.0, 1.0]),
        m(2, 1, &[0.5, 1.0]),
        m(2, 2, &[0.01, 0.0, 0.0, 0.01]),
        m(1, 2, &[1.0, 0.0]),
        m(1, 1, &[0.25]),
    );
    assert_eq!(entries(f.error_covariance()), vec![0.0; 4]);
}

#[test]
fn state_space_system_values() {
    let s = ContinuousTimeInvariant::new(
        m(2, 2, &[1.0, 2.0, 0.0, 1.0]),
        m(2, 1, &[1.0, 0.0]),
        m(1, 2, &[0.0, 3.0]),
        m(1, 1, &[0.5]),
    );
    let x = s.next_state(m(2, 1, &[1.0, 1.0]), m(1, 1, &[2.0]));
    assert_close(&x, &[5.0, 1.0], 1e-12);
    let y = s.next_output(m(2, 1, &[1.0, 1.0]), m(1, 1, &[2.0]));
    assert_close(&y, &[4.0], 1e-12);
}

#[test]
fn matrices_from_row_slices() {
    let a = m(2, 3, &[1.0, 2.0, 3.0, 4.0, 5.0, 6.0]);
    assert_eq!((a.nrows(), a.ncols()), (2, 3));
    assert_eq!(a.entry(0, 2), 3.0);
    assert_eq!(a.entry(1, 0), 4.0);
    let b = a.duplicate();
    assert_eq!(entries(&b), vec![1.0, 2.0, 3.0, 4.0, 5.0, 6.0]);
}

#[test]
fn gains_use_the_inverse() {
    // S = H·P·Hᵗ + R = [[4, 7], [2, 6]] with H = I, R = 0: K = P·S⁻¹ = I.
    let controller = KalmanGainsController::new(
        m(2, 2, &[1.0, 0.0, 0.0, 1.0]),
        m(2, 2, &[0.0; 4]),
    );
    let k = controller.next_gains(m(2, 2, &[4.0, 7.0, 2.0, 6.0])).unwrap();
    assert_close(&k, &[1.0, 0.0, 0.0, 1.0], 1e-12);
    // With R = I the inverse of S = P + I enters: K = P·(P + I)⁻¹ = [[0.5, 0], [0, 0.75]].
    let controller = KalmanGainsController::new(
        m(2, 2, &[1.0, 0.0, 0.0, 1.0]),
        m(2, 2, &[1.0, 0.0, 0.0, 1.0]),
    );
    let k = controller.next_gains(m(2, 2, &[1.0, 0.0, 0.0, 3.0])).unwrap();
    assert_close(&k, &[0.5, 0.0, 0.0, 0.75], 1e-12);
}

#[test]
fn transposed_measurement_in_gain() {
    // H = [1, 2] (1 × 2), P = I, R = [1]: H·P·Hᵗ + R = 6, K = Hᵗ / 6.
    let controller = KalmanGainsController::new(m(1, 2, &[1.0, 2.0]), m(1, 1, &[1.0]));
    let k = controller.next_gains(m(2, 2, &[1.0, 0.0, 0.0, 1.0])).unwrap();
    assert_eq!((k.nrows(), k.ncols()), (2, 1));
    assert_close(&k, &[1.0 / 6.0, 2.0 / 6.0], 1e-12);
}
