//! A Kalman filter that keeps its own error covariance from one step to the
//! next, for use once per step of a control loop.

use vstd::prelude::*;

use crate::kalman::{
    corrected_covariance, corrected_state, kalman_gain, predicted_covariance, predicted_state,
    KalmanError, KalmanFilter,
};
use crate::matrix::{product_of, sum_of, transpose_of, MatrixTerm, RealMatrix};

verus! {

/// One fused step of the model `f` from the error covariance `p`, the state
/// `x`, the input `u` and the measurement `y`: the corrected state and error
/// covariance, with the predictions `A·x + B·u` and `A·P·Aᵗ + Q` and the gain
/// for the latter written out in place.
pub open spec fn fused_step<T: nalgebra::RealField>(
    f: KalmanFilter<T>,
    p: MatrixTerm<T>,
    x: MatrixTerm<T>,
    u: MatrixTerm<T>,
    y: MatrixTerm<T>,
) -> (MatrixTerm<T>, MatrixTerm<T>) {
    let h = f.measurement();
    let predicted_p = sum_of(
        product_of(product_of(f.system(), p), transpose_of(f.system())),
        f.process_noise(),
    );
    let predicted_x = sum_of(product_of(f.system(), x), product_of(f.input(), u));
    let k = kalman_gain(predicted_p, h, f.measurement_noise_covariance());
    (corrected_state(k, predicted_x, y, h), corrected_covariance(k, predicted_p, h, f.state_dim()))
}

/// The state and error covariance after fused steps of `f` over the inputs
/// `us` and the measurements `ys`, from `x` and `p`.
pub open spec fn fused_run<T: nalgebra::RealField>(
    f: KalmanFilter<T>,
    p: MatrixTerm<T>,
    x: MatrixTerm<T>,
    us: Seq<MatrixTerm<T>>,
    ys: Seq<MatrixTerm<T>>,
) -> (MatrixTerm<T>, MatrixTerm<T>)
    decreases us.len(),
{
    if us.len() == 0 || ys.len() == 0 {
        (x, p)
    } else {
        let (x1, p1) = fused_step(f, p, x, us[0], ys[0]);
        fused_run(f, p1, x1, us.drop_first(), ys.drop_first())
    }
}

/// The state and error covariance after running the stateless filter `f` by
/// hand over the inputs `us` and the measurements `ys`, from `x` and `p`: at
/// each step `predict_error_covariance`, `predict_state`, then `update` on
/// what they gave.
pub open spec fn stateless_run<T: nalgebra::RealField>(
    f: KalmanFilter<T>,
    p: MatrixTerm<T>,
    x: MatrixTerm<T>,
    us: Seq<MatrixTerm<T>>,
    ys: Seq<MatrixTerm<T>>,
) -> (MatrixTerm<T>, MatrixTerm<T>)
    decreases us.len(),
{
    if us.len() == 0 || ys.len() == 0 {
        (x, p)
    } else {
        let predicted_p = predicted_covariance(f.system(), p, f.process_noise());
        let predicted_x = predicted_state(f.system(), x, f.input(), us[0]);
        stateless_run(
            f,
            f.covariance_after(predicted_p),
            f.state_after(predicted_p, predicted_x, ys[0]),
            us.drop_first(),
            ys.drop_first(),
        )
    }
}

/// Running the stateful filter (`BasicKalmanFilter::update`, once per step)
/// gives the same states and error covariances as running the stateless
/// filter of the same model by hand, for any number of steps.
pub proof fn lemma_stateful_run_matches_stateless<T: nalgebra::RealField>(
    f: KalmanFilter<T>,
    p: MatrixTerm<T>,
    x: MatrixTerm<T>,
    us: Seq<MatrixTerm<T>>,
    ys: Seq<MatrixTerm<T>>,
)
    requires
        us.len() == ys.len(),
    ensures
        fused_run(f, p, x, us, ys) == stateless_run(f, p, x, us, ys),
    decreases us.len(),
{
    if us.len() > 0 {
        let (x1, p1) = fused_step(f, p, x, us[0], ys[0]);
        lemma_stateful_run_matches_stateless(f, p1, x1, us.drop_first(), ys.drop_first());
    }
}

/// A Kalman filter that owns its error covariance estimate `P`; the state
/// estimate stays with the caller.
#[verifier::reject_recursive_types(T)]
pub struct BasicKalmanFilter<T> {
    filter: KalmanFilter<T>,
    error_covariance: RealMatrix<T>,
}

impl<T: nalgebra::RealField> BasicKalmanFilter<T> {
    /// The fixed model, as a stateless filter.
    pub closed spec fn model(&self) -> KalmanFilter<T> {
        self.filter
    }

    /// The error covariance `P` that the filter holds.
    pub closed spec fn covariance(&self) -> RealMatrix<T> {
        self.error_covariance
    }

    /// The model is well formed and `P` is `A × A`.
    pub closed spec fn wf(&self) -> bool {
        &&& self.filter.wf()
        &&& self.error_covariance.is_square(self.filter.state_dim())
    }

    /// A filter of the same model as `KalmanFilter::new`, with the `A × A`
    /// zero matrix as its error covariance (see `set_error_covariance`).
    pub fn new(
        system: RealMatrix<T>,
        input: RealMatrix<T>,
        process_noise: RealMatrix<T>,
        measurement: RealMatrix<T>,
        measurement_noise_covariance: RealMatrix<T>,
    ) -> (r: Self)
        requires
            system.rows() == system.cols(),
            input.rows() == system.rows(),
            process_noise.is_square(system.rows()),
            measurement.cols() == system.rows(),
            measurement_noise_covariance.is_square(measurement.rows()),
        ensures
            r.wf(),
            r.model().state_dim() == system.rows(),
            r.model().input_dim() == input.cols(),
            r.model().output_dim() == measurement.rows(),
            r.model().system() == system.term(),
            r.model().input() == input.term(),
            r.model().process_noise() == process_noise.term(),
            r.model().measurement() == measurement.term(),
            r.model().measurement_noise_covariance() == measurement_noise_covariance.term(),
            r.covariance().term() == MatrixTerm::<T>::Zeros(system.rows(), system.rows()),
    {
        let n = system.nrows();
        let filter = KalmanFilter::new(
            system,
            input,
            process_noise,
            measurement,
            measurement_noise_covariance,
        );
        BasicKalmanFilter { filter, error_covariance: RealMatrix::zeros(n, n) }
    }

    /// The error covariance `P` that the filter holds.
    pub fn error_covariance(&self) -> (r: &RealMatrix<T>)
        ensures
            *r == self.covariance(),
    {
        &self.error_covariance
    }

    /// The fixed model, as a stateless filter.
    pub fn filter(&self) -> (r: &KalmanFilter<T>)
        ensures
            *r == self.model(),
    {
        &self.filter
    }

    /// Replaces the error covariance with `error_covariance` (`A × A`).
    pub fn set_error_covariance(&mut self, error_covariance: RealMatrix<T>)
        requires
            old(self).wf(),
            error_covariance.is_square(old(self).model().state_dim()),
        ensures
            final(self).wf(),
            final(self).model() == old(self).model(),
            final(self).covariance() == error_covariance,
    {
        self.error_covariance = error_covariance;
    }

    /// One step: predicts the state `A·x + B·u` and the error covariance
    /// `A·P·Aᵗ + Q`, then corrects both with the measurement `y`. Returns the
    /// corrected state and keeps the corrected error covariance. On
    /// `NumericalSingularity` the filter is left as it was.
    pub fn update(
        &mut self,
        state: RealMatrix<T>,
        inputs: RealMatrix<T>,
        outputs: RealMatrix<T>,
    ) -> (r: Result<RealMatrix<T>, KalmanError>)
        requires
            old(self).wf(),
            state.has_shape(old(self).model().state_dim(), 1),
            inputs.has_shape(old(self).model().input_dim(), 1),
            outputs.has_shape(old(self).model().output_dim(), 1),
        ensures
            final(self).wf(),
            final(self).model() == old(self).model(),
            r matches Ok(x) ==> {
                &&& x.has_shape(old(self).model().state_dim(), 1)
                &&& (x.term(), final(self).covariance().term()) == fused_step(
                    old(self).model(),
                    old(self).covariance().term(),
                    state.term(),
                    inputs.term(),
                    outputs.term(),
                )
            },
            r matches Err(e) ==> e == KalmanError::NumericalSingularity && *final(self) == *old(
                self,
            ),
    {
        let prediction_state = self.filter.predict_state(state, inputs);
        let prediction_error_covariance = self.filter.predict_error_covariance(
            self.error_covariance.duplicate(),
        );
        match self.filter.update(prediction_error_covariance, prediction_state, outputs) {
            Ok((new_state_estimate, new_error_covariance)) => {
                self.error_covariance = new_error_covariance;
                Ok(new_state_estimate)
            },
            Err(e) => Err(e),
        }
    }
}

} // verus!
