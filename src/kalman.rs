//! The stateless Kalman filter and the three computations of its correction
//! step: the gain, the corrected state and the corrected error covariance.

use vstd::prelude::*;

use crate::matrix::{
    difference_of, inverse_of, product_of, sum_of, transpose_of, MatrixTerm, RealMatrix,
};

pub mod basic;

verus! {

/// Why a filter step could not be carried out.
#[derive(Debug, Clone, Copy, PartialEq, Eq, Structural)]
pub enum KalmanError {
    /// The innovation covariance `H·P·Hᵗ + R` has no inverse.
    NumericalSingularity,
}

/// The Kalman gain `P·Hᵗ·(H·P·Hᵗ + R)⁻¹` for the error covariance `P`, the
/// measurement matrix `H` and the measurement noise covariance `R`.
pub open spec fn kalman_gain<T>(
    p: MatrixTerm<T>,
    h: MatrixTerm<T>,
    r: MatrixTerm<T>,
) -> MatrixTerm<T> {
    product_of(
        product_of(p, transpose_of(h)),
        inverse_of(sum_of(product_of(product_of(h, p), transpose_of(h)), r)),
    )
}

/// The corrected state `x + K·(y − H·x)`.
pub open spec fn corrected_state<T>(
    k: MatrixTerm<T>,
    x: MatrixTerm<T>,
    y: MatrixTerm<T>,
    h: MatrixTerm<T>,
) -> MatrixTerm<T> {
    sum_of(x, product_of(k, difference_of(y, product_of(h, x))))
}

/// The corrected error covariance `(I − K·H)·P`, with `I` the `n × n` identity.
pub open spec fn corrected_covariance<T>(
    k: MatrixTerm<T>,
    p: MatrixTerm<T>,
    h: MatrixTerm<T>,
    n: nat,
) -> MatrixTerm<T> {
    product_of(difference_of(MatrixTerm::Identity(n), product_of(k, h)), p)
}

/// The predicted state `A·x + B·u`.
pub open spec fn predicted_state<T>(
    a: MatrixTerm<T>,
    x: MatrixTerm<T>,
    b: MatrixTerm<T>,
    u: MatrixTerm<T>,
) -> MatrixTerm<T> {
    sum_of(product_of(a, x), product_of(b, u))
}

/// The predicted error covariance `A·P·Aᵗ + Q`.
pub open spec fn predicted_covariance<T>(
    a: MatrixTerm<T>,
    p: MatrixTerm<T>,
    q: MatrixTerm<T>,
) -> MatrixTerm<T> {
    sum_of(product_of(product_of(a, p), transpose_of(a)), q)
}

/// Computes the Kalman gain `K = P·Hᵗ·(H·P·Hᵗ + R)⁻¹` for a fixed measurement
/// matrix `H` (`C × A`) and measurement noise covariance `R` (`C × C`).
#[verifier::reject_recursive_types(T)]
pub struct KalmanGainsController<T> {
    measurement: RealMatrix<T>,
    measurement_noise_covariance: RealMatrix<T>,
    /// `Hᵗ`, computed once.
    measurement_transpose: RealMatrix<T>,
}

impl<T: nalgebra::RealField> KalmanGainsController<T> {
    /// Size `A` of the state.
    pub closed spec fn state_dim(&self) -> nat {
        self.measurement.cols()
    }

    /// Size `C` of a measurement.
    pub closed spec fn output_dim(&self) -> nat {
        self.measurement.rows()
    }

    /// `H`.
    pub closed spec fn measurement(&self) -> MatrixTerm<T> {
        self.measurement.term()
    }

    /// `R`.
    pub closed spec fn measurement_noise_covariance(&self) -> MatrixTerm<T> {
        self.measurement_noise_covariance.term()
    }

    /// The matrices agree in shape with `state_dim` and `output_dim`, and the
    /// cached transpose is `Hᵗ`.
    pub closed spec fn wf(&self) -> bool {
        &&& self.measurement_noise_covariance.is_square(self.output_dim())
        &&& self.measurement_transpose.has_shape(self.state_dim(), self.output_dim())
        &&& self.measurement_transpose.term() == transpose_of(self.measurement.term())
    }

    /// A controller for `H` (`C × A`) and `R` (`C × C`); it computes `Hᵗ` once.
    pub fn new(
        measurement: RealMatrix<T>,
        measurement_noise_covariance: RealMatrix<T>,
    ) -> (r: Self)
        requires
            measurement_noise_covariance.is_square(measurement.rows()),
        ensures
            r.wf(),
            r.state_dim() == measurement.cols(),
            r.output_dim() == measurement.rows(),
            r.measurement() == measurement.term(),
            r.measurement_noise_covariance() == measurement_noise_covariance.term(),
    {
        let measurement_transpose = measurement.transpose();
        KalmanGainsController { measurement, measurement_noise_covariance, measurement_transpose }
    }

    /// The gain `P·Hᵗ·(H·P·Hᵗ + R)⁻¹` for the predicted error covariance `P`,
    /// or `NumericalSingularity` where `H·P·Hᵗ + R` has no inverse.
    pub fn next_gains(&self, error_covariance: RealMatrix<T>) -> (r: Result<
        RealMatrix<T>,
        KalmanError,
    >)
        requires
            self.wf(),
            error_covariance.is_square(self.state_dim()),
        ensures
            r matches Ok(k) ==> {
                &&& k.has_shape(self.state_dim(), self.output_dim())
                &&& k.term() == kalman_gain(
                    error_covariance.term(),
                    self.measurement(),
                    self.measurement_noise_covariance(),
                )
            },
            r matches Err(e) ==> e == KalmanError::NumericalSingularity,
    {
        let projected = error_covariance.mul(&self.measurement_transpose);
        let innovation_covariance = self.measurement.mul(&error_covariance).mul(
            &self.measurement_transpose,
        ).add(&self.measurement_noise_covariance);
        let inverse = innovation_covariance.try_inverse();
        gains_from_inverse(&projected, inverse)
    }
}

/// The gain `P·Hᵗ·S⁻¹` from `P·Hᵗ` (`A × C`) and the outcome of inverting the
/// innovation covariance `S` (`C × C`): `NumericalSingularity` exactly where
/// there was no inverse.
pub fn gains_from_inverse<T: nalgebra::RealField>(
    projected: &RealMatrix<T>,
    inverse: Option<RealMatrix<T>>,
) -> (r: Result<RealMatrix<T>, KalmanError>)
    requires
        inverse matches Some(s) ==> s.is_square(projected.cols()),
    ensures
        r is Err <==> inverse is None,
        r matches Err(e) ==> e == KalmanError::NumericalSingularity,
        r matches Ok(k) ==> {
            &&& k.has_shape(projected.rows(), projected.cols())
            &&& k.term() == product_of(projected.term(), inverse->Some_0.term())
        },
{
    match inverse {
        Some(s) => Ok(projected.mul(&s)),
        None => Err(KalmanError::NumericalSingularity),
    }
}

/// Corrects a predicted state with a gain: `x + K·(y − H·x)`.
#[verifier::reject_recursive_types(T)]
pub struct KalmanStateTransferFunction<T> {
    measurement: RealMatrix<T>,
}

impl<T: nalgebra::RealField> KalmanStateTransferFunction<T> {
    /// Size `A` of the state.
    pub closed spec fn state_dim(&self) -> nat {
        self.measurement.cols()
    }

    /// Size `C` of a measurement.
    pub closed spec fn output_dim(&self) -> nat {
        self.measurement.rows()
    }

    /// `H`.
    pub closed spec fn measurement(&self) -> MatrixTerm<T> {
        self.measurement.term()
    }

    /// A state corrector for `H` (`C × A`).
    pub fn new(measurement: RealMatrix<T>) -> (r: Self)
        ensures
            r.state_dim() == measurement.cols(),
            r.output_dim() == measurement.rows(),
            r.measurement() == measurement.term(),
    {
        KalmanStateTransferFunction { measurement }
    }

    /// The corrected state `x + K·(y − H·x)`, an `A × 1` column.
    pub fn eval(
        &self,
        kalman_gains: RealMatrix<T>,
        states: RealMatrix<T>,
        outputs: RealMatrix<T>,
    ) -> (r: RealMatrix<T>)
        requires
            kalman_gains.has_shape(self.state_dim(), self.output_dim()),
            states.has_shape(self.state_dim(), 1),
            outputs.has_shape(self.output_dim(), 1),
        ensures
            r.has_shape(self.state_dim(), 1),
            r.term() == corrected_state(
                kalman_gains.term(),
                states.term(),
                outputs.term(),
                self.measurement(),
            ),
    {
        let innovation = outputs.sub(&self.measurement.mul(&states));
        states.add(&kalman_gains.mul(&innovation))
    }
}

/// Corrects a predicted error covariance with a gain: `(I − K·H)·P`.
#[verifier::reject_recursive_types(T)]
pub struct KalmanErrorCovarianceTransferFunction<T> {
    measurement: RealMatrix<T>,
    /// The `A × A` identity, computed once.
    identity: RealMatrix<T>,
}

impl<T: nalgebra::RealField> KalmanErrorCovarianceTransferFunction<T> {
    /// Size `A` of the state.
    pub closed spec fn state_dim(&self) -> nat {
        self.measurement.cols()
    }

    /// Size `C` of a measurement.
    pub closed spec fn output_dim(&self) -> nat {
        self.measurement.rows()
    }

    /// `H`.
    pub closed spec fn measurement(&self) -> MatrixTerm<T> {
        self.measurement.term()
    }

    /// The cached matrix is the `A × A` identity.
    pub closed spec fn wf(&self) -> bool {
        &&& self.identity.is_square(self.state_dim())
        &&& self.identity.term() == MatrixTerm::<T>::Identity(self.state_dim())
    }

    /// A covariance corrector for `H` (`C × A`); it builds the `A × A`
    /// identity once.
    pub fn new(measurement: RealMatrix<T>) -> (r: Self)
        ensures
            r.wf(),
            r.state_dim() == measurement.cols(),
            r.output_dim() == measurement.rows(),
            r.measurement() == measurement.term(),
    {
        let identity = RealMatrix::identity(measurement.ncols());
        KalmanErrorCovarianceTransferFunction { measurement, identity }
    }

    /// The corrected error covariance `(I − K·H)·P`, `A × A`.
    pub fn eval(
        &self,
        kalman_gains: RealMatrix<T>,
        process_covariance: RealMatrix<T>,
    ) -> (r: RealMatrix<T>)
        requires
            self.wf(),
            kalman_gains.has_shape(self.state_dim(), self.output_dim()),
            process_covariance.is_square(self.state_dim()),
        ensures
            r.is_square(self.state_dim()),
            r.term() == corrected_covariance(
                kalman_gains.term(),
                process_covariance.term(),
                self.measurement(),
                self.state_dim(),
            ),
    {
        self.identity.sub(&kalman_gains.mul(&self.measurement)).mul(&process_covariance)
    }
}

/// A linear Kalman filter whose caller keeps the state estimate and the error
/// covariance between steps.
///
/// The model is `x' = A·x + B·u` with process noise covariance `Q`, measured as
/// `y = H·x` with measurement noise covariance `R`, for a state of size `A`,
/// an input of size `B` and a measurement of size `C`.
#[verifier::reject_recursive_types(T)]
pub struct KalmanFilter<T> {
    kalman_gains: KalmanGainsController<T>,
    state_transfer: KalmanStateTransferFunction<T>,
    error_covariance_transfer: KalmanErrorCovarianceTransferFunction<T>,
    process_noise: RealMatrix<T>,
    system: RealMatrix<T>,
    input: RealMatrix<T>,
}

impl<T: nalgebra::RealField> KalmanFilter<T> {
    /// Size `A` of the state.
    pub closed spec fn state_dim(&self) -> nat {
        self.system.rows()
    }

    /// Size `B` of an input.
    pub closed spec fn input_dim(&self) -> nat {
        self.input.cols()
    }

    /// Size `C` of a measurement.
    pub closed spec fn output_dim(&self) -> nat {
        self.kalman_gains.output_dim()
    }

    /// The system matrix `A`.
    pub closed spec fn system(&self) -> MatrixTerm<T> {
        self.system.term()
    }

    /// The input matrix `B`.
    pub closed spec fn input(&self) -> MatrixTerm<T> {
        self.input.term()
    }

    /// The process noise covariance `Q`.
    pub closed spec fn process_noise(&self) -> MatrixTerm<T> {
        self.process_noise.term()
    }

    /// The measurement matrix `H`.
    pub closed spec fn measurement(&self) -> MatrixTerm<T> {
        self.kalman_gains.measurement()
    }

    /// The measurement noise covariance `R`.
    pub closed spec fn measurement_noise_covariance(&self) -> MatrixTerm<T> {
        self.kalman_gains.measurement_noise_covariance()
    }

    /// The gain for the predicted error covariance `p`.
    pub open spec fn gain_for(&self, p: MatrixTerm<T>) -> MatrixTerm<T> {
        kalman_gain(p, self.measurement(), self.measurement_noise_covariance())
    }

    /// The state that a correction makes of the predicted state `x`, with the
    /// predicted error covariance `p` and the measurement `y`.
    pub open spec fn state_after(
        &self,
        p: MatrixTerm<T>,
        x: MatrixTerm<T>,
        y: MatrixTerm<T>,
    ) -> MatrixTerm<T> {
        corrected_state(self.gain_for(p), x, y, self.measurement())
    }

    /// The error covariance that a correction makes of the predicted `p`.
    pub open spec fn covariance_after(&self, p: MatrixTerm<T>) -> MatrixTerm<T> {
        corrected_covariance(self.gain_for(p), p, self.measurement(), self.state_dim())
    }

    /// Every matrix, and every part, agrees with one `(A, B, C)` and one `H`.
    pub closed spec fn wf(&self) -> bool {
        &&& self.system.is_square(self.state_dim())
        &&& self.input.rows() == self.state_dim()
        &&& self.process_noise.is_square(self.state_dim())
        &&& self.kalman_gains.wf()
        &&& self.kalman_gains.state_dim() == self.state_dim()
        &&& self.state_transfer.state_dim() == self.state_dim()
        &&& self.state_transfer.output_dim() == self.output_dim()
        &&& self.error_covariance_transfer.wf()
        &&& self.error_covariance_transfer.state_dim() == self.state_dim()
        &&& self.error_covariance_transfer.output_dim() == self.output_dim()
        &&& self.state_transfer.measurement() == self.measurement()
        &&& self.error_covariance_transfer.measurement() == self.measurement()
    }

    /// A filter from the system matrix `A` (`A × A`), the input matrix `B`
    /// (`A × B`), the process noise covariance `Q` (`A × A`), the measurement
    /// matrix `H` (`C × A`) and the measurement noise covariance `R` (`C × C`).
    pub fn new(
        system: RealMatrix<T>,
        input: RealMatrix<T>,
        process_noise: RealMatrix<T>,
        measurement: RealMatrix<T>,
        measurement_noise_covariance: RealMatrix<T>,
    ) -> (r: Self)
        requires
            system.rows() == system.cols(),
            input.rows() == system.rows(),
            process_noise.is_square(system.rows()),
            measurement.cols() == system.rows(),
            measurement_noise_covariance.is_square(measurement.rows()),
        ensures
            r.wf(),
            r.state_dim() == system.rows(),
            r.input_dim() == input.cols(),
            r.output_dim() == measurement.rows(),
            r.system() == system.term(),
            r.input() == input.term(),
            r.process_noise() == process_noise.term(),
            r.measurement() == measurement.term(),
            r.measurement_noise_covariance() == measurement_noise_covariance.term(),
    {
        let kalman_gains = KalmanGainsController::new(
            measurement.duplicate(),
            measurement_noise_covariance,
        );
        let state_transfer = KalmanStateTransferFunction::new(measurement.duplicate());
        let error_covariance_transfer = KalmanErrorCovarianceTransferFunction::new(measurement);
        KalmanFilter {
            kalman_gains,
            state_transfer,
            error_covariance_transfer,
            process_noise,
            system,
            input,
        }
    }

    /// The predicted state `A·x + B·u`, an `A × 1` column.
    pub fn predict_state(
        &self,
        state_estimate: RealMatrix<T>,
        inputs: RealMatrix<T>,
    ) -> (r: RealMatrix<T>)
        requires
            self.wf(),
            state_estimate.has_shape(self.state_dim(), 1),
            inputs.has_shape(self.input_dim(), 1),
        ensures
            r.has_shape(self.state_dim(), 1),
            r.term() == predicted_state(
                self.system(),
                state_estimate.term(),
                self.input(),
                inputs.term(),
            ),
    {
        self.system.mul(&state_estimate).add(&self.input.mul(&inputs))
    }

    /// The predicted error covariance `A·P·Aᵗ + Q`, `A × A`.
    pub fn predict_error_covariance(&self, error_covariance: RealMatrix<T>) -> (r: RealMatrix<T>)
        requires
            self.wf(),
            error_covariance.is_square(self.state_dim()),
        ensures
            r.is_square(self.state_dim()),
            r.term() == predicted_covariance(
                self.system(),
                error_covariance.term(),
                self.process_noise(),
            ),
    {
        self.system.mul(&error_covariance).mul(&self.system.transpose()).add(&self.process_noise)
    }

    /// One correction from the predicted error covariance `P`, the predicted
    /// state `x` and the measurement `y`: the gain `K` for `P`, then the
    /// corrected state `x + K·(y − H·x)` and error covariance `(I − K·H)·P`.
    /// `NumericalSingularity` where the gain cannot be computed.
    pub fn update(
        &self,
        error_covariance: RealMatrix<T>,
        state_estimates: RealMatrix<T>,
        outputs: RealMatrix<T>,
    ) -> (r: Result<(RealMatrix<T>, RealMatrix<T>), KalmanError>)
        requires
            self.wf(),
            error_covariance.is_square(self.state_dim()),
            state_estimates.has_shape(self.state_dim(), 1),
            outputs.has_shape(self.output_dim(), 1),
        ensures
            r matches Ok((x, p)) ==> {
                &&& x.has_shape(self.state_dim(), 1)
                &&& p.is_square(self.state_dim())
                &&& x.term() == self.state_after(
                    error_covariance.term(),
                    state_estimates.term(),
                    outputs.term(),
                )
                &&& p.term() == self.covariance_after(error_covariance.term())
            },
            r matches Err(e) ==> e == KalmanError::NumericalSingularity,
    {
        let kalman_gains = match self.kalman_gains.next_gains(error_covariance.duplicate()) {
            Ok(k) => k,
            Err(e) => {
                return Err(e);
            },
        };
        let new_state_estimate = self.state_transfer.eval(
            kalman_gains.duplicate(),
            state_estimates,
            outputs,
        );
        let new_error_covariance = self.error_covariance_transfer.eval(
            kalman_gains,
            error_covariance,
        );
        Ok((new_state_estimate, new_error_covariance))
    }
}

} // verus!
