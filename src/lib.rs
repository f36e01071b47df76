//! A discrete-time linear Kalman filter over dense matrices whose shapes are
//! checked by the verifier.

pub mod kalman;
pub mod matrix;
pub mod state_space;

pub use crate::matrix::{MatrixNum, RealMatrix};
pub use crate::kalman::basic::BasicKalmanFilter;
pub use crate::kalman::{
    KalmanError, KalmanErrorCovarianceTransferFunction, KalmanFilter, KalmanGainsController,
    KalmanStateTransferFunction,
};
pub use crate::state_space::{ContinuousTimeInvariant, StateSpaceNotation};
