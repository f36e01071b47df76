//! Linear time-invariant systems in state space notation.

use vstd::prelude::*;

use crate::kalman::predicted_state;
use crate::matrix::{product_of, sum_of, MatrixTerm, RealMatrix};

verus! {

/// A system in state space notation: it maps a state of size `state_dim` and
/// an input of size `input_dim` to the next state and to an output of size
/// `output_dim`.
pub trait StateSpaceNotation<T> {
    /// Size of the state.
    spec fn state_dim(&self) -> nat;

    /// Size of an input.
    spec fn input_dim(&self) -> nat;

    /// Size of an output.
    spec fn output_dim(&self) -> nat;

    /// The system's matrices agree with the three sizes.
    spec fn wf(&self) -> bool;

    /// The output for the given state and input, an `output_dim × 1` column.
    fn next_output(&self, states: RealMatrix<T>, inputs: RealMatrix<T>) -> (r: RealMatrix<T>) where
        T: nalgebra::RealField,
        requires
            self.wf(),
            states.has_shape(self.state_dim(), 1),
            inputs.has_shape(self.input_dim(), 1),
        ensures
            r.has_shape(self.output_dim(), 1),
    ;

    /// The next state for the given state and input, a `state_dim × 1` column.
    fn next_state(&self, states: RealMatrix<T>, inputs: RealMatrix<T>) -> (r: RealMatrix<T>) where
        T: nalgebra::RealField,
        requires
            self.wf(),
            states.has_shape(self.state_dim(), 1),
            inputs.has_shape(self.input_dim(), 1),
        ensures
            r.has_shape(self.state_dim(), 1),
    ;
}

/// A fixed system `x' = A·x + B·u`, `y = C·x + D·u`.
#[verifier::reject_recursive_types(T)]
pub struct ContinuousTimeInvariant<T> {
    system: RealMatrix<T>,
    input: RealMatrix<T>,
    output: RealMatrix<T>,
    feedthrough: RealMatrix<T>,
}

impl<T: nalgebra::RealField> ContinuousTimeInvariant<T> {
    /// `A`.
    pub closed spec fn system(&self) -> MatrixTerm<T> {
        self.system.term()
    }

    /// `B`.
    pub closed spec fn input(&self) -> MatrixTerm<T> {
        self.input.term()
    }

    /// `C`.
    pub closed spec fn output(&self) -> MatrixTerm<T> {
        self.output.term()
    }

    /// `D`.
    pub closed spec fn feedthrough(&self) -> MatrixTerm<T> {
        self.feedthrough.term()
    }

    /// A system from `A` (`n × n`), `B` (`n × m`), `C` (`p × n`) and `D`
    /// (`p × m`).
    pub fn new(
        system: RealMatrix<T>,
        input: RealMatrix<T>,
        output: RealMatrix<T>,
        feedthrough: RealMatrix<T>,
    ) -> (r: Self)
        requires
            system.rows() == system.cols(),
            input.rows() == system.rows(),
            output.cols() == system.rows(),
            feedthrough.has_shape(output.rows(), input.cols()),
        ensures
            r.wf(),
            r.state_dim() == system.rows(),
            r.input_dim() == input.cols(),
            r.output_dim() == output.rows(),
            r.system() == system.term(),
            r.input() == input.term(),
            r.output() == output.term(),
            r.feedthrough() == feedthrough.term(),
    {
        ContinuousTimeInvariant { system, input, output, feedthrough }
    }
}

impl<T> StateSpaceNotation<T> for ContinuousTimeInvariant<T> {
    closed spec fn state_dim(&self) -> nat {
        self.system.rows()
    }

    closed spec fn input_dim(&self) -> nat {
        self.input.cols()
    }

    closed spec fn output_dim(&self) -> nat {
        self.output.rows()
    }

    closed spec fn wf(&self) -> bool {
        &&& self.system.is_square(self.state_dim())
        &&& self.input.rows() == self.state_dim()
        &&& self.output.cols() == self.state_dim()
        &&& self.feedthrough.has_shape(self.output_dim(), self.input_dim())
    }

    /// `C·x + D·u`.
    fn next_output(&self, states: RealMatrix<T>, inputs: RealMatrix<T>) -> (r: RealMatrix<T>) where
        T: nalgebra::RealField,
        ensures
            r.term() == sum_of(
                product_of(self.output(), states.term()),
                product_of(self.feedthrough(), inputs.term()),
            ),
    {
        self.output.mul(&states).add(&self.feedthrough.mul(&inputs))
    }

    /// `A·x + B·u`.
    fn next_state(&self, states: RealMatrix<T>, inputs: RealMatrix<T>) -> (r: RealMatrix<T>) where
        T: nalgebra::RealField,
        ensures
            r.term() == predicted_state(self.system(), states.term(), self.input(), inputs.term()),
    {
        self.system.mul(&states).add(&self.input.mul(&inputs))
    }
}

} // verus!
