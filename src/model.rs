use vstd::prelude::*;

use crate::error::LearnError;
use crate::scalar::Scalar;

verus! {

/// Something that maps an input vector to a prediction.
pub trait Model<S> {
    /// The number of input features that the model expects.
    spec fn input_len(&self) -> nat;

    /// The prediction for `inputs`, when they number `input_len()`.
    spec fn prediction(&self, inputs: Seq<S>) -> S;

    /// Fails with `DimensionMismatch` exactly when `inputs` does not hold
    /// `input_len()` features.
    fn predict(&self, inputs: &[S]) -> (r: Result<S, LearnError>)
        ensures
            r is Ok <==> inputs@.len() == self.input_len(),
            r is Ok ==> r->Ok_0 == self.prediction(inputs@),
            r is Err ==> r == Err::<S, LearnError>(LearnError::DimensionMismatch),
    ;
}

/// `inputs[0] * weights[0] + ... + inputs[k-1] * weights[k-1]`, summed from
/// the first index up, starting from zero.
pub open spec fn weighted_sum<S: Scalar>(inputs: Seq<S>, weights: Seq<S>, k: nat) -> S
    decreases k,
{
    if k == 0 {
        S::spec_zero()
    } else {
        S::spec_plus(
            weighted_sum(inputs, weights, (k - 1) as nat),
            S::spec_times(inputs[k - 1], weights[k - 1]),
        )
    }
}

/// A linear predictor: the weighted sum of the inputs plus a bias.
pub struct LinearRegression<S> {
    /// One weight per input feature.
    pub weights: Vec<S>,
    pub bias: S,
}

impl<S> LinearRegression<S> {
    pub fn new(weights: Vec<S>, bias: S) -> (r: Self)
        ensures
            r.weights@ == weights@,
            r.bias == bias,
    {
        LinearRegression { weights, bias }
    }
}

impl<S: Scalar> Model<S> for LinearRegression<S> {
    open spec fn input_len(&self) -> nat {
        self.weights@.len()
    }

    /// `bias + dot(weights, inputs)`, with the bias added last.
    open spec fn prediction(&self, inputs: Seq<S>) -> S {
        S::spec_plus(weighted_sum(inputs, self.weights@, inputs.len()), self.bias)
    }

    fn predict(&self, inputs: &[S]) -> (r: Result<S, LearnError>) {
        if inputs.len() != self.weights.len() {
            return Err(LearnError::DimensionMismatch);
        }
        let mut sum = S::zero();
        let mut i: usize = 0;
        while i < inputs.len()
            invariant
                i <= inputs@.len(),
                inputs@.len() == self.weights@.len(),
                sum == weighted_sum(inputs@, self.weights@, i as nat),
            decreases inputs@.len() - i,
        {
            sum = sum.plus(&inputs[i].times(&self.weights[i]));
            i = i + 1;
        }
        Ok(sum.plus(&self.bias))
    }
}

/// One labelled example: the input features and the true value.
pub struct DataPoint<S> {
    pub inputs: Vec<S>,
    pub actual: S,
}

impl<S> DataPoint<S> {
    pub fn new(inputs: Vec<S>, actual: S) -> (r: Self)
        ensures
            r.inputs@ == inputs@,
            r.actual == actual,
    {
        DataPoint { inputs, actual }
    }
}

} // verus!
