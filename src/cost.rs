use vstd::prelude::*;

use crate::error::LearnError;
use crate::model::{DataPoint, Model};
use crate::scalar::Scalar;

verus! {

/// Every datapoint of `data` has exactly `len` input features.
pub open spec fn inputs_all_have_len<S>(data: Seq<DataPoint<S>>, len: nat) -> bool {
    forall|k: int| 0 <= k < data.len() ==> (#[trigger] data[k]).inputs@.len() == len
}

/// `model` can be scored against `data`: there is at least one datapoint, and
/// each has as many features as the model expects.
pub open spec fn scorable<S, M: Model<S>>(model: &M, data: Seq<DataPoint<S>>) -> bool {
    data.len() > 0 && inputs_all_have_len(data, model.input_len())
}

/// Something that scores a model against labelled data, and derives the
/// gradient of that score with respect to the model's weights.
pub trait CostFunction<S> {
    /// The score of a model whose predictions on `data` are `predictions`
    /// (one for each datapoint, in order).
    spec fn cost_value(&self, predictions: Seq<S>, data: Seq<DataPoint<S>>) -> S;

    /// The gradient of that score with respect to the model's weights.
    spec fn gradient_value(&self, predictions: Seq<S>, data: Seq<DataPoint<S>>) -> Seq<S>;

    /// The aggregate loss of `model` over `datapoints`.
    fn cost<M: Model<S>>(&self, model: &M, datapoints: &[DataPoint<S>]) -> (r: Result<S, LearnError>)
        ensures
            datapoints@.len() == 0 ==> r == Err::<S, LearnError>(LearnError::EmptyDataset),
            datapoints@.len() > 0 && !scorable(model, datapoints@) ==> r == Err::<S, LearnError>(
                LearnError::DimensionMismatch,
            ),
            r is Ok <==> scorable(model, datapoints@),
            r is Ok ==> r->Ok_0 == self.cost_value(predictions_of(model, datapoints@), datapoints@),
    ;

    /// One partial derivative of the cost per input feature, in the order of
    /// the features.
    fn cost_gradient<M: Model<S>>(&self, model: &M, datapoints: &[DataPoint<S>]) -> (r: Result<
        Vec<S>,
        LearnError,
    >)
        ensures
            datapoints@.len() == 0 ==> r == Err::<Vec<S>, LearnError>(LearnError::EmptyDataset),
            datapoints@.len() > 0 && !scorable(model, datapoints@) ==> r == Err::<Vec<S>, LearnError>(
                LearnError::DimensionMismatch,
            ),
            r is Ok <==> scorable(model, datapoints@),
            r is Ok ==> r->Ok_0@.len() == datapoints@[0].inputs@.len(),
            r is Ok ==> r->Ok_0@ == self.gradient_value(predictions_of(model, datapoints@), datapoints@),
    ;
}

/// A model that can both predict and score.
pub trait GradientModel<S>: Model<S> + CostFunction<S> {

}

/// The predictions of `model` on the datapoints of `data`, in order.
pub open spec fn predictions_of<S, M: Model<S>>(model: &M, data: Seq<DataPoint<S>>) -> Seq<S> {
    Seq::new(data.len(), |k: int| model.prediction(data[k].inputs@))
}

/// The sum of the squared residuals `(predictions[j] - actual_j)` of the
/// first `k` datapoints, added up from the first one, starting from zero.
pub open spec fn squared_residual_sum<S: Scalar>(
    predictions: Seq<S>,
    data: Seq<DataPoint<S>>,
    k: nat,
) -> S
    decreases k,
{
    if k == 0 {
        S::spec_zero()
    } else {
        let e = S::spec_minus(predictions[k - 1], data[k - 1].actual);
        S::spec_plus(squared_residual_sum(predictions, data, (k - 1) as nat), S::spec_times(e, e))
    }
}

/// The sum of `(predictions[j] - actual_j) * inputs_j[i]` over the first `k`
/// datapoints, added up from the first one, starting from zero.
pub open spec fn weighted_residual_sum<S: Scalar>(
    predictions: Seq<S>,
    data: Seq<DataPoint<S>>,
    k: nat,
    i: int,
) -> S
    decreases k,
{
    if k == 0 {
        S::spec_zero()
    } else {
        S::spec_plus(
            weighted_residual_sum(predictions, data, (k - 1) as nat, i),
            S::spec_times(
                S::spec_minus(predictions[k - 1], data[k - 1].actual),
                data[k - 1].inputs@[i],
            ),
        )
    }
}

/// `sum of squared residuals / (2 * n)`, over the `n` datapoints of `data`.
pub open spec fn mean_squared_error<S: Scalar>(predictions: Seq<S>, data: Seq<DataPoint<S>>) -> S {
    S::spec_divided_by(
        squared_residual_sum(predictions, data, data.len()),
        S::spec_times(S::spec_from_count(2), S::spec_from_count(data.len() as usize)),
    )
}

/// Component `i` is `sum of residual * inputs[i] / n`, over the `n`
/// datapoints of `data`; one component per input of the first datapoint, and
/// none for the bias.
pub open spec fn mean_squared_error_gradient<S: Scalar>(
    predictions: Seq<S>,
    data: Seq<DataPoint<S>>,
) -> Seq<S> {
    Seq::new(
        data[0].inputs@.len(),
        |i: int|
            S::spec_divided_by(
                weighted_residual_sum(predictions, data, data.len(), i),
                S::spec_from_count(data.len() as usize),
            ),
    )
}

/// The mean squared error: the sum of the squared residuals over twice the
/// number of datapoints, where a residual is the prediction minus the label.
pub struct MeanSquaredError {}

impl MeanSquaredError {
    pub fn new() -> (r: Self) {
        MeanSquaredError {  }
    }
}

impl<S: Scalar> CostFunction<S> for MeanSquaredError {
    open spec fn cost_value(&self, predictions: Seq<S>, data: Seq<DataPoint<S>>) -> S {
        mean_squared_error(predictions, data)
    }

    open spec fn gradient_value(&self, predictions: Seq<S>, data: Seq<DataPoint<S>>) -> Seq<S> {
        mean_squared_error_gradient(predictions, data)
    }

    fn cost<M: Model<S>>(&self, model: &M, datapoints: &[DataPoint<S>]) -> (r: Result<S, LearnError>) {
        if datapoints.len() == 0 {
            return Err(LearnError::EmptyDataset);
        }
        let mut total = S::zero();
        let mut k: usize = 0;
        while k < datapoints.len()
            invariant
                k <= datapoints@.len(),
                inputs_all_have_len(datapoints@.take(k as int), model.input_len()),
                total == squared_residual_sum(predictions_of(model, datapoints@), datapoints@, k as nat),
            decreases datapoints@.len() - k,
        {
            let d = &datapoints[k];
            let predicted = match model.predict(d.inputs.as_slice()) {
                Ok(p) => p,
                Err(e) => {
                    return Err(e);
                },
            };
            let e = predicted.minus(&d.actual);
            total = total.plus(&e.times(&e));
            proof {
                assert(datapoints@.take(k + 1) == datapoints@.take(k as int).push(datapoints@[k as int]));
            }
            k = k + 1;
        }
        proof {
            assert(datapoints@.take(k as int) == datapoints@);
        }
        let count = S::from_count(datapoints.len());
        Ok(total.divided_by(&S::from_count(2).times(&count)))
    }

    /// The residual of each datapoint is computed once and reused for each of
    /// its features.
    fn cost_gradient<M: Model<S>>(&self, model: &M, datapoints: &[DataPoint<S>]) -> (r: Result<
        Vec<S>,
        LearnError,
    >) {
        if datapoints.len() == 0 {
            return Err(LearnError::EmptyDataset);
        }
        let dim = datapoints[0].inputs.len();
        let mut gradients: Vec<S> = Vec::new();
        let mut i: usize = 0;
        while i < dim
            invariant
                i <= dim,
                gradients@.len() == i,
                forall|j: int| 0 <= j < i ==> #[trigger] gradients@[j] == S::spec_zero(),
            decreases dim - i,
        {
            gradients.push(S::zero());
            i = i + 1;
        }
        let mut k: usize = 0;
        while k < datapoints.len()
            invariant
                dim == datapoints@[0].inputs@.len(),
                gradients@.len() == dim,
                k <= datapoints@.len(),
                k > 0 ==> dim == model.input_len(),
                inputs_all_have_len(datapoints@.take(k as int), model.input_len()),
                forall|j: int|
                    0 <= j < dim ==> #[trigger] gradients@[j] == weighted_residual_sum(
                        predictions_of(model, datapoints@),
                        datapoints@,
                        k as nat,
                        j,
                    ),
            decreases datapoints@.len() - k,
        {
            let d = &datapoints[k];
            let predicted = match model.predict(d.inputs.as_slice()) {
                Ok(p) => p,
                Err(e) => {
                    return Err(e);
                },
            };
            assert(d.inputs@.len() == dim);
            let e = predicted.minus(&d.actual);
            assert(e == S::spec_minus(predictions_of(model, datapoints@)[k as int], datapoints@[k as int].actual));
            let mut i: usize = 0;
            while i < dim
                invariant
                    gradients@.len() == dim,
                    d.inputs@.len() == dim,
                    i <= dim,
                    k < datapoints@.len(),
                    *d == datapoints@[k as int],
                    e == S::spec_minus(predictions_of(model, datapoints@)[k as int], datapoints@[k as int].actual),
                    forall|j: int|
                        0 <= j < i ==> #[trigger] gradients@[j] == weighted_residual_sum(
                            predictions_of(model, datapoints@),
                            datapoints@,
                            (k + 1) as nat,
                            j,
                        ),
                    forall|j: int|
                        i <= j < dim ==> #[trigger] gradients@[j] == weighted_residual_sum(
                            predictions_of(model, datapoints@),
                            datapoints@,
                            k as nat,
                            j,
                        ),
                decreases dim - i,
            {
                let g = gradients[i].plus(&e.times(&d.inputs[i]));
                gradients[i] = g;
                i = i + 1;
            }
            proof {
                assert(datapoints@.take(k + 1) == datapoints@.take(k as int).push(datapoints@[k as int]));
            }
            k = k + 1;
        }
        proof {
            assert(datapoints@.take(k as int) == datapoints@);
        }
        let count = S::from_count(datapoints.len());
        let mut i: usize = 0;
        while i < dim
            invariant
                gradients@.len() == dim,
                dim == datapoints@[0].inputs@.len(),
                i <= dim,
                count == S::spec_from_count(datapoints@.len() as usize),
                forall|j: int|
                    0 <= j < i ==> #[trigger] gradients@[j] == S::spec_divided_by(
                        weighted_residual_sum(predictions_of(model, datapoints@), datapoints@, datapoints@.len(), j),
                        count,
                    ),
                forall|j: int|
                    i <= j < dim ==> #[trigger] gradients@[j] == weighted_residual_sum(
                        predictions_of(model, datapoints@),
                        datapoints@,
                        datapoints@.len(),
                        j,
                    ),
            decreases dim - i,
        {
            let g = gradients[i].divided_by(&count);
            gradients[i] = g;
            i = i + 1;
        }
        assert(gradients@ == mean_squared_error_gradient(predictions_of(model, datapoints@), datapoints@));
        Ok(gradients)
    }
}

} // verus!
