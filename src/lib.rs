//! A linear predictor and the mean squared error cost, with the cost's
//! gradient with respect to the predictor's weights, over any number type
//! that implements `scalar::Scalar`.

pub mod cost;
pub mod error;
pub mod init;
pub mod model;
pub mod scalar;
