//! A verified toy linear-regression library: a one-dimensional linear model
//! (`y = intercept + slope * x`), a sum-of-squares loss, and two naive
//! optimizers (random search and forward-difference gradient descent), all
//! working over an exact decimal fixed-point number type.

pub mod fixed;
pub mod model;
pub mod optimize;
pub mod rng;
