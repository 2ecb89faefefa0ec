//! Statistics over the columns of a data matrix.
pub mod columns;
pub mod correlation;
pub mod covariance;
