//! Kernels of dense linear algebra.
pub mod blas;
pub mod kernels;
pub mod products;
pub mod solvers;
