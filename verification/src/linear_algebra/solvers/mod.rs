//! Factorizations and solvers of linear systems.
pub mod cholesky;
pub mod durbin;
pub mod gramschmidt;
pub mod input;
pub mod lu;
pub mod ludcmp;
pub mod trisolv;
