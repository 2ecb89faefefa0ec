//! Chains of matrix and vector products.
pub mod _2mm;
pub mod _3mm;
pub mod atax;
pub mod bicg;
pub mod doitgen;
pub mod mvt;
