//! Matrix and vector products.
pub mod gemm;
pub mod gemver;
pub mod gesummv;
pub mod symm;
pub mod syr2k;
pub mod syrk;
pub mod trmm;
