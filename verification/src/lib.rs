//! Dense numerical kernels with a benchmarking harness.
//!
//! - [`scalar`]: the element types. A kernel is generic over its elements and
//!   its contract is stated over what the element type says its operations
//!   compute, term by term and in the order of the computation.
//! - [`ndarray`]: arrays of one, two and three dimensions whose shape is part
//!   of their type, and their allocation: a pending handle that is written
//!   cell by cell and becomes the array in one step, or an array of zeros.
//! - [`util`]: the benchmarking protocol. The cache is evicted, the injected
//!   time source is read, the task runs, the time source is read again, and
//!   the output goes through a sink that the optimizer cannot see through. A
//!   time source that went backwards is an error, never a wrapped duration.
//! - [`linear_algebra`], [`datamining`], [`medley`], [`stencils`]: the
//!   kernels. Each has a generator that fills its inputs with fixed functions
//!   of the indices and the shape, an in-place compute routine, and a `bench`
//!   that generates, times one run, and hands the output to the sink.
//! - [`definite`]: the quadratic form of a matrix of row products over the
//!   integers.
pub mod datamining;
pub mod definite;
pub mod linear_algebra;
pub mod medley;
pub mod ndarray;
pub mod scalar;
pub mod stencils;
pub mod util;
