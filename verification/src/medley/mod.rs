//! Kernels from image processing, graph search and sequence analysis.
pub mod deriche;
pub mod floyd_warshall;
pub mod nussinov;
pub mod shortest_paths;
