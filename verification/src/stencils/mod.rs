//! Stencil kernels: a fixed number of time steps over a grid whose boundary
//! cells are left out of the updates.
pub mod adi;
pub mod fdtd_2d;
pub mod heat_3d;
pub mod jacobi_1d;
pub mod jacobi_2d;
pub mod seidel_2d;
