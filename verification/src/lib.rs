//! Core of a toroidal wave-field simulation: grid dimensions and addressing,
//! double-buffered field storage, and the generation of the per-cell compute
//! kernels that an OpenGL execution substrate dispatches over the grid.

pub mod address;
pub mod buffer;
pub mod grid;
pub mod kernel;
pub mod sim_code;
