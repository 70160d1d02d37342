//! Setup logic and correctness oracle for benchmarking GPU reductions.
//!
//! The device calls themselves live outside this crate. What is here is the
//! part that decides: which values go to the GPU, which shapes a launch takes,
//! how large its buffers are, and whether a result read back is correct.

pub mod cache;
pub mod data;
pub mod dataset;
pub mod device;
pub mod image;
pub mod launch;
pub mod reduce;
pub mod subgroup;
pub mod tiles;
