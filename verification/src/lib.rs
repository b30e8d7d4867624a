//! Typed errors for a host-side binding to the CUDA driver API.
//!
//! Nearly every entry point of the driver returns a numeric status, and some of
//! them report failures of earlier asynchronous work. This crate turns each status
//! into a [`CudaError`] that host code can match on, hand upwards and render.

pub mod error;
pub mod laws;
pub mod render;
pub mod status;

pub use error::{CudaError, CudaResult, DropResult};
pub use render::{finish_render, start_render, RenderError, RenderStep};
pub use status::{to_drop_result, ToResult};
