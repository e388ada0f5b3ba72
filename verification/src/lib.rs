//! Platform-independent logic of a WebGPU demo that renders a compute-shader
//! image to a window or a canvas.

pub mod dispatch;
pub mod surface;
pub mod frame;
pub mod lifecycle;
pub mod bindings;
pub mod limits;
pub mod pipelines;
