//! Verified core of a progressive ray tracer.
//!
//! The renderer's floating-point pipeline (geometry, shading, tone mapping)
//! lives outside this crate; what is verified here is the machinery around it:
//! the double-buffer swap chain that hands completed frames from the render
//! thread to a display consumer, the incremental renderer's sample-count
//! bookkeeping, and the binary PPM image encoding.

pub mod image_ppm;
pub mod renderer;
pub mod swapchain;
pub mod utils;
