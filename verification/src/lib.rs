//! The verified core of a small ray tracer: 24-bit colours, the framebuffer
//! the tracer paints into, the textures it samples, the frame driver that
//! walks the pixels, and the bound on how deep secondary rays are followed.
//! The geometry and the light transport are floating-point code and live
//! with the program that uses this crate.

pub mod color;
pub mod depth;
pub mod framebuffer;
pub mod render;
pub mod texture;
