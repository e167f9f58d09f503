//! The frame lifecycle of a windowed renderer, as a verified core.
//!
//! The library decides and describes; it performs no GPU or window call. A
//! driver owns the device, the queue and the surface, carries out what the core
//! asks for and reports back what the surface answered.

pub mod app;
pub mod graphics;
