//! A small scaffold for GPU demo applications: preferences for acquiring a
//! device and surface, per-frame event-loop decisions, and geometry/texture
//! descriptor helpers, all stated over plain values. The window system and
//! the GPU are driven by a thin unverified shell around this crate.

pub mod app;
pub mod gpu;
pub mod graphics;
