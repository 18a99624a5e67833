//! Frame orchestration for a small real-time rendering host: the event loop's
//! decisions, the surface's configuration lifecycle, the ordered steps of one
//! frame, and the scene's static geometry.
pub mod compositor;
pub mod frame;
pub mod geometry;
pub mod surface;
