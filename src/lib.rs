//! Host-side logic of an offline renderer that turns a set of moving,
//! coloured seed points into one Voronoi image per frame.
//!
//! The library decides everything that does not need the graphics device:
//! which physical device to use, how a frame's parameters are derived, in
//! which order the per-frame stages run, how big the read-back buffer is,
//! how the read-back pixels are encoded and under which name each frame is
//! stored. The device work itself is performed by the caller.
pub mod device;
pub mod frame;
pub mod naming;
pub mod pipeline;
