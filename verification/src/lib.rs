//! Verified core of an instanced-rendering sketch: the triangle-fan index
//! buffer of the particle disc, the byte images of GPU buffers in a given byte
//! order, the per-frame clock and render-pass plan, the vertex layouts and
//! pipeline states, and
//! the window-event dispatch.
pub mod bytes;
pub mod events;
pub mod frame;
pub mod geometry;
pub mod layout;
