//! The decision-making core of a renderer that draws one static batch of
//! rectangles into a window.
//!
//! - [`geometry`] turns rectangle descriptors into one vertex list and one
//!   index list.
//! - [`context`] says what to ask of adapter and device, and what a failed
//!   stage of that negotiation means.
//! - [`surface`] picks colour format and present mode from what a device
//!   advertises, and keeps the surface configuration through resizes.
//! - [`pipeline`] holds the shader program and the fixed pipeline state.
//! - [`frame`] plans one frame from the outcome of acquiring a texture.
//! - [`dispatch`] is the state machine that answers window events.
//!
//! Everything here works on plain values. Talking to the GPU and to the
//! windowing system is left to the embedding program.

pub mod context;
pub mod dispatch;
pub mod frame;
pub mod geometry;
pub mod pipeline;
pub mod surface;
