//! Surface configuration and render state for a single-window triangle renderer.

pub mod color;
pub mod event;
pub mod frame;
pub mod laws;
pub mod pipeline;
pub mod state;
pub mod surface;
