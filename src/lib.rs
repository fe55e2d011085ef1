//! A minimal real-time rendering host: the surface lifecycle, the per-frame
//! render protocol and the mapping from window input to render state.
//!
//! The graphics device and the window are driven by the caller; this crate
//! decides what is configured, what is recorded for each frame and how input
//! and surface failures change the session.
pub mod frame;
pub mod input;
pub mod laws;
pub mod session;
pub mod state;
pub mod surface;
pub mod window;
