//! VGA display adapter support.
pub mod crtc;
