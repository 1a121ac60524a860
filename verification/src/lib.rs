//! Verified driving logic for an ST7789-class TFT panel.
//!
//! The crate separates the decisions of the driver (what bytes go over the
//! bus, in which order, with which control-line changes and delays) from the
//! hardware that performs them.  Every operation of the display controller
//! returns the exact sequence of bus actions to perform; an embedding
//! program executes them on the real pins and serial peripheral.

pub mod bus;
pub mod framebuffer;
pub mod controller;
pub mod swapchain;
pub mod render;
