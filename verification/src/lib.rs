//! Verified core of an interactive image editor.
//!
//! The crate keeps a decoded bitmap and a small set of global color
//! adjustments (brightness, contrast, saturation), and decides when a
//! render pass against a graphics device is actually needed.  All values
//! that cross the host/device boundary are modeled as plain integers:
//! the three adjustment scalars are carried in thousandths, so that
//! clamping, encoding and the per-pixel transform are exact.

pub mod bitmap;
pub mod decode;
pub mod error;
pub mod params;
pub mod pipelines;
pub mod renderer;
pub mod shader;
pub mod size;
pub mod texture;
pub mod transform;
