//! Verified core of an offline path tracer.
//!
//! The renderer's double-precision geometry and shading arithmetic cannot be
//! checked by the verifier, so this crate holds the parts of the rendering
//! core that are exact: pixel-grid enumeration and raster-order collection,
//! sample accounting, the bounce-budget decision of the recursive shader,
//! random integer drawing, and the text formatting of pixel triplets and
//! progress readouts.

pub mod color;
pub mod progress;
pub mod raster;
pub mod rng;
pub mod select;
pub mod shading;
