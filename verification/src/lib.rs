//! Styling and clipping core of a vector-graphics document renderer.
//!
//! Two loosely coupled components:
//!
//! * a style resolution engine: it parses CSS property text
//!   (font-size, font-weight, letter-spacing, font-family) into typed
//!   values, computes cascade-resolved values from the inherited style,
//!   and normalizes lengths into user-space pixels, and
//! * a clip geometry engine: it applies a clip-defining subtree to a
//!   drawing surface, either in user space or relative to the clipped
//!   element's bounding box, restoring the surface transform on every
//!   exit path.
//!
//! Magnitudes are exact rational numbers, so cascade arithmetic such as
//! the 1.2 font-size ratio is computed and specified exactly.

pub mod clip_path;
pub mod error;
pub mod font_props;
pub mod length;
pub mod num;
pub mod scan;
pub mod surface;
