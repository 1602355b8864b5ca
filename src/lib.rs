//! Fill tessellation support and frame-loop decisions for drawing 2-D vector
//! paths on a GPU surface.
//!
//! The library is generic over the point type: it never inspects coordinates,
//! it orders, validates and routes them. Geometry that needs arithmetic on
//! coordinates (curve subdivision, the planar sweep) is supplied by the caller.

pub mod error;
pub mod path;
pub mod flatten;
pub mod mesh;
pub mod tessellate;
pub mod render;
pub mod layout;
