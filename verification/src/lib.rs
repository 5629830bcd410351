//! Declarative UI staging and texture-atlas packing.
//!
//! Widgets are described once, in coordinates normalised to the viewport, and
//! collected in a registry grouped by geometry kind. Staging turns the registry
//! into a snapshot of instances, and the staging transform turns a snapshot and
//! a window size into the vertex, index and instance arrays of one draw call.
//! The atlas packer lays source images out side by side in one composite image
//! and records, for each of them, the half-texel-inset rectangle that samples it.
//!
//! The library is generic over the scalar type `S` of widget coordinates: it
//! moves scalars around and never computes with them. The one computation on
//! scalars, scaling a normalised coordinate by a window extent, is supplied by
//! the caller of the staging transform.

pub mod types;
pub mod geometry_map;
pub mod user_interface;
pub mod gui_backend;
pub mod atlas;
