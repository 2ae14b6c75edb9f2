//! Rounded-box meshes and lattice point sets.
//!
//! The crate builds the vertex and index buffers of a cuboid whose edges and
//! corners are bevelled, and produces the integer lattice points at which
//! copies of such a box are placed: along a random walk, or following a map
//! drawn in characters.

pub mod geometry;
pub mod indices;
pub mod layout;
pub mod map;
pub mod mesh;
pub mod point;
pub mod topology;
pub mod walk;

pub use crate::indices::{triangle_indices, Corner, Edge, Fidelity};
pub use crate::layout::{vertex_layout, Anchor, Axis, Face, VertexLayout};
pub use crate::map::{from_map, get_world_points};
pub use crate::mesh::{build, Mesh, SoftBox, Vertex};
pub use crate::point::PointI32;
pub use crate::walk::{walk, walk_along, Direction};
