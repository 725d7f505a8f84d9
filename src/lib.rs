//! Render-task graph construction for off-screen picture surfaces.
//!
//! `picture` decides how each picture composites into its parent and builds the
//! render tasks that this needs; `surface` keeps the stack of surfaces open during
//! traversal, routes primitives to command buffers and wires the task graph,
//! including the resolve of a sub-graph into an ancestor's target. `graph` and
//! `cache` hold the task graph, command buffers, coordinate spaces and caches
//! that both drive, and `geom` the integer geometry they share.

pub mod cache;
pub mod geom;
pub mod graph;
pub mod picture;
pub mod surface;
