//! Conversion of open transportation data (road segments and the junction
//! connectors they share) into the edge and vertex records of a
//! routing-graph builder.
//!
//! - `model`: the input tables, and building them from the rows of the files.
//! - `resolver`: node indices; a vertex that matches one of its segment's
//!   connectors within 1e-6 degree shares that connector's node, any other
//!   vertex takes a fresh index.
//! - `permissions`, `mapping`: which travel modes may use a segment, by road
//!   class or by access restrictions with qualifier precedence.
//! - `graph`: the whole conversion, two directed edges per kept segment.
//! - `valhalla`: the edge and vertex records and their byte encoding (a
//!   layout of this library's own, not yet the routing engine's).
//! - `laws`: what holds of every conversion, proved.
//! - `admin`, `download`: the administrative database settings and the
//!   download queries.
//!
//! Coordinates are whole nanodegrees (1e-9 degree).

pub mod admin;
pub mod download;
pub mod express;
pub mod geometry;
pub mod graph;
pub mod laws;
pub mod logging;
pub mod mapping;
pub mod model;
pub mod permissions;
pub mod properties;
pub mod resolver;
pub mod text;
pub mod valhalla;
