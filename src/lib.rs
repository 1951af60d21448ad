//! Procedural meshes for two parametric solids, a cube and a subdivided
//! cylinder. Each generator hands out its surface either polygon by polygon,
//! or as a list of shared vertices together with polygons of indices into it.
//! Both forms are derived from the same vertex formulas, and the contracts of
//! the two generators state that they agree.
pub mod polygon;
pub mod cube;
pub mod cylinder;

pub use polygon::{Polygon, Quad, Triangle};
pub use cube::{CellCorner, Cube, CubeVertex, Point3};
pub use cylinder::{Cylinder, CylinderVertex, Facing, TexPlace};

