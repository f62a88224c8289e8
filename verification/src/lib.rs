//! A software wireframe renderer for a spinning cube.
//!
//! The pipeline works entirely in 16.16 signed fixed-point arithmetic:
//! a value `v` stands for the real number `v / 65536`.  Every stage is
//! an exact integer computation with a proved contract:
//!
//! * `geometry` — the cube's 8 vertices and 12 triangles;
//! * `fx`       — the fixed-point scalar operations;
//! * `transform`— model/view/projection matrices and their composition;
//! * `clip`     — the homogeneous visibility test;
//! * `project`  — perspective divide and viewport mapping;
//! * `raster`   — the pixel buffer and thick-line stamping;
//! * `pipeline` — one whole frame, triangle by triangle.

pub mod clip;
pub mod fx;
pub mod geometry;
pub mod pipeline;
pub mod project;
pub mod raster;
pub mod transform;
