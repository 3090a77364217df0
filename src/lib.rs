//! Geometry and draw-dispatch core of a small instanced renderer.
//!
//! The library holds the parts of the renderer that decide rather than
//! compute in floating point: the mesh/material aggregate, the sequence of
//! render-pass commands a draw request expands to, the pointer state machine
//! of the orbit camera, the triangle bookkeeping behind tangent averaging,
//! and the byte layouts of the vertex and instance records.
pub mod camera;
pub mod draw;
pub mod layout;
pub mod model;
pub mod shapes;
pub mod tangent;
