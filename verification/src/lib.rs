//! A terminal 3D point-cloud renderer, verified end to end over a
//! fixed-point integer model of the geometry.
//!
//! Every geometric quantity is an integer counted in `1/fixed::SCALE`
//! units of the real-valued quantity it stands for. The pipeline runs
//! one way per frame: a shape generates a finite point cloud, each point
//! is rotated by three accumulated Euler angles, projected through a
//! perspective division, and written into a depth-buffered character
//! grid. Printing the grid, pacing frames and enabling terminal escape
//! sequences are left to the embedding program.

pub mod fixed;
pub mod trig;
pub mod rotation;
pub mod shapes;
pub mod render;
