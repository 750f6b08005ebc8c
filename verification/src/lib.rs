//! Verified core of a small wgpu/winit rendering tutorial: the window and
//! surface state machine, the frame decisions, the mesh and vertex-layout data
//! handed to the GPU, texture preparation and log-filter selection.

pub mod surface;
pub mod app;
pub mod mesh;
pub mod layout;
pub mod upload;
pub mod texture;
pub mod filter;
