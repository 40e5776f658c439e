//! A software 3D rasterizer for an animated solar-system scene.
//!
//! Every scalar the pipeline computes with is a fixed-point number: an `i64`
//! holding the value scaled by 2^16. All operations saturate instead of
//! overflowing, so the pipeline degrades gracefully on extreme inputs rather
//! than faulting.

pub mod camera;
pub mod collision;
pub mod fragment;
pub mod framebuffer;
pub mod fx;
pub mod mat4;
pub mod noise;
pub mod raster;
pub mod scene;
pub mod shaders;
pub mod shapes;
pub mod skybox;
pub mod transforms;
pub mod vec3;
pub mod vertex;
