//! Picking, selection and frame planning for an instanced 3D scene viewer.
//!
//! The library holds the decisions of the viewer: how a parsed mesh becomes a
//! model with its bounding box, which instance a ray hits first, which
//! instances a drag rectangle selects, how input events steer the camera, and
//! which draw calls make up a frame. Numbers are kept as IEEE 754 encodings
//! and only ever compared; computing them, and talking to the window and the
//! graphics device, is the caller's part.

pub mod buffer;
pub mod camera;
pub mod error;
pub mod input;
pub mod instance;
pub mod light;
pub mod models;
pub mod picking;
pub mod rect;
pub mod scalar;
pub mod state;
pub mod vertex;

pub use camera::{CameraController, CameraUniform, Ray};
pub use error::OrengineError;
pub use input::InputHandler;
pub use instance::{Instance, InstanceRaw};
pub use light::LightUniform;
pub use models::{load_model, Aabb, Material, Mesh, Model};
pub use scalar::Scalar;
pub use state::State;
pub use vertex::Vertex;
