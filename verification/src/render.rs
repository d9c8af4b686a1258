//! Model storage, frame planning and the values they exchange with the
//! platform.

pub mod buffer;
pub mod encoding;
pub mod error;
pub mod frame;
pub mod mesh_storage;
pub mod renderer;
pub mod transform;

pub use error::RenderError;
pub use mesh_storage::{Model, ModelStorage};
pub use renderer::Renderer;
pub use transform::Transform;
