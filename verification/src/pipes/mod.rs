//! Building blocks shared by every pipeline: the vertex weight contract, the
//! growth-only buffer plan, the pipeline layout and the static shader module.

pub mod buffer;
pub mod builder;
pub mod layout;
pub mod module;
pub mod renderer;
pub mod vertex;

pub use self::buffer::{BufferAction, BufferModel, DrawCall, GpuVec, RenderStep};
pub use self::builder::PipelineBuilder;
pub use self::layout::{
    pipeline_layout, CullMode, FrontFace, PipelineLayout, PrimitiveTopology, VertexAttribute,
    VertexBufferDescriptor,
};
pub use self::module::{ShaderError, StaticShaderModule};
pub use self::renderer::{Frame, PipelineRenderer};
pub use self::vertex::GpuVertex;
