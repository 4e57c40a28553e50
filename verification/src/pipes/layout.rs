use vstd::prelude::*;

verus! {

/// How the vertices of a pipeline are put together into primitives.
#[derive(Clone, Copy, Debug, PartialEq, Eq, Structural)]
pub enum PrimitiveTopology {
    /// Every vertex is a point of its own.
    PointList,
    /// Every two vertices are a line segment.
    LineList,
}

/// The winding of the faces that count as front faces.
#[derive(Clone, Copy, Debug, PartialEq, Eq, Structural)]
pub enum FrontFace {
    Ccw,
    Cw,
}

/// The faces that are not drawn.
#[derive(Clone, Copy, Debug, PartialEq, Eq, Structural)]
pub enum CullMode {
    /// Every face is drawn.
    Nothing,
    Front,
    Back,
}

/// One attribute of a vertex: where it starts inside the vertex and at which
/// location the shader reads it.
#[derive(Clone, Copy, Debug, PartialEq, Eq, Structural)]
pub struct VertexAttribute {
    pub offset: u64,
    pub shader_location: u32,
}

/// How the vertices lie in a vertex buffer: one after the other, each with a
/// position and a colour.
#[derive(Clone, Copy, Debug, PartialEq, Eq, Structural)]
pub struct VertexBufferDescriptor {
    /// The distance in bytes from one vertex to the next.
    pub stride: u64,
    /// The position of a vertex.
    pub position: VertexAttribute,
    /// The colour of a vertex.
    pub color: VertexAttribute,
}

/// The fixed part of a render pipeline.
#[derive(Clone, Copy, Debug, PartialEq, Eq, Structural)]
pub struct PipelineLayout {
    pub topology: PrimitiveTopology,
    pub front_face: FrontFace,
    pub cull_mode: CullMode,
    pub vertex_buffer: VertexBufferDescriptor,
    pub sample_count: u32,
}

/// The layout of a pipeline with the given topology over the given vertex
/// buffer: back faces are culled, front faces wind counter clockwise, and
/// every pixel is sampled once.
pub open spec fn spec_pipeline_layout(
    topology: PrimitiveTopology,
    vertex_buffer: VertexBufferDescriptor,
) -> PipelineLayout {
    PipelineLayout {
        topology,
        front_face: FrontFace::Ccw,
        cull_mode: CullMode::Back,
        vertex_buffer,
        sample_count: 1,
    }
}

/// Returns the layout of a pipeline with the given topology over the given
/// vertex buffer.
pub fn pipeline_layout(topology: PrimitiveTopology, vertex_buffer: VertexBufferDescriptor) -> (layout:
    PipelineLayout)
    ensures
        layout == spec_pipeline_layout(topology, vertex_buffer),
{
    PipelineLayout {
        topology,
        front_face: FrontFace::Ccw,
        cull_mode: CullMode::Back,
        vertex_buffer,
        sample_count: 1,
    }
}

} // verus!
