use vstd::prelude::*;
use crate::surface::PixelFormat;
use crate::vertex::{StepMode, Vertex, VertexLayout};

verus! {

/// How vertices are assembled into primitives.
#[derive(Clone, Copy, Debug, PartialEq, Eq, Structural)]
pub enum Topology {
    TriangleList,
}

/// Which winding marks a triangle as facing the viewer.
#[derive(Clone, Copy, Debug, PartialEq, Eq, Structural)]
pub enum FrontFace {
    Ccw,
    Cw,
}

/// Which triangles are discarded before rasterisation.
#[derive(Clone, Copy, Debug, PartialEq, Eq, Structural)]
pub enum CullMode {
    Never,
    Front,
    Back,
}

/// How a fragment's output is combined with what the target already holds.
#[derive(Clone, Copy, Debug, PartialEq, Eq, Structural)]
pub enum Blend {
    /// The fragment's value replaces the old one.
    Replace,
}

/// The width of index values, were an index buffer bound.
#[derive(Clone, Copy, Debug, PartialEq, Eq, Structural)]
pub enum IndexFormat {
    Uint16,
}

/// The one colour target of the pipeline.
#[derive(Clone, Copy, Debug, PartialEq, Eq, Structural)]
pub struct ColorTarget {
    pub format: PixelFormat,
    pub color_blend: Blend,
    pub alpha_blend: Blend,
    /// All four channels are written.
    pub write_all: bool,
}

/// Everything the render pipeline is built from.
#[derive(Clone, Debug)]
pub struct PipelineDesc {
    /// Number of bind group layouts: the shaders read no resources.
    pub bind_group_layouts: usize,
    pub has_fragment_stage: bool,
    pub front_face: FrontFace,
    pub cull_mode: CullMode,
    pub depth_bias: i32,
    pub color_targets: Vec<ColorTarget>,
    pub topology: Topology,
    pub depth_stencil: bool,
    pub index_format: IndexFormat,
    pub vertex_buffers: Vec<VertexLayout>,
    pub sample_count: u32,
    pub sample_mask: u32,
    pub alpha_to_coverage: bool,
}

impl PipelineDesc {
    /// The fixed pipeline for a surface of pixel format `format`.
    pub open spec fn is_standard_for(&self, format: PixelFormat) -> bool {
        &&& self.bind_group_layouts == 0
        &&& self.has_fragment_stage
        &&& self.front_face == FrontFace::Ccw
        &&& self.cull_mode == CullMode::Back
        &&& self.depth_bias == 0
        &&& self.color_targets@ == seq![
            ColorTarget {
                format,
                color_blend: Blend::Replace,
                alpha_blend: Blend::Replace,
                write_all: true,
            },
        ]
        &&& self.topology == Topology::TriangleList
        &&& !self.depth_stencil
        &&& self.index_format == IndexFormat::Uint16
        &&& self.vertex_buffers@.len() == 1
        &&& self.vertex_buffers@[0].is_packed()
        &&& self.vertex_buffers@[0].step_mode == StepMode::Vertex
        &&& self.vertex_buffers@[0].stride == crate::vertex::VERTEX_BYTES
        &&& self.sample_count == 1
        &&& self.sample_mask == u32::MAX
        &&& !self.alpha_to_coverage
    }

    /// Builds the pipeline description; it depends on the surface's pixel
    /// format alone, never on its size.
    pub fn new(format: PixelFormat) -> (r: PipelineDesc)
        ensures
            r.is_standard_for(format),
    {
        let mut color_targets: Vec<ColorTarget> = Vec::new();
        color_targets.push(
            ColorTarget {
                format,
                color_blend: Blend::Replace,
                alpha_blend: Blend::Replace,
                write_all: true,
            },
        );
        let mut vertex_buffers: Vec<VertexLayout> = Vec::new();
        vertex_buffers.push(Vertex::desc());
        PipelineDesc {
            bind_group_layouts: 0,
            has_fragment_stage: true,
            front_face: FrontFace::Ccw,
            cull_mode: CullMode::Back,
            depth_bias: 0,
            color_targets,
            topology: Topology::TriangleList,
            depth_stencil: false,
            index_format: IndexFormat::Uint16,
            vertex_buffers,
            sample_count: 1,
            sample_mask: u32::MAX,
            alpha_to_coverage: false,
        }
    }
}

} // verus!
