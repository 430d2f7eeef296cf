use vstd::prelude::*;
use crate::pipeline::PipelineDesc;
use crate::surface::{PixelFormat, SurfaceConfig};
use crate::vertex::{triangle, triangle_spec, Vertex};
use crate::host::WindowEvent;

verus! {

/// A colour with 8-bit channels; 255 stands for full intensity.
#[derive(Clone, Copy, Debug, PartialEq, Eq, Structural)]
pub struct Rgba8 {
    pub r: u8,
    pub g: u8,
    pub b: u8,
    pub a: u8,
}

/// The colour the frame is cleared to before drawing: opaque white.
pub open spec fn opaque_white() -> Rgba8 {
    Rgba8 { r: 255, g: 255, b: 255, a: 255 }
}

/// One step of the work recorded for a frame, in submission order.
#[derive(Clone, Copy, Debug, PartialEq, Eq, Structural)]
pub enum RenderCommand {
    /// Acquire the next image of the surface.
    AcquireFrame,
    /// Open the command encoder.
    BeginCommands,
    /// Begin the render pass on the acquired image, clearing it first.
    BeginPass { clear: Rgba8 },
    /// Bind the vertex buffer, whole, to a slot.
    SetVertexBuffer { slot: u32 },
    /// Bind the render pipeline.
    SetPipeline,
    /// Draw vertices `first_vertex..vertex_end` of instances
    /// `first_instance..instance_end`.
    Draw { first_vertex: u32, vertex_end: u32, first_instance: u32, instance_end: u32 },
    /// Close the render pass.
    EndPass,
    /// Finish recording and submit the command buffer to the queue.
    Submit,
}

/// The commands that render one frame of `n` vertices.
pub open spec fn frame_plan(n: u32) -> Seq<RenderCommand> {
    seq![
        RenderCommand::AcquireFrame,
        RenderCommand::BeginCommands,
        RenderCommand::BeginPass { clear: opaque_white() },
        RenderCommand::SetVertexBuffer { slot: 0 },
        RenderCommand::SetPipeline,
        RenderCommand::Draw { first_vertex: 0, vertex_end: n, first_instance: 0, instance_end: 1 },
        RenderCommand::EndPass,
        RenderCommand::Submit,
    ]
}

/// Whether a command is a draw call.
pub open spec fn is_draw(c: RenderCommand) -> bool {
    c is Draw
}

/// The renderer once initialised: the surface's configuration, the pipeline
/// and the vertices it draws.
#[derive(Clone, Debug)]
pub struct Renderer {
    pub surface: SurfaceConfig,
    pub pipeline: PipelineDesc,
    pub vertices: Vec<Vertex>,
}

impl Renderer {
    /// The renderer's invariant: a standard surface, the pipeline built for
    /// its format, and the triangle's vertices.
    pub open spec fn wf(&self) -> bool {
        &&& self.surface.is_standard()
        &&& self.pipeline.is_standard_for(self.surface.format)
        &&& self.vertices@ == triangle_spec()
    }

    /// The renderer for a window of `width` x `height` physical pixels.
    pub fn new(width: u32, height: u32) -> (r: Renderer)
        ensures
            r.wf(),
            r.surface.width == width,
            r.surface.height == height,
            r.vertices@.len() == 3,
    {
        let surface = SurfaceConfig::new(width, height);
        let pipeline = PipelineDesc::new(PixelFormat::Bgra8UnormSrgb);
        let vertices = triangle();
        Renderer { surface, pipeline, vertices }
    }

    /// Number of vertices in the vertex buffer.
    pub fn num_vertices(&self) -> (r: u32)
        requires
            self.wf(),
        ensures
            r == self.vertices@.len(),
            r == 3,
    {
        self.vertices.len() as u32
    }

    /// Follows the window to a new size; the pipeline and the vertices are
    /// kept, and the surface is to be created anew with the new size.
    pub fn resize(&mut self, width: u32, height: u32)
        requires
            old(self).wf(),
        ensures
            final(self).wf(),
            final(self).surface.width == width,
            final(self).surface.height == height,
            final(self).surface.format == old(self).surface.format,
            final(self).pipeline == old(self).pipeline,
            final(self).vertices == old(self).vertices,
    {
        self.surface.resize(width, height);
    }

    /// Offers a window event to the renderer; it handles none, and keeps
    /// its state.
    pub fn input(&mut self, event: &WindowEvent) -> (r: bool)
        ensures
            !r,
            *final(self) == *old(self),
    {
        false
    }

    /// Advances the renderer's state between frames; there is none to advance.
    pub fn update(&mut self)
        ensures
            *final(self) == *old(self),
    {
    }

    /// The commands that render one frame: the image is cleared to opaque
    /// white and the whole vertex buffer is drawn once, in one pass.
    pub fn render(&self) -> (r: Vec<RenderCommand>)
        requires
            self.wf(),
        ensures
            r@ == frame_plan(self.vertices@.len() as u32),
    {
        let n = self.num_vertices();
        let white = Rgba8 { r: 255, g: 255, b: 255, a: 255 };
        let mut r: Vec<RenderCommand> = Vec::new();
        r.push(RenderCommand::AcquireFrame);
        r.push(RenderCommand::BeginCommands);
        r.push(RenderCommand::BeginPass { clear: white });
        r.push(RenderCommand::SetVertexBuffer { slot: 0 });
        r.push(RenderCommand::SetPipeline);
        r.push(
            RenderCommand::Draw { first_vertex: 0, vertex_end: n, first_instance: 0, instance_end: 1 },
        );
        r.push(RenderCommand::EndPass);
        r.push(RenderCommand::Submit);
        assert(r@ =~= frame_plan(n));
        r
    }
}

/// A frame of an initialised renderer holds exactly one draw call, which
/// covers vertices `0..3` of instance `0..1`, inside the one render pass.
pub proof fn lemma_single_draw(renderer: Renderer)
    requires
        renderer.wf(),
    ensures
        ({
            let plan = frame_plan(renderer.vertices@.len() as u32);
            &&& plan[5] == (RenderCommand::Draw {
                first_vertex: 0,
                vertex_end: 3,
                first_instance: 0,
                instance_end: 1,
            })
            &&& forall|j: int| 0 <= j < plan.len() && j != 5 ==> !is_draw(#[trigger] plan[j])
            &&& plan[2] is BeginPass && plan[6] is EndPass
            &&& forall|j: int|
                0 <= j < plan.len() && j != 2 ==> !(#[trigger] plan[j] is BeginPass)
        }),
{
    let plan = frame_plan(renderer.vertices@.len() as u32);
    assert forall|j: int| 0 <= j < plan.len() && j != 5 implies !is_draw(#[trigger] plan[j]) by {
        assert(j == 0 || j == 1 || j == 2 || j == 3 || j == 4 || j == 6 || j == 7);
    }
    assert forall|j: int| 0 <= j < plan.len() && j != 2 implies !(#[trigger] plan[j] is BeginPass) by {
        assert(j == 0 || j == 1 || j == 3 || j == 4 || j == 5 || j == 6 || j == 7);
    }
}

} // verus!
