use vstd::prelude::*;

verus! {

/// An RGBA color with 8-bit channels, as recorded in a clear operation.
#[derive(Clone, Copy, Debug, PartialEq, Eq, Structural)]
pub struct Color {
    /// Red channel.
    pub r: u8,
    /// Green channel.
    pub g: u8,
    /// Blue channel.
    pub b: u8,
    /// Alpha channel; 0 is fully transparent.
    pub a: u8,
}

impl Color {
    /// Fully transparent black, the clear color of every frame.
    pub open spec fn transparent_spec() -> Color {
        Color { r: 0, g: 0, b: 0, a: 0 }
    }

    /// Returns fully transparent black.
    pub fn transparent() -> (c: Color)
        ensures
            c == Self::transparent_spec(),
    {
        Color { r: 0, g: 0, b: 0, a: 0 }
    }
}

/// One step of the per-frame rendering protocol, in the order the GPU
/// backend must execute them.
#[derive(Clone, Copy, Debug, PartialEq, Eq, Structural)]
pub enum RenderStep {
    /// Acquire the next presentable texture from the surface and open a
    /// command recording session over a default view of it.
    AcquireFrame,
    /// Begin one render pass over the acquired texture, clearing the color
    /// target to `clear` and storing the result.
    BeginPass {
        /// The color the target is cleared to.
        clear: Color,
    },
    /// Bind the fixed render pipeline, whose single color target has
    /// `format`.
    SetPipeline {
        /// The color target format the bound pipeline was built with.
        format: u32,
    },
    /// Issue one draw over the given vertex and instance ranges; no vertex
    /// buffers are bound, no indexed or indirect draw is used.
    Draw {
        /// First vertex index of the draw.
        first_vertex: u32,
        /// Number of vertices drawn.
        vertex_count: u32,
        /// First instance index of the draw.
        first_instance: u32,
        /// Number of instances drawn.
        instance_count: u32,
    },
    /// End the render pass and finish recording the command buffer.
    EndPass,
    /// Submit the single recorded command buffer to the queue.
    Submit,
    /// Present the acquired texture, making the frame visible.
    Present,
}

/// The plan of one frame for a pipeline with color target `format`: acquire,
/// then one pass that clears to transparent, binds the pipeline and draws one
/// triangle (vertices 0..3, instance 0..1), then submit, then present.
pub open spec fn frame_plan(format: u32) -> Seq<RenderStep> {
    seq![
        RenderStep::AcquireFrame,
        RenderStep::BeginPass { clear: Color::transparent_spec() },
        RenderStep::SetPipeline { format },
        RenderStep::Draw { first_vertex: 0, vertex_count: 3, first_instance: 0, instance_count: 1 },
        RenderStep::EndPass,
        RenderStep::Submit,
        RenderStep::Present,
    ]
}

/// Records the per-frame protocol for a pipeline with color target `format`.
pub fn build_frame_plan(format: u32) -> (plan: Vec<RenderStep>)
    ensures
        plan@ == frame_plan(format),
{
    let mut plan: Vec<RenderStep> = Vec::new();
    plan.push(RenderStep::AcquireFrame);
    plan.push(RenderStep::BeginPass { clear: Color::transparent() });
    plan.push(RenderStep::SetPipeline { format });
    plan.push(RenderStep::Draw { first_vertex: 0, vertex_count: 3, first_instance: 0, instance_count: 1 });
    plan.push(RenderStep::EndPass);
    plan.push(RenderStep::Submit);
    plan.push(RenderStep::Present);
    proof {
        assert(plan@ =~= frame_plan(format));
    }
    plan
}

/// Every frame performs acquire, then the recorded pass (clear to
/// transparent, bind the pipeline, draw 3 vertices and 1 instance), then
/// submit, then present — in that order, each exactly once per frame.
pub proof fn lemma_frame_plan_ordered(format: u32)
    ensures
        frame_plan(format).len() == 7,
        frame_plan(format)[0] is AcquireFrame,
        frame_plan(format)[1] == (RenderStep::BeginPass { clear: Color::transparent_spec() }),
        frame_plan(format)[2] == (RenderStep::SetPipeline { format }),
        frame_plan(format)[3] == (RenderStep::Draw {
            first_vertex: 0,
            vertex_count: 3,
            first_instance: 0,
            instance_count: 1,
        }),
        frame_plan(format)[4] is EndPass,
        frame_plan(format)[5] is Submit,
        frame_plan(format)[6] is Present,
{
}

} // verus!
