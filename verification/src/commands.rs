//! Static command buffer recording.
//!
//! The engine allocates one command buffer per swapchain image from a single
//! pool and records all of them once at startup; nothing is re-recorded per
//! frame, so the drawn content cannot vary without re-recording every
//! buffer. Each buffer clears its framebuffer to opaque black, binds the one
//! graphics pipeline, and issues a single non-indexed draw of 4 vertices.
//! [`record_plan`] says exactly what each buffer records; the shell replays
//! it through the graphics API.

use vstd::prelude::*;

verus! {

/// The fixed clear color of the render pass.
#[derive(Clone, Copy, PartialEq, Eq, Structural, Debug)]
pub enum ClearColor {
    OpaqueBlack,
}

/// One recorded command, in the order the buffer holds them.
#[derive(Clone, Copy, PartialEq, Eq, Structural, Debug)]
pub enum RecordStep {
    /// Begin the render pass on this image's framebuffer, clearing it.
    BeginRenderPass { framebuffer_index: usize, clear: ClearColor },
    /// Bind the single graphics pipeline.
    BindPipeline,
    /// One non-indexed draw.
    Draw { vertex_count: u32, instance_count: u32, first_vertex: u32, first_instance: u32 },
    /// End the render pass.
    EndRenderPass,
}

/// What the buffer for image `i` records: clear, bind, one draw of 4
/// vertices and 1 instance, end.
pub open spec fn spec_recording(i: int) -> Seq<RecordStep> {
    seq![
        RecordStep::BeginRenderPass {
            framebuffer_index: i as usize,
            clear: ClearColor::OpaqueBlack,
        },
        RecordStep::BindPipeline,
        RecordStep::Draw { vertex_count: 4, instance_count: 1, first_vertex: 0, first_instance: 0 },
        RecordStep::EndRenderPass,
    ]
}

/// Records the commands of one image's buffer.
pub fn record_buffer(image_index: usize) -> (steps: Vec<RecordStep>)
    ensures
        steps@ == spec_recording(image_index as int),
{
    let mut steps: Vec<RecordStep> = Vec::new();
    steps.push(
        RecordStep::BeginRenderPass {
            framebuffer_index: image_index,
            clear: ClearColor::OpaqueBlack,
        },
    );
    steps.push(RecordStep::BindPipeline);
    steps.push(
        RecordStep::Draw { vertex_count: 4, instance_count: 1, first_vertex: 0, first_instance: 0 },
    );
    steps.push(RecordStep::EndRenderPass);
    assert(steps@ =~= spec_recording(image_index as int));
    steps
}

/// Plans the whole recording pass: exactly one command buffer per swapchain
/// image, the buffer of image `i` drawing into framebuffer `i`.
pub fn record_plan(image_count: usize) -> (buffers: Vec<Vec<RecordStep>>)
    ensures
        buffers@.len() == image_count,
        forall|i: int| 0 <= i < image_count ==> #[trigger] buffers@[i]@ == spec_recording(i),
{
    let mut buffers: Vec<Vec<RecordStep>> = Vec::new();
    let mut i: usize = 0;
    while i < image_count
        invariant
            i <= image_count,
            buffers@.len() == i,
            forall|k: int| 0 <= k < i ==> #[trigger] buffers@[k]@ == spec_recording(k),
        decreases image_count - i,
    {
        buffers.push(record_buffer(i));
        i = i + 1;
    }
    buffers
}

} // verus!
