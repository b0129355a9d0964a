//! Fixed-function pipeline and render pass declarations.
//!
//! The engine draws with a single graphics pipeline bound to a single
//! render pass. These functions pin down every fixed-function choice the
//! engine makes — attachment operations and layout transitions, topology,
//! rasterization, blending, dynamic state — as plain configuration values
//! the shell translates one-for-one into the API's create-info structures.
//! Shader modules are build-time inputs only: they are destroyed right
//! after pipeline creation and never appear in the engine's state.

use vstd::prelude::*;

verus! {

/// What happens to an attachment's contents when the render pass begins.
#[derive(Clone, Copy, PartialEq, Eq, Structural, Debug)]
pub enum LoadOp {
    Clear,
    Load,
    DontCare,
}

/// What happens to an attachment's contents when the render pass ends.
#[derive(Clone, Copy, PartialEq, Eq, Structural, Debug)]
pub enum StoreOp {
    Store,
    DontCare,
}

/// The image layouts the single color attachment transitions between.
#[derive(Clone, Copy, PartialEq, Eq, Structural, Debug)]
pub enum ImageLayout {
    Undefined,
    ColorAttachmentOptimal,
    PresentSrc,
}

/// The render pass declaration: one color attachment, one subpass.
#[derive(Clone, Copy, PartialEq, Eq, Structural, Debug)]
pub struct RenderPassConfig {
    /// Raw format code of the color attachment; the swapchain's format.
    pub attachment_format: u32,
    /// Single-sampled.
    pub sample_count: u32,
    pub load_op: LoadOp,
    pub store_op: StoreOp,
    pub stencil_load_op: LoadOp,
    pub stencil_store_op: StoreOp,
    pub initial_layout: ImageLayout,
    pub final_layout: ImageLayout,
    /// How many attachments and subpasses the pass declares.
    pub attachment_count: u32,
    pub subpass_count: u32,
    /// The subpass's one color attachment reference.
    pub color_attachment_index: u32,
    pub color_attachment_layout: ImageLayout,
}

/// Declares the render pass for the given swapchain format: a single color
/// attachment that is cleared on load, kept on store, ignores stencil, and
/// transitions from undefined to present-ready across one subpass.
pub fn render_pass_config(swapchain_format: u32) -> (config: RenderPassConfig)
    ensures
        config.attachment_format == swapchain_format,
        config.sample_count == 1,
        config.load_op is Clear,
        config.store_op is Store,
        config.stencil_load_op is DontCare,
        config.stencil_store_op is DontCare,
        config.initial_layout is Undefined,
        config.final_layout is PresentSrc,
        config.attachment_count == 1,
        config.subpass_count == 1,
        config.color_attachment_index == 0,
        config.color_attachment_layout is ColorAttachmentOptimal,
{
    RenderPassConfig {
        attachment_format: swapchain_format,
        sample_count: 1,
        load_op: LoadOp::Clear,
        store_op: StoreOp::Store,
        stencil_load_op: LoadOp::DontCare,
        stencil_store_op: StoreOp::DontCare,
        initial_layout: ImageLayout::Undefined,
        final_layout: ImageLayout::PresentSrc,
        attachment_count: 1,
        subpass_count: 1,
        color_attachment_index: 0,
        color_attachment_layout: ImageLayout::ColorAttachmentOptimal,
    }
}

/// The two shader stages of the pipeline, in stage order.
#[derive(Clone, Copy, PartialEq, Eq, Structural, Debug)]
pub enum ShaderStage {
    Vertex,
    Fragment,
}

/// How primitives are assembled from vertices.
#[derive(Clone, Copy, PartialEq, Eq, Structural, Debug)]
pub enum Topology {
    TriangleList,
    TriangleStrip,
    PointList,
}

/// How polygons are rasterized.
#[derive(Clone, Copy, PartialEq, Eq, Structural, Debug)]
pub enum PolygonMode {
    Fill,
    Line,
}

/// Which faces are culled.
#[derive(Clone, Copy, PartialEq, Eq, Structural, Debug)]
pub enum CullMode {
    Disabled,
    Front,
    Back,
}

/// Which winding counts as front-facing.
#[derive(Clone, Copy, PartialEq, Eq, Structural, Debug)]
pub enum FrontFace {
    Clockwise,
    CounterClockwise,
}

/// Pipeline state set per frame rather than baked in at creation.
#[derive(Clone, Copy, PartialEq, Eq, Structural, Debug)]
pub enum DynamicState {
    Viewport,
    Scissor,
}

/// The graphics pipeline declaration.
#[derive(Debug)]
pub struct PipelineConfig {
    pub stages: Vec<ShaderStage>,
    /// No vertex input: geometry is fully shader-generated.
    pub vertex_binding_count: u32,
    pub vertex_attribute_count: u32,
    pub topology: Topology,
    pub primitive_restart: bool,
    pub polygon_mode: PolygonMode,
    pub cull_mode: CullMode,
    pub front_face: FrontFace,
    pub blend_enabled: bool,
    pub dynamic_states: Vec<DynamicState>,
    /// The pipeline layout declares no descriptor sets or push constants.
    pub descriptor_set_count: u32,
}

/// Declares the one graphics pipeline: vertex and fragment stages, no
/// vertex input, triangle-list topology, fill rasterization with back-face
/// culling and clockwise front face, no blending, and viewport and scissor
/// left dynamic, set per frame.
pub fn graphics_pipeline_config() -> (config: PipelineConfig)
    ensures
        config.stages@ == seq![ShaderStage::Vertex, ShaderStage::Fragment],
        config.vertex_binding_count == 0,
        config.vertex_attribute_count == 0,
        config.topology is TriangleList,
        !config.primitive_restart,
        config.polygon_mode is Fill,
        config.cull_mode is Back,
        config.front_face is Clockwise,
        !config.blend_enabled,
        config.dynamic_states@ == seq![DynamicState::Viewport, DynamicState::Scissor],
        config.descriptor_set_count == 0,
{
    let mut stages: Vec<ShaderStage> = Vec::new();
    stages.push(ShaderStage::Vertex);
    stages.push(ShaderStage::Fragment);
    let mut dynamic_states: Vec<DynamicState> = Vec::new();
    dynamic_states.push(DynamicState::Viewport);
    dynamic_states.push(DynamicState::Scissor);
    assert(stages@ =~= seq![ShaderStage::Vertex, ShaderStage::Fragment]);
    assert(dynamic_states@ =~= seq![DynamicState::Viewport, DynamicState::Scissor]);
    PipelineConfig {
        stages,
        vertex_binding_count: 0,
        vertex_attribute_count: 0,
        topology: Topology::TriangleList,
        primitive_restart: false,
        polygon_mode: PolygonMode::Fill,
        cull_mode: CullMode::Back,
        front_face: FrontFace::Clockwise,
        blend_enabled: false,
        dynamic_states,
        descriptor_set_count: 0,
    }
}

} // verus!
