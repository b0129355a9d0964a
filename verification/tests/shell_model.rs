//! Tests tying the model's raw codes and plans to the real graphics API and
//! event policy.

use ash::vk;
use paint_engine::events::{LoopAction, WindowEvent, handle_event};
use paint_engine::instance::make_version;
use paint_engine::pipeline::{graphics_pipeline_config, render_pass_config, CullMode, DynamicState,
    FrontFace, LoadOp, PolygonMode, ShaderStage, StoreOp, Topology, ImageLayout};
use paint_engine::swapchain::{
    COLOR_SPACE_SRGB_NONLINEAR, FORMAT_B8G8R8A8_SRGB, PRESENT_MODE_FIFO, PRESENT_MODE_MAILBOX,
};
use paint_engine::validation::{
    CATEGORY_GENERAL, CATEGORY_PERFORMANCE, CATEGORY_VALIDATION, SEVERITY_ERROR, SEVERITY_INFO,
    SEVERITY_VERBOSE, SEVERITY_WARNING,
};

#[test]
fn raw_codes_match_the_graphics_api() {
    assert_eq!(FORMAT_B8G8R8A8_SRGB, vk::Format::B8G8R8A8_SRGB.as_raw() as u32);
    assert_eq!(COLOR_SPACE_SRGB_NONLINEAR, vk::ColorSpaceKHR::SRGB_NONLINEAR.as_raw() as u32);
    assert_eq!(PRESENT_MODE_MAILBOX, vk::PresentModeKHR::MAILBOX.as_raw() as u32);
    assert_eq!(PRESENT_MODE_FIFO, vk::PresentModeKHR::FIFO.as_raw() as u32);
    assert_eq!(SEVERITY_VERBOSE, vk::DebugUtilsMessageSeverityFlagsEXT::VERBOSE.as_raw());
    assert_eq!(SEVERITY_INFO, vk::DebugUtilsMessageSeverityFlagsEXT::INFO.as_raw());
    assert_eq!(SEVERITY_WARNING, vk::DebugUtilsMessageSeverityFlagsEXT::WARNING.as_raw());
    assert_eq!(SEVERITY_ERROR, vk::DebugUtilsMessageSeverityFlagsEXT::ERROR.as_raw());
    assert_eq!(CATEGORY_GENERAL, vk::DebugUtilsMessageTypeFlagsEXT::GENERAL.as_raw());
    assert_eq!(CATEGORY_PERFORMANCE, vk::DebugUtilsMessageTypeFlagsEXT::PERFORMANCE.as_raw());
    assert_eq!(CATEGORY_VALIDATION, vk::DebugUtilsMessageTypeFlagsEXT::VALIDATION.as_raw());
}

#[test]
fn version_encoding_matches_the_api_packing() {
    assert_eq!(make_version(1, 0, 0), 1 << 22);
    assert_eq!(make_version(1, 2, 183), (1 << 22) | (2 << 12) | 183);
    assert_eq!(make_version(0, 0, 0), 0);
    assert_eq!(make_version(1023, 1023, 4095), u32::MAX);
}

#[test]
fn close_requested_exits() {
    assert_eq!(handle_event(WindowEvent::CloseRequested), LoopAction::Exit);
}

#[test]
fn redraw_requested_draws() {
    assert_eq!(handle_event(WindowEvent::RedrawRequested), LoopAction::Draw);
}

#[test]
fn other_events_ignored() {
    assert_eq!(handle_event(WindowEvent::Other), LoopAction::Ignore);
}

#[test]
fn render_pass_declares_clear_store_present() {
    let config = render_pass_config(FORMAT_B8G8R8A8_SRGB);
    assert_eq!(config.attachment_format, FORMAT_B8G8R8A8_SRGB);
    assert_eq!(config.sample_count, 1);
    assert_eq!(config.load_op, LoadOp::Clear);
    assert_eq!(config.store_op, StoreOp::Store);
    assert_eq!(config.stencil_load_op, LoadOp::DontCare);
    assert_eq!(config.stencil_store_op, StoreOp::DontCare);
    assert_eq!(config.initial_layout, ImageLayout::Undefined);
    assert_eq!(config.final_layout, ImageLayout::PresentSrc);
    assert_eq!(config.attachment_count, 1);
    assert_eq!(config.subpass_count, 1);
    assert_eq!(config.color_attachment_index, 0);
    assert_eq!(config.color_attachment_layout, ImageLayout::ColorAttachmentOptimal);
}

#[test]
fn pipeline_declares_the_fixed_function_state() {
    let config = graphics_pipeline_config();
    assert_eq!(config.stages, vec![ShaderStage::Vertex, ShaderStage::Fragment]);
    assert_eq!(config.vertex_binding_count, 0);
    assert_eq!(config.vertex_attribute_count, 0);
    assert_eq!(config.topology, Topology::TriangleList);
    assert!(!config.primitive_restart);
    assert_eq!(config.polygon_mode, PolygonMode::Fill);
    assert_eq!(config.cull_mode, CullMode::Back);
    assert_eq!(config.front_face, FrontFace::Clockwise);
    assert!(!config.blend_enabled);
    assert_eq!(config.dynamic_states, vec![DynamicState::Viewport, DynamicState::Scissor]);
    assert_eq!(config.descriptor_set_count, 0);
}
