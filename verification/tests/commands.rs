use paint_engine::commands::{ClearColor, RecordStep, record_buffer, record_plan};

#[test]
fn one_command_buffer_per_swapchain_image() {
    assert_eq!(record_plan(3).len(), 3);
    assert_eq!(record_plan(0).len(), 0);
}

#[test]
fn each_buffer_records_its_own_framebuffer() {
    let plan = record_plan(3);
    for (i, buffer) in plan.iter().enumerate() {
        assert_eq!(
            buffer[0],
            RecordStep::BeginRenderPass { framebuffer_index: i, clear: ClearColor::OpaqueBlack }
        );
    }
}

#[test]
fn recording_is_clear_bind_draw_end() {
    let steps = record_buffer(1);
    assert_eq!(
        steps,
        vec![
            RecordStep::BeginRenderPass { framebuffer_index: 1, clear: ClearColor::OpaqueBlack },
            RecordStep::BindPipeline,
            RecordStep::Draw {
                vertex_count: 4,
                instance_count: 1,
                first_vertex: 0,
                first_instance: 0,
            },
            RecordStep::EndRenderPass,
        ]
    );
}
