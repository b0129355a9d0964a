use paint_engine::lifecycle::{Resource, teardown_order};

#[test]
fn teardown_is_exact_reverse_of_creation() {
    let creation = vec![
        Resource::Instance,
        Resource::DebugMessenger,
        Resource::Surface,
        Resource::Device,
        Resource::Swapchain,
        Resource::ImageViews,
        Resource::RenderPass,
        Resource::PipelineLayout,
        Resource::Pipeline,
        Resource::Framebuffers,
        Resource::CommandPool,
        Resource::SyncObjects,
    ];
    let mut reversed = creation.clone();
    reversed.reverse();
    assert_eq!(teardown_order(), reversed);
}

#[test]
fn teardown_destroys_dependents_first() {
    let order = teardown_order();
    let at = |r: Resource| order.iter().position(|x| *x == r).unwrap();
    // a few spot checks of the dependency chain
    assert!(at(Resource::Framebuffers) < at(Resource::ImageViews));
    assert!(at(Resource::ImageViews) < at(Resource::Swapchain));
    assert!(at(Resource::Swapchain) < at(Resource::Device));
    assert!(at(Resource::Pipeline) < at(Resource::PipelineLayout));
    assert!(at(Resource::Pipeline) < at(Resource::RenderPass));
    assert!(at(Resource::CommandPool) < at(Resource::Device));
    assert!(at(Resource::SyncObjects) < at(Resource::Device));
    assert!(at(Resource::Device) < at(Resource::Surface));
    assert!(at(Resource::Surface) < at(Resource::Instance));
    assert!(at(Resource::DebugMessenger) < at(Resource::Instance));
}
