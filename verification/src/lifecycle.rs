//! Creation and teardown ordering.
//!
//! The engine owns every handle it creates and destroys all of them
//! deterministically on shutdown, after a full device idle wait. Destroying
//! an object while a dependent still references it is undefined behavior at
//! the API level, so the order is an invariant: teardown is the exact
//! reverse of creation, and creation never builds an object before what it
//! references. The shell drives destruction by walking [`teardown_order`].

use vstd::prelude::*;

verus! {

/// Every class of engine-owned resource, as the shell creates and destroys
/// them. Per-image and per-slot resources (image views, framebuffers, sync
/// objects) are destroyed as one group each; the command pool implicitly
/// frees its command buffers.
#[derive(Clone, Copy, PartialEq, Eq, Structural, Debug)]
pub enum Resource {
    Instance,
    DebugMessenger,
    Surface,
    Device,
    Swapchain,
    ImageViews,
    RenderPass,
    PipelineLayout,
    Pipeline,
    Framebuffers,
    CommandPool,
    SyncObjects,
}

/// The position of each resource in creation order.
pub open spec fn created_at(r: Resource) -> int {
    match r {
        Resource::Instance => 0,
        Resource::DebugMessenger => 1,
        Resource::Surface => 2,
        Resource::Device => 3,
        Resource::Swapchain => 4,
        Resource::ImageViews => 5,
        Resource::RenderPass => 6,
        Resource::PipelineLayout => 7,
        Resource::Pipeline => 8,
        Resource::Framebuffers => 9,
        Resource::CommandPool => 10,
        Resource::SyncObjects => 11,
    }
}

/// The documented creation order, as startup builds the static frame graph.
pub open spec fn spec_creation_order() -> Seq<Resource> {
    seq![
        Resource::Instance,
        Resource::DebugMessenger,
        Resource::Surface,
        Resource::Device,
        Resource::Swapchain,
        Resource::ImageViews,
        Resource::RenderPass,
        Resource::PipelineLayout,
        Resource::Pipeline,
        Resource::Framebuffers,
        Resource::CommandPool,
        Resource::SyncObjects,
    ]
}

/// The documented teardown order, driven after the device idle wait.
pub open spec fn spec_teardown_order() -> Seq<Resource> {
    seq![
        Resource::SyncObjects,
        Resource::CommandPool,
        Resource::Framebuffers,
        Resource::Pipeline,
        Resource::PipelineLayout,
        Resource::RenderPass,
        Resource::ImageViews,
        Resource::Swapchain,
        Resource::Device,
        Resource::Surface,
        Resource::DebugMessenger,
        Resource::Instance,
    ]
}

/// `a` directly references `b`: destroying `b` while `a` still exists is
/// undefined behavior. Only the references the engine actually creates are
/// listed; transitive dependencies follow through the chain.
pub open spec fn depends_on(a: Resource, b: Resource) -> bool {
    ||| (a is DebugMessenger && b is Instance)
    ||| (a is Surface && b is Instance)
    ||| (a is Device && b is Instance)
    ||| (a is Device && b is Surface)
    ||| (a is Swapchain && b is Device)
    ||| (a is Swapchain && b is Surface)
    ||| (a is ImageViews && b is Device)
    ||| (a is ImageViews && b is Swapchain)
    ||| (a is RenderPass && b is Device)
    ||| (a is PipelineLayout && b is Device)
    ||| (a is Pipeline && b is Device)
    ||| (a is Pipeline && b is PipelineLayout)
    ||| (a is Pipeline && b is RenderPass)
    ||| (a is Framebuffers && b is Device)
    ||| (a is Framebuffers && b is RenderPass)
    ||| (a is Framebuffers && b is ImageViews)
    ||| (a is CommandPool && b is Device)
    ||| (a is SyncObjects && b is Device)
}

/// Creation order lists every resource once, at its creation position.
pub proof fn lemma_creation_order_complete()
    ensures
        spec_creation_order().len() == 12,
        forall|r: Resource| spec_creation_order()[created_at(r)] == r,
        forall|r: Resource| 0 <= #[trigger] created_at(r) < 12,
{
    assert forall|r: Resource| spec_creation_order()[created_at(r)] == r by {
        match r {
            Resource::Instance => {},
            Resource::DebugMessenger => {},
            Resource::Surface => {},
            Resource::Device => {},
            Resource::Swapchain => {},
            Resource::ImageViews => {},
            Resource::RenderPass => {},
            Resource::PipelineLayout => {},
            Resource::Pipeline => {},
            Resource::Framebuffers => {},
            Resource::CommandPool => {},
            Resource::SyncObjects => {},
        }
    }
}

/// Teardown is the exact reverse of creation.
pub proof fn lemma_teardown_reverses_creation()
    ensures
        spec_teardown_order() =~= spec_creation_order().reverse(),
{
}

/// Creation never builds an object before an object it references.
pub proof fn lemma_creation_respects_dependencies()
    ensures
        forall|a: Resource, b: Resource| #[trigger] depends_on(a, b) ==> created_at(b) < created_at(
            a,
        ),
{
}

/// Teardown never destroys an object still referenced by a not-yet-destroyed
/// dependent: whenever `a` references `b`, teardown destroys `a` strictly
/// before `b`.
pub proof fn lemma_teardown_respects_dependencies()
    ensures
        forall|a: Resource, b: Resource| #[trigger] depends_on(a, b)
            ==> spec_teardown_order().index_of(a) < spec_teardown_order().index_of(b),
{
    assert forall|a: Resource, b: Resource| #[trigger] depends_on(a, b) implies spec_teardown_order(
    ).index_of(a) < spec_teardown_order().index_of(b) by {
        lemma_teardown_position(a);
        lemma_teardown_position(b);
        lemma_creation_respects_dependencies();
    }
}

/// Each resource stands in teardown order at the position mirroring its
/// creation position.
pub proof fn lemma_teardown_position(r: Resource)
    ensures
        spec_teardown_order().index_of(r) == 11 - created_at(r),
{
    let t = spec_teardown_order();
    assert(t[11 - created_at(r)] == r);
    assert(exists|j: int| 0 <= j < t.len() && t[j] == r);
    let i = t.index_of(r);
    assert(0 <= i < t.len() && t[i] == r);
    assert(i == 11 - created_at(r));
}

/// The teardown order for the shell to drive destruction with, one resource
/// class at a time, command buffers freed with their pool.
pub fn teardown_order() -> (order: Vec<Resource>)
    ensures
        order@ == spec_teardown_order(),
{
    let mut order: Vec<Resource> = Vec::new();
    order.push(Resource::SyncObjects);
    order.push(Resource::CommandPool);
    order.push(Resource::Framebuffers);
    order.push(Resource::Pipeline);
    order.push(Resource::PipelineLayout);
    order.push(Resource::RenderPass);
    order.push(Resource::ImageViews);
    order.push(Resource::Swapchain);
    order.push(Resource::Device);
    order.push(Resource::Surface);
    order.push(Resource::DebugMessenger);
    order.push(Resource::Instance);
    assert(order@ =~= spec_teardown_order());
    order
}

} // verus!
