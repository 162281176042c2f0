//! Resource lifetime ordering: the documented creation order and the
//! teardown plan, which waits for the device to go idle and then
//! destroys the resources in the documented destruction order. That
//! order is the reverse of creation, except for one adjacent pair: the
//! debug messenger, created right after the instance, is released just
//! before the surface rather than just after it. Both depend on the
//! instance alone, so the driver admits either relative order.

use vstd::prelude::*;

verus! {

/// Every resource with a manual create/destroy pair, in the vocabulary
/// of the teardown plan.
#[derive(Clone, Copy, Debug, PartialEq, Eq, Structural)]
pub enum ResourceKind {
    Window,
    Instance,
    Surface,
    DebugMessenger,
    Device,
    Swapchain,
    ImageViews,
    RenderPass,
    PipelineLayout,
    Pipeline,
    Framebuffers,
    CommandPool,
    SyncObjects,
}

/// One step of the teardown plan.
#[derive(Clone, Copy, Debug, PartialEq, Eq, Structural)]
pub enum TeardownStep {
    /// Block until the device has no outstanding queue work. Must come
    /// strictly before the first destroy.
    WaitDeviceIdle,
    /// Release one resource.
    Destroy(ResourceKind),
}

/// The documented creation order of the resources, first created
/// first. The debug messenger exists only when diagnostics are
/// enabled, and is created immediately after the instance, before the
/// surface.
pub open spec fn spec_creation_order(diagnostics: bool) -> Seq<ResourceKind> {
    if diagnostics {
        seq![
            ResourceKind::Window,
            ResourceKind::Instance,
            ResourceKind::DebugMessenger,
            ResourceKind::Surface,
            ResourceKind::Device,
            ResourceKind::Swapchain,
            ResourceKind::ImageViews,
            ResourceKind::RenderPass,
            ResourceKind::PipelineLayout,
            ResourceKind::Pipeline,
            ResourceKind::Framebuffers,
            ResourceKind::CommandPool,
            ResourceKind::SyncObjects,
        ]
    } else {
        seq![
            ResourceKind::Window,
            ResourceKind::Instance,
            ResourceKind::Surface,
            ResourceKind::Device,
            ResourceKind::Swapchain,
            ResourceKind::ImageViews,
            ResourceKind::RenderPass,
            ResourceKind::PipelineLayout,
            ResourceKind::Pipeline,
            ResourceKind::Framebuffers,
            ResourceKind::CommandPool,
            ResourceKind::SyncObjects,
        ]
    }
}

/// The documented destruction order, first destroyed first: the
/// reverse of the creation order, except that the debug messenger is
/// released just before the surface instead of just after it.
pub open spec fn spec_destruction_order(diagnostics: bool) -> Seq<ResourceKind> {
    if diagnostics {
        seq![
            ResourceKind::SyncObjects,
            ResourceKind::CommandPool,
            ResourceKind::Framebuffers,
            ResourceKind::Pipeline,
            ResourceKind::PipelineLayout,
            ResourceKind::RenderPass,
            ResourceKind::ImageViews,
            ResourceKind::Swapchain,
            ResourceKind::Device,
            ResourceKind::DebugMessenger,
            ResourceKind::Surface,
            ResourceKind::Instance,
            ResourceKind::Window,
        ]
    } else {
        seq![
            ResourceKind::SyncObjects,
            ResourceKind::CommandPool,
            ResourceKind::Framebuffers,
            ResourceKind::Pipeline,
            ResourceKind::PipelineLayout,
            ResourceKind::RenderPass,
            ResourceKind::ImageViews,
            ResourceKind::Swapchain,
            ResourceKind::Device,
            ResourceKind::Surface,
            ResourceKind::Instance,
            ResourceKind::Window,
        ]
    }
}

/// The teardown plan: one device-idle wait, then one destroy per
/// created resource, in the documented destruction order.
pub open spec fn spec_teardown_plan(diagnostics: bool) -> Seq<TeardownStep> {
    seq![TeardownStep::WaitDeviceIdle] + spec_destruction_order(diagnostics).map_values(
        |k: ResourceKind| TeardownStep::Destroy(k),
    )
}

/// The creation order, first created first, as the shell performs it.
pub fn creation_order(diagnostics: bool) -> (r: Vec<ResourceKind>)
    ensures
        r@ == spec_creation_order(diagnostics),
{
    let mut order: Vec<ResourceKind> = Vec::new();
    order.push(ResourceKind::Window);
    order.push(ResourceKind::Instance);
    if diagnostics {
        order.push(ResourceKind::DebugMessenger);
    }
    order.push(ResourceKind::Surface);
    order.push(ResourceKind::Device);
    order.push(ResourceKind::Swapchain);
    order.push(ResourceKind::ImageViews);
    order.push(ResourceKind::RenderPass);
    order.push(ResourceKind::PipelineLayout);
    order.push(ResourceKind::Pipeline);
    order.push(ResourceKind::Framebuffers);
    order.push(ResourceKind::CommandPool);
    order.push(ResourceKind::SyncObjects);
    proof {
        assert(order@ =~= spec_creation_order(diagnostics));
    }
    order
}

/// The teardown steps, in execution order: wait for device idle, then
/// destroy every resource in the documented destruction order.
pub fn teardown_plan(diagnostics: bool) -> (r: Vec<TeardownStep>)
    ensures
        r@ == spec_teardown_plan(diagnostics),
{
    let mut steps: Vec<TeardownStep> = Vec::new();
    steps.push(TeardownStep::WaitDeviceIdle);
    steps.push(TeardownStep::Destroy(ResourceKind::SyncObjects));
    steps.push(TeardownStep::Destroy(ResourceKind::CommandPool));
    steps.push(TeardownStep::Destroy(ResourceKind::Framebuffers));
    steps.push(TeardownStep::Destroy(ResourceKind::Pipeline));
    steps.push(TeardownStep::Destroy(ResourceKind::PipelineLayout));
    steps.push(TeardownStep::Destroy(ResourceKind::RenderPass));
    steps.push(TeardownStep::Destroy(ResourceKind::ImageViews));
    steps.push(TeardownStep::Destroy(ResourceKind::Swapchain));
    steps.push(TeardownStep::Destroy(ResourceKind::Device));
    if diagnostics {
        steps.push(TeardownStep::Destroy(ResourceKind::DebugMessenger));
    }
    steps.push(TeardownStep::Destroy(ResourceKind::Surface));
    steps.push(TeardownStep::Destroy(ResourceKind::Instance));
    steps.push(TeardownStep::Destroy(ResourceKind::Window));
    proof {
        assert(steps@ =~= spec_teardown_plan(diagnostics));
    }
    steps
}

/// Teardown reverses creation: the plan opens with the device-idle
/// wait, every later step is a destroy, and the `i`-th step destroys
/// the resource created at position `n - i` of the creation order —
/// except, when diagnostics are enabled, for the debug messenger and
/// the surface: both depend on the instance alone, and the documented
/// order releases the messenger one step earlier than the strict
/// reverse would.
pub proof fn lemma_teardown_reverses_creation(diagnostics: bool)
    ensures
        spec_teardown_plan(diagnostics).len() == spec_creation_order(diagnostics).len() + 1,
        spec_teardown_plan(diagnostics)[0] == TeardownStep::WaitDeviceIdle,
        forall|i: int|
            1 <= i < spec_teardown_plan(diagnostics).len() ==> #[trigger] spec_teardown_plan(
                diagnostics,
            )[i] is Destroy,
        !diagnostics ==> forall|i: int|
            1 <= i <= spec_creation_order(diagnostics).len() ==> #[trigger] spec_teardown_plan(
                diagnostics,
            )[i] == TeardownStep::Destroy(
                spec_creation_order(diagnostics)[spec_creation_order(diagnostics).len() - i],
            ),
        diagnostics ==> forall|i: int|
            1 <= i <= spec_creation_order(diagnostics).len() && spec_creation_order(
                diagnostics,
            )[spec_creation_order(diagnostics).len() - i] != ResourceKind::DebugMessenger
                && spec_creation_order(diagnostics)[spec_creation_order(diagnostics).len() - i]
                != ResourceKind::Surface ==> #[trigger] spec_teardown_plan(diagnostics)[i]
                == TeardownStep::Destroy(
                spec_creation_order(diagnostics)[spec_creation_order(diagnostics).len() - i],
            ),
        diagnostics ==> spec_teardown_plan(diagnostics)[10] == TeardownStep::Destroy(
            ResourceKind::DebugMessenger,
        ) && spec_teardown_plan(diagnostics)[11] == TeardownStep::Destroy(ResourceKind::Surface),
{
}

} // verus!
