//! The order components are built in and torn down in.
use vstd::prelude::*;

verus! {

/// The components a context owns.
#[derive(Debug, Clone, Copy, PartialEq, Eq, Structural)]
pub enum Component {
    Instance,
    Surface,
    Device,
    CommandRing,
    Swapchain,
    DepthResources,
    RenderPass,
    FrameBuffers,
}

/// `a` holds or was made from a handle that `b` owns, so `b` must outlive
/// `a`.
pub open spec fn depends_on(a: Component, b: Component) -> bool {
    match a {
        Component::Instance => false,
        Component::Surface => b == Component::Instance,
        Component::Device => b == Component::Instance,
        Component::CommandRing => b == Component::Device,
        Component::Swapchain => b == Component::Device || b == Component::Surface,
        Component::DepthResources => b == Component::Device || b == Component::Swapchain,
        Component::RenderPass => b == Component::Device || b == Component::Swapchain || b
            == Component::DepthResources,
        Component::FrameBuffers => b == Component::Device || b == Component::Swapchain || b
            == Component::DepthResources || b == Component::RenderPass,
    }
}

pub open spec fn build_order_spec() -> Seq<Component> {
    seq![
        Component::Instance,
        Component::Surface,
        Component::Device,
        Component::CommandRing,
        Component::Swapchain,
        Component::DepthResources,
        Component::RenderPass,
        Component::FrameBuffers,
    ]
}

pub open spec fn teardown_order_spec() -> Seq<Component> {
    seq![
        Component::FrameBuffers,
        Component::RenderPass,
        Component::DepthResources,
        Component::Swapchain,
        Component::CommandRing,
        Component::Device,
        Component::Surface,
        Component::Instance,
    ]
}

/// Every component is built after everything it depends on.
pub fn build_order() -> (r: Vec<Component>)
    ensures
        r@ == build_order_spec(),
{
    let r = vec![
        Component::Instance,
        Component::Surface,
        Component::Device,
        Component::CommandRing,
        Component::Swapchain,
        Component::DepthResources,
        Component::RenderPass,
        Component::FrameBuffers,
    ];
    proof {
        assert(r@ =~= build_order_spec());
    }
    r
}

/// The reverse of the build order: every component is destroyed before
/// everything it depends on.
pub fn teardown_order() -> (r: Vec<Component>)
    ensures
        r@ == teardown_order_spec(),
        r@ == build_order_spec().reverse(),
{
    let r = vec![
        Component::FrameBuffers,
        Component::RenderPass,
        Component::DepthResources,
        Component::Swapchain,
        Component::CommandRing,
        Component::Device,
        Component::Surface,
        Component::Instance,
    ];
    proof {
        assert(r@ =~= teardown_order_spec());
        assert(build_order_spec().reverse() =~= teardown_order_spec());
    }
    r
}

/// Teardown is dependency-safe and destroys each component exactly once:
/// the order lists every component once, and a component comes before every
/// component it depends on.
pub proof fn lemma_teardown_is_dependency_safe()
    ensures
        teardown_order_spec().no_duplicates(),
        forall|c: Component| teardown_order_spec().contains(c),
        forall|i: int, j: int|
            0 <= i < j < teardown_order_spec().len() ==> !depends_on(
                #[trigger] teardown_order_spec()[j],
                #[trigger] teardown_order_spec()[i],
            ),
{
    let t = teardown_order_spec();
    assert(t[0] == Component::FrameBuffers);
    assert(t[1] == Component::RenderPass);
    assert(t[2] == Component::DepthResources);
    assert(t[3] == Component::Swapchain);
    assert(t[4] == Component::CommandRing);
    assert(t[5] == Component::Device);
    assert(t[6] == Component::Surface);
    assert(t[7] == Component::Instance);
    assert forall|c: Component| t.contains(c) by {
        match c {
            Component::FrameBuffers => assert(t[0] == c),
            Component::RenderPass => assert(t[1] == c),
            Component::DepthResources => assert(t[2] == c),
            Component::Swapchain => assert(t[3] == c),
            Component::CommandRing => assert(t[4] == c),
            Component::Device => assert(t[5] == c),
            Component::Surface => assert(t[6] == c),
            Component::Instance => assert(t[7] == c),
        }
    }
}

} // verus!
