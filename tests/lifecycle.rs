use vkcore::lifecycle::{build_order, teardown_order, Component};

#[test]
fn teardown_reverses_build() {
    let mut b = build_order();
    b.reverse();
    assert_eq!(teardown_order(), b);
    assert_eq!(teardown_order()[0], Component::FrameBuffers);
    assert_eq!(*teardown_order().last().unwrap(), Component::Instance);
    assert_eq!(build_order().len(), 8);
}
