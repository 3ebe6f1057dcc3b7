//! The view-node combinator driven from outside: initial render, readiness
//! merging, batched state updates, forced changes, teardown.

use std::cell::RefCell;
use std::rc::Rc;

use actuate::node::source_node::SourceNode;
use actuate::node::text_node::TextNode;
use actuate::node::view_node::ViewNode;
use actuate::{
    use_state, Change, ContextText, Element, EchoRender, HookValue, Node, ProvideRender,
    Readiness, Render, Scope, Setter, ToggleRender, ViewContext,
};

/// A component with one integer state hook; it logs every render pass and
/// hands its setter out to the test.
struct CounterComp {
    id: u64,
    log: Rc<RefCell<Vec<i64>>>,
    setter_out: Rc<RefCell<Option<Setter>>>,
}

impl Render<()> for CounterComp {
    type Body = TextNode;

    fn render(&self, _view: &(), scope: &mut Scope) -> TextNode {
        let (v, setter) = use_state(scope, HookValue::I64(1));
        let n = match v {
            HookValue::I64(x) => x,
            _ => 0,
        };
        self.log.borrow_mut().push(n);
        *self.setter_out.borrow_mut() = Some(setter);
        TextNode { id: self.id, content: format!("{}", n) }
    }
}

/// A component whose body has an internal asynchronous source.
struct SourceComp {
    id: u64,
}

impl Render<()> for SourceComp {
    type Body = SourceNode;

    fn render(&self, _view: &(), scope: &mut Scope) -> SourceNode {
        let _ = scope;
        SourceNode { id: self.id, content: "tick".to_string() }
    }
}

fn counter() -> (ViewNode<(), CounterComp>, Rc<RefCell<Vec<i64>>>, Rc<RefCell<Option<Setter>>>) {
    let log = Rc::new(RefCell::new(Vec::new()));
    let setter_out = Rc::new(RefCell::new(None));
    let vn = ViewNode {
        view: (),
        f: CounterComp { id: 1, log: log.clone(), setter_out: setter_out.clone() },
    };
    (vn, log, setter_out)
}

#[test]
fn initial_view_renders_exactly_once() {
    let (vn, log, _setter) = counter();
    let mut e = vn.build();
    let mut cx = ViewContext::new();
    let changes = vn.view(&mut cx, &mut e);
    assert_eq!(log.borrow().as_slice(), &[1]);
    assert_eq!(
        changes,
        Some(vec![Change::Insert { id: 1, content: "1".to_string() }])
    );
}

#[test]
fn pending_indefinitely_without_sources() {
    let (vn, log, _setter) = counter();
    let mut e = vn.build();
    let mut cx = ViewContext::new();
    let _ = vn.view(&mut cx, &mut e);
    for _ in 0..3 {
        assert_eq!(vn.poll_ready(&mut e, false), Readiness::Pending);
    }
    // No spurious re-render happened.
    assert_eq!(log.borrow().as_slice(), &[1]);
}

#[test]
fn forced_change_dominates_internal_state() {
    let (vn, log, _setter) = counter();
    let mut e = vn.build();
    let mut cx = ViewContext::new();
    let _ = vn.view(&mut cx, &mut e);
    assert_eq!(vn.poll_ready(&mut e, false), Readiness::Pending);
    // A forced change makes the very next check ready, whatever the flags.
    assert_eq!(vn.poll_ready(&mut e, true), Readiness::Ready);
    let changes = vn.view(&mut cx, &mut e);
    // The forced change re-ran the render function once; state was still 1,
    // so the surface had nothing to change.
    assert_eq!(log.borrow().as_slice(), &[1, 1]);
    assert_eq!(changes, None);
}

#[test]
fn batched_updates_render_once_with_final_value() {
    let (vn, log, setter_out) = counter();
    let mut e = vn.build();
    let mut cx = ViewContext::new();
    let _ = vn.view(&mut cx, &mut e);
    let setter = setter_out.borrow().clone().unwrap();

    // Two updates before the next poll cycle: one ready report, one
    // re-render, showing the final value and no intermediate one.
    setter.set(HookValue::I64(2));
    setter.set(HookValue::I64(3));
    assert_eq!(vn.poll_ready(&mut e, false), Readiness::Ready);
    let changes = vn.view(&mut cx, &mut e);
    assert_eq!(log.borrow().as_slice(), &[1, 3]);
    assert_eq!(
        changes,
        Some(vec![Change::Modify { id: 1, content: "3".to_string() }])
    );

    // The batch was consumed: the next cycle is quiet again.
    assert_eq!(vn.poll_ready(&mut e, false), Readiness::Pending);
    assert_eq!(log.borrow().as_slice(), &[1, 3]);
}

#[test]
fn stale_setter_after_teardown_is_noop() {
    let (vn, log, setter_out) = counter();
    let mut e = vn.build();
    let mut cx = ViewContext::new();
    let _ = vn.view(&mut cx, &mut e);
    let setter = setter_out.borrow().clone().unwrap();

    let removal = e.remove();
    assert_eq!(removal, Some(vec![Change::Remove { id: 1 }]));
    drop(e);

    // The element (and with it the receiver) is gone; the captured setter
    // must not panic and must change nothing observable.
    setter.set(HookValue::I64(9));
    setter.set(HookValue::I64(10));
    assert_eq!(log.borrow().as_slice(), &[1]);
}

#[test]
fn source_wake_flows_through_readiness_merge() {
    let vn = ViewNode { view: (), f: SourceComp { id: 4 } };
    let mut e = vn.build();
    let mut cx = ViewContext::new();
    let changes = vn.view(&mut cx, &mut e);
    assert_eq!(
        changes,
        Some(vec![Change::Insert { id: 4, content: "tick".to_string() }])
    );

    assert_eq!(vn.poll_ready(&mut e, false), Readiness::Pending);

    // The internal source fires: the next check is ready without any state
    // update, and the body decides what (if anything) to emit.
    e.0.as_mut().unwrap().view_state.waker.wake();
    assert_eq!(vn.poll_ready(&mut e, false), Readiness::Ready);
    let changes = vn.view(&mut cx, &mut e);
    assert_eq!(changes, None);
}

#[test]
fn source_node_alone_merges_wake_and_force() {
    let node = SourceNode { id: 2, content: "beat".to_string() };
    let mut e = node.build();
    assert_eq!(node.poll_ready(&mut e, false), Readiness::Pending);
    e.waker.wake();
    assert_eq!(node.poll_ready(&mut e, false), Readiness::Ready);
    // The flag cleared on check: quiet again until the next wake or force.
    assert_eq!(node.poll_ready(&mut e, false), Readiness::Pending);
    assert_eq!(node.poll_ready(&mut e, true), Readiness::Ready);

    let mut cx = ViewContext::new();
    let changes = node.view(&mut cx, &mut e);
    assert_eq!(
        changes,
        Some(vec![Change::Insert { id: 2, content: "beat".to_string() }])
    );
}

#[test]
fn echo_shows_view_value() {
    let vn = ViewNode { view: "hello".to_string(), f: EchoRender { id: 8 } };
    let mut e = vn.build();
    let mut cx = ViewContext::new();
    let changes = vn.view(&mut cx, &mut e);
    assert_eq!(
        changes,
        Some(vec![Change::Insert { id: 8, content: "hello".to_string() }])
    );
}

#[test]
fn toggle_starts_off() {
    let vn = ViewNode {
        view: (),
        f: ToggleRender { id: 5, on: "on".to_string(), off: "off".to_string() },
    };
    let mut e = vn.build();
    let mut cx = ViewContext::new();
    let changes = vn.view(&mut cx, &mut e);
    assert_eq!(
        changes,
        Some(vec![Change::Insert { id: 5, content: "off".to_string() }])
    );
}

#[test]
fn nested_providers_nearest_wins() {
    // An outer provider says false, an inner provider for the same key says
    // true: the consumer observes its nearest ancestor provider.
    let consumer = ContextText {
        id: 6,
        key: 11,
        on: "inner".to_string(),
        off: "outer".to_string(),
    };
    let inner = ProvideRender {
        key: 11,
        value: HookValue::Bool(true),
        inner: consumer,
        marker: std::marker::PhantomData,
    };
    let outer = ProvideRender {
        key: 11,
        value: HookValue::Bool(false),
        inner,
        marker: std::marker::PhantomData,
    };
    let vn = ViewNode { view: (), f: outer };
    let mut e = vn.build();
    let mut cx = ViewContext::new();
    let changes = vn.view(&mut cx, &mut e);
    assert_eq!(
        changes,
        Some(vec![Change::Insert { id: 6, content: "inner".to_string() }])
    );
}

#[test]
fn consumer_without_provider_sees_absence() {
    let vn = ViewNode {
        view: (),
        f: ContextText { id: 7, key: 12, on: "found".to_string(), off: "missing".to_string() },
    };
    let mut e = vn.build();
    let mut cx = ViewContext::new();
    let changes = vn.view(&mut cx, &mut e);
    assert_eq!(
        changes,
        Some(vec![Change::Insert { id: 7, content: "missing".to_string() }])
    );
}
