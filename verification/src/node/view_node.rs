//! The view-node combinator: the composition engine that holds a view value
//! and a render function, owns the produced child node tree, and merges two
//! independent readiness sources — incoming state updates and child subtree
//! readiness — into one re-render decision.

use vstd::prelude::*;

use tokio::sync::mpsc::UnboundedReceiver;

use crate::node::{Change, Element, Node, Readiness, Render, ViewContext};
use crate::scope::{apply_updates_spec, drain_updates, Scope, Update};

verus! {

/// The long-lived state of a built view-node: everything created by the
/// first `view` call and mutated in place thereafter.
pub struct ViewNodeInner<V, S> {
    /// The body produced by the most recent run of the render function.
    /// Replaced wholesale on re-render; its element state below is not.
    pub view: V,
    /// The context the body subtree composes in.
    pub view_cx: ViewContext,
    /// The body's persistent element state, kept across re-renders.
    pub view_state: S,
    /// Hook slots, cursor, context map, and the sender half of the update
    /// channel.
    pub scope: Scope,
    /// Receiver half of the update channel; drained at the start of every
    /// readiness check.
    pub rx: UnboundedReceiver<Update>,
    /// Whether the body subtree reported readiness in the last check;
    /// consumed by the next `view` call.
    pub is_body_ready: bool,
    /// Whether state updates arrived (or upstream forced a change) in the
    /// last check; consumed by the next `view` call.
    pub is_rx_ready: bool,
    /// How many times the render function has run for this element.
    pub renders: Ghost<int>,
}

/// Element state of a view-node: `None` until the first `view` call builds
/// the scope, the body and the body's element.
pub struct ViewNodeState<V, S>(pub Option<ViewNodeInner<V, S>>);

impl<V: Node, S: Element> Element for ViewNodeState<V, S> {
    /// Tear down: the body subtree's own teardown changes, if the node was
    /// ever built.
    fn remove(&self) -> (r: Option<Vec<Change>>)
        ensures
            self.0 is None ==> r is None,
    {
        match &self.0 {
            Some(state) => state.view_state.remove(),
            None => None,
        }
    }
}

/// The view-node combinator: a view value paired with the render function
/// that composes its body; the unit that actually performs re-render on
/// change.
pub struct ViewNode<V, F: Render<V>> {
    /// The view value handed to every run of the render function.
    pub view: V,
    /// The render function.
    pub f: F,
}

impl<V, F: Render<V>> Node for ViewNode<V, F> {
    type Element = ViewNodeState<F::Body, <F::Body as Node>::Element>;

    /// A built element keeps its scope's hook-cursor discipline and its
    /// body's own element well-formedness — a property of the body's type,
    /// so replacing the body value on re-render preserves it.
    open spec fn wf_element(element: &Self::Element) -> bool {
        element.0 matches Some(s) ==> s.scope.wf() && <F::Body as Node>::wf_element(&s.view_state)
    }

    /// Element state starts unbuilt; the first `view` call populates it.
    fn build(&self) -> (element: Self::Element)
        ensures
            element.0 is None,
    {
        ViewNodeState(None)
    }

    /// The readiness merge. Drain the update channel and apply every queued
    /// update to the hook slots in arrival order; poll the body, forcing a
    /// change on it if updates arrived; report `Ready` iff upstream forced a
    /// change, updates arrived, or the body is ready, recording the two
    /// sources in the element's flags for the subsequent `view` call.
    fn poll_ready(&self, element: &mut Self::Element, is_changed: bool) -> (r: Readiness)
        ensures
            old(element).0 is None ==> r is Ready && *final(element) == *old(element),
            old(element).0 matches Some(s) ==> (final(element).0 matches Some(t) && t.view
                == s.view && t.view_cx == s.view_cx && t.renders == s.renders && t.scope.idx
                == s.scope.idx && t.scope.contexts == s.scope.contexts && (exists|us: Seq<Update>|
                #![auto]
                t.scope.hooks@ == apply_updates_spec(s.scope.hooks@, us) && (r is Ready
                    ==> t.is_rx_ready == (is_changed || us.len() > 0)) && (r is Pending ==> us.len()
                    == 0)) && (r is Pending ==> t.is_rx_ready == s.is_rx_ready && t.is_body_ready
                == s.is_body_ready && t.scope.hooks@ == s.scope.hooks@ && !is_changed) && (
            r is Ready ==> (t.is_rx_ready || t.is_body_ready)) && (is_changed ==> t.is_rx_ready)),
    {
        match &mut element.0 {
            Some(state) => {
                let updates = drain_updates(&mut state.rx);
                let applied = state.scope.apply_updates(&updates);
                let body_r = state.view.poll_ready(&mut state.view_state, is_changed || applied);
                if is_changed || body_r.is_ready() || applied {
                    state.is_body_ready = body_r.is_ready();
                    state.is_rx_ready = applied || is_changed;
                    Readiness::Ready
                } else {
                    Readiness::Pending
                }
            },
            None => Readiness::Ready,
        }
    }

    /// The re-render decision. On the first call, create the scope and its
    /// update channel, run the render function once, build the body's
    /// element and emit its initial changes. Thereafter: if state actually
    /// changed (`is_rx_ready`), reset the hook cursor and re-run the render
    /// function exactly once, replacing the body wholesale while the body's
    /// element state persists; then delegate to the body's `view` if either
    /// readiness source fired, and emit nothing at all otherwise.
    fn view(&self, cx: &mut ViewContext, element: &mut Self::Element) -> (r: Option<Vec<Change>>)
        ensures
            old(element).0 is None ==> (final(element).0 matches Some(t) && t.renders@ == 1
                && !t.is_rx_ready && !t.is_body_ready && t.scope.wf() && t.scope.contexts@ == old(
                cx,
            ).contexts@ && t.view_cx.contexts@ == old(cx).contexts@),
            old(element).0 matches Some(s) ==> (final(element).0 matches Some(t) && t.renders@
                == s.renders@ + (if s.is_rx_ready {
                1int
            } else {
                0int
            }) && t.is_rx_ready == s.is_rx_ready && t.is_body_ready == s.is_body_ready && (
            s.is_rx_ready ==> t.scope.contexts@ == s.scope.contexts@) && (!s.is_rx_ready ==> t.view
                == s.view && t.scope == s.scope) && (!s.is_rx_ready && !s.is_body_ready
                ==> r is None && *final(element) == *old(element))),
    {
        match &mut element.0 {
            Some(state) => {
                if state.is_rx_ready {
                    state.scope.idx = 0;
                    let body = self.f.render(&self.view, &mut state.scope);
                    state.view = body;
                    state.renders = Ghost(state.renders@ + 1);
                }
                if state.is_rx_ready || state.is_body_ready {
                    state.view.view(&mut state.view_cx, &mut state.view_state)
                } else {
                    None
                }
            },
            None => {
                let mut view_cx = cx.clone();
                let (mut scope, rx) = Scope::new(cx.contexts.clone());
                let body = self.f.render(&self.view, &mut scope);
                let mut view_state = body.build();
                let changes = body.view(&mut view_cx, &mut view_state);
                element.0 = Some(
                    ViewNodeInner {
                        view: body,
                        view_cx,
                        view_state,
                        scope,
                        rx,
                        is_body_ready: false,
                        is_rx_ready: false,
                        renders: Ghost(1),
                    },
                );
                changes
            },
        }
    }
}

} // verus!
