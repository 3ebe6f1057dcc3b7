//! The polymorphic unit of the render tree: every renderable value exposes a
//! way to build persistent element state, a way to cooperatively
//! check-and-advance readiness, and a way to produce incremental changes.

use vstd::prelude::*;

use crate::scope::Scope;
use crate::use_context::ContextMap;

pub mod source_node;
pub use self::source_node::{FlagWaker, SourceElement, SourceNode};

pub mod text_node;
pub use self::text_node::{TextElement, TextNode};

pub mod view_node;
pub use self::view_node::{ViewNode, ViewNodeInner, ViewNodeState};

verus! {

/// Cooperative-polling result: whether a node has new output to emit now, or
/// will have later. Waiting is always expressed as "return `Pending`, resume
/// later" — never by blocking the caller.
#[derive(Clone, Copy, Debug, PartialEq, Eq, Structural)]
pub enum Readiness {
    /// The node has new output to emit.
    Ready,
    /// Nothing new now; a later wake re-triggers the check.
    Pending,
}

impl Readiness {
    /// Whether this is `Ready`.
    pub open spec fn spec_is_ready(self) -> bool {
        self is Ready
    }

    /// Whether this is `Ready`.
    #[verifier::when_used_as_spec(spec_is_ready)]
    pub fn is_ready(self) -> (r: bool)
        ensures
            r == self.spec_is_ready(),
    {
        match self {
            Readiness::Ready => true,
            Readiness::Pending => false,
        }
    }
}

/// An emitted diff record describing one structural or content mutation for
/// the rendering backend to apply; within one change list the order is the
/// order of application.
#[derive(Clone, Debug, PartialEq, Eq)]
pub enum Change {
    /// A surface entry appears, with this content.
    Insert { id: u64, content: String },
    /// An existing surface entry's content is replaced.
    Modify { id: u64, content: String },
    /// A surface entry is torn down.
    Remove { id: u64 },
}

/// Per-subtree composition context handed down `view` calls: the context map
/// the subtree composes in.
pub struct ViewContext {
    /// Provider frames visible to the subtree.
    pub contexts: ContextMap,
}

impl ViewContext {
    /// A root context: no provider in scope.
    pub fn new() -> (r: ViewContext)
        ensures
            r.contexts@ == Seq::<(u64, crate::HookValue)>::empty(),
    {
        ViewContext { contexts: ContextMap::new() }
    }
}

impl Clone for ViewContext {
    /// A copy carrying the very same provider frames.
    fn clone(&self) -> (r: Self)
        ensures
            r.contexts@ == self.contexts@,
    {
        ViewContext { contexts: self.contexts.clone() }
    }
}

/// The mutable runtime state paired with a node description. Element values
/// are long-lived: created once by `build`, mutated in place thereafter,
/// kept across re-renders of the owning node.
pub trait Element: Sized {
    /// The changes needed to tear down this element's contribution when its
    /// owning node is removed from the tree; recurses into child elements in
    /// build order.
    fn remove(&self) -> Option<Vec<Change>>;
}

/// A render-tree description value, polymorphic over the capability set
/// {build, poll_ready, view}.
///
/// The contract every node obeys: element well-formedness is established by
/// `build` and preserved by every operation; a forced `is_changed` makes
/// `poll_ready` report `Ready` at once (external force-changes dominate
/// internal readiness); and `view` leaves the caller's context map exactly as
/// it found it, so sibling subtrees never observe each other's providers.
pub trait Node: Sized {
    /// The persistent runtime state this node builds and mutates.
    type Element: Element;

    /// Well-formedness of element state; a property of the element's type,
    /// so it survives the owning node's description being rebuilt.
    spec fn wf_element(element: &Self::Element) -> bool;

    /// Allocate persistent element state from nothing; idempotent with
    /// respect to the node's own construction parameters.
    fn build(&self) -> (element: Self::Element)
        ensures
            Self::wf_element(&element),
    ;

    /// Cooperative, non-blocking readiness check: `Ready` when the node has
    /// new output (upstream signaled `is_changed`, or an internal
    /// asynchronous source fired); `Pending` otherwise. Never blocks.
    fn poll_ready(&self, element: &mut Self::Element, is_changed: bool) -> (r: Readiness)
        requires
            Self::wf_element(old(element)),
        ensures
            Self::wf_element(final(element)),
            is_changed ==> r is Ready,
    ;

    /// Produce the incremental change list for a just-confirmed-ready
    /// element (or none when nothing externally visible changed), updating
    /// internal state for the next cycle.
    fn view(&self, cx: &mut ViewContext, element: &mut Self::Element) -> (r: Option<Vec<Change>>)
        requires
            Self::wf_element(old(element)),
        ensures
            Self::wf_element(final(element)),
            final(cx).contexts@ == old(cx).contexts@,
    ;
}

/// The render function a view-node re-invokes on change: from a view value
/// and the owning scope to a fresh body node.
///
/// Implementors are user components. The stated contract is the composition
/// discipline every render function owes the engine: it keeps the scope
/// well-formed (it touches hooks only through the hook primitives) and it
/// leaves the context map as it found it (provider pushes and pops are
/// strictly nested).
pub trait Render<V>: Sized {
    /// The node this render function composes.
    type Body: Node;

    /// Compose the body for the current view value and hook state.
    fn render(&self, view: &V, scope: &mut Scope) -> (body: Self::Body)
        requires
            old(scope).wf(),
        ensures
            final(scope).wf(),
            final(scope).contexts@ == old(scope).contexts@,
    ;
}

} // verus!
