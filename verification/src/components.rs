//! Canonical components: small verified render functions that illustrate the
//! composition protocol — plain composition, state hooks, context consumers
//! and a provider combinator.

use vstd::prelude::*;

use crate::node::text_node::TextNode;
use crate::node::{Render, ViewContext};
use crate::scope::Scope;
use crate::use_context::{lookup_spec, use_context};
use crate::use_provider::use_provider;
use crate::use_state::use_state;
use crate::HookValue;

verus! {

/// The simplest component: show the view value itself.
pub struct EchoRender {
    /// Identity of the surface entry the body drives.
    pub id: u64,
}

impl Render<String> for EchoRender {
    type Body = TextNode;

    /// The body shows exactly the current view value.
    fn render(&self, view: &String, scope: &mut Scope) -> (body: TextNode)
        ensures
            body.id == self.id,
            body.content@ == view@,
    {
        TextNode { id: self.id, content: view.clone() }
    }
}

/// A stateful component: a boolean state hook chooses between two contents.
pub struct ToggleRender {
    /// Identity of the surface entry the body drives.
    pub id: u64,
    /// Content shown while the state hook holds `Bool(true)`.
    pub on: String,
    /// Content shown otherwise.
    pub off: String,
}

impl Render<()> for ToggleRender {
    type Body = TextNode;

    /// Reads (or allocates, off) the boolean hook at the next slot; the body
    /// shows `on` exactly when the hook holds `Bool(true)`.
    fn render(&self, view: &(), scope: &mut Scope) -> (body: TextNode)
        ensures
            body.id == self.id,
            old(scope).idx < old(scope).hooks@.len() ==> body.content@ == (if old(
                scope,
            ).hooks@[old(scope).idx as int] == HookValue::Bool(true) {
                self.on@
            } else {
                self.off@
            }),
            old(scope).idx == old(scope).hooks@.len() ==> body.content@ == self.off@,
    {
        let (value, _setter) = use_state(scope, HookValue::Bool(false));
        let content = match value {
            HookValue::Bool(true) => self.on.clone(),
            _ => self.off.clone(),
        };
        TextNode { id: self.id, content }
    }
}

/// A context consumer: shows one content when a provider for its key is in
/// scope, another when none is.
pub struct ContextText {
    /// Identity of the surface entry the body drives.
    pub id: u64,
    /// The typed context key this consumer looks up.
    pub key: u64,
    /// Content shown when the nearest provider for `key` holds `Bool(true)`.
    pub on: String,
    /// Content shown otherwise (other value, or no provider in scope).
    pub off: String,
}

impl Render<()> for ContextText {
    type Body = TextNode;

    /// The body reflects the nearest enclosing provider's value for `key`.
    fn render(&self, view: &(), scope: &mut Scope) -> (body: TextNode)
        ensures
            body.id == self.id,
            body.content@ == (if lookup_spec(old(scope).contexts@, self.key) == Some(
                HookValue::Bool(true),
            ) {
                self.on@
            } else {
                self.off@
            }),
    {
        let found = use_context(scope, self.key);
        let content = match found {
            Some(HookValue::Bool(true)) => self.on.clone(),
            _ => self.off.clone(),
        };
        TextNode { id: self.id, content }
    }
}

/// A provider combinator: composes an inner render function with one more
/// provider frame in scope, restoring the map for siblings.
pub struct ProvideRender<V, F: Render<V>> {
    /// The typed context key published for the inner subtree.
    pub key: u64,
    /// The provided value.
    pub value: HookValue,
    /// The inner render function composed under the provider.
    pub inner: F,
    /// Carries the view type of the inner render function.
    pub marker: core::marker::PhantomData<V>,
}

impl<V, F: Render<V>> Render<V> for ProvideRender<V, F> {
    type Body = F::Body;

    /// Compose the inner body with `value` provided under `key`; the scope's
    /// context map comes back exactly as it was.
    fn render(&self, view: &V, scope: &mut Scope) -> (body: F::Body) {
        use_provider(scope, self.key, self.value, view, &self.inner)
    }
}

} // verus!
