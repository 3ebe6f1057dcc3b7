//! Reconciliation core of a declarative, hook-based render-tree framework.
//!
//! A tree of composable view descriptions is turned into a persistent tree of
//! stateful elements; only the parts whose inputs changed are re-evaluated,
//! and a minimal list of structural changes is emitted for a downstream
//! renderer to apply.
//!
//! Leaves first: [`Scope`] holds one composition instance's ordered hook
//! slots, cursor, context map and update channel; the hook primitives
//! ([`use_state`], [`use_context`], [`use_provider`]) read and allocate those
//! slots; the [`node`] module holds the polymorphic node/element abstraction
//! and the view-node combinator that drives re-composition from two
//! cooperative readiness sources (state updates and subtree readiness).

use vstd::prelude::*;

mod scope;
pub use crate::scope::{
    apply_update_spec, apply_updates_spec, lemma_apply_updates_in_order,
    lemma_apply_updates_one_more, Scope, Update, UpdateKind,
};

mod use_context;
pub use crate::use_context::{
    lemma_nearest_provider, lemma_nested_providers_nearest, lemma_other_keys_unshadowed, lookup_spec, use_context, ContextMap,
};

mod use_provider;
pub use crate::use_provider::use_provider;

mod use_state;
pub use crate::use_state::{use_state, Setter};

pub mod node;
pub use crate::node::{Change, Element, Node, Readiness, Render, ViewContext};

mod components;
pub use crate::components::{ContextText, EchoRender, ProvideRender, ToggleRender};

verus! {

/// An erased hook value: one variant per supported hook value type.
///
/// Hook storage is a growable ordered container of these tagged variants,
/// indexed by position; slot `i` must be accessed by the same logical hook
/// call in every re-composition pass of the owning node.
#[derive(Clone, Copy, Debug, PartialEq, Eq, Structural)]
pub enum HookValue {
    I64(i64),
    U64(u64),
    Bool(bool),
}

} // verus!

