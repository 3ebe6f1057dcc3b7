//! The provider hook: publish a typed value for the duration of composing a
//! subtree, and restore the context map for the siblings afterwards.

use vstd::prelude::*;

use crate::node::Render;
use crate::scope::Scope;
use crate::HookValue;

verus! {

/// Compose `f`'s body with `value` provided under `key`.
///
/// A provider frame is pushed before the body composes and popped right
/// after, on every path, so the pushes and pops are strictly nested: the
/// body's consumers see this provider as their nearest one for `key`, while
/// the scope's context map comes back exactly as it was — sibling subtrees
/// never observe the provided value.
pub fn use_provider<V, F: Render<V>>(
    scope: &mut Scope,
    key: u64,
    value: HookValue,
    view: &V,
    f: &F,
) -> (body: F::Body)
    requires
        old(scope).wf(),
    ensures
        final(scope).wf(),
        final(scope).contexts@ == old(scope).contexts@,
{
    scope.contexts.push(key, value);
    let body = f.render(view, scope);
    let _ = scope.contexts.pop();
    proof {
        assert(scope.contexts@ =~= old(scope).contexts@);
    }
    body
}

} // verus!
