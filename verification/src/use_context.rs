//! Context propagation: a typed, stack-like key/value map threaded down the
//! tree, letting an ancestor publish a value consumed by any descendant
//! without explicit parameter passing.

use vstd::prelude::*;

use crate::HookValue;
use crate::scope::Scope;

verus! {

/// The value a context lookup finds: the value of the nearest (most recently
/// pushed, not yet popped) provider frame for `key`, if any.
pub open spec fn lookup_spec(entries: Seq<(u64, HookValue)>, key: u64) -> Option<HookValue>
    decreases entries.len(),
{
    if entries.len() == 0 {
        None
    } else if entries.last().0 == key {
        Some(entries.last().1)
    } else {
        lookup_spec(entries.drop_last(), key)
    }
}

/// A typed context map, conceptually a stack of provider frames.
///
/// A provider pushes an entry, keyed by a type identity, for the duration of
/// its subtree's composition, and pops it afterwards, so sibling subtrees
/// never observe each other's provided values. Lookups see the nearest
/// enclosing provider for a given key.
pub struct ContextMap {
    /// Provider frames, oldest first; the nearest provider is the last
    /// frame with the requested key.
    pub entries: Vec<(u64, HookValue)>,
}

impl View for ContextMap {
    type V = Seq<(u64, HookValue)>;

    open spec fn view(&self) -> Seq<(u64, HookValue)> {
        self.entries@
    }
}

impl ContextMap {
    /// An empty map: no provider is in scope.
    pub fn new() -> (r: ContextMap)
        ensures
            r@ == Seq::<(u64, HookValue)>::empty(),
    {
        let r = ContextMap { entries: Vec::new() };
        proof {
            assert(r@ =~= Seq::<(u64, HookValue)>::empty());
        }
        r
    }

    /// The nearest enclosing provider's value for `key`, if one is in scope.
    pub fn get(&self, key: u64) -> (r: Option<HookValue>)
        ensures
            r == lookup_spec(self@, key),
    {
        let mut i: usize = self.entries.len();
        proof {
            assert(self@.subrange(0, i as int) =~= self@);
        }
        while i > 0
            invariant
                i <= self.entries@.len(),
                lookup_spec(self@, key) == lookup_spec(self@.subrange(0, i as int), key),
            decreases i,
        {
            i = i - 1;
            let (k, v) = self.entries[i];
            proof {
                assert(self@.subrange(0, i + 1).last() == self@[i as int]);
                assert(self@.subrange(0, i + 1).drop_last() =~= self@.subrange(0, i as int));
            }
            if k == key {
                return Some(v);
            }
        }
        proof {
            assert(self@.subrange(0, 0) =~= Seq::<(u64, HookValue)>::empty());
        }
        None
    }

    /// Push a provider frame for the duration of composing a subtree.
    pub fn push(&mut self, key: u64, value: HookValue)
        ensures
            final(self)@ == old(self)@.push((key, value)),
    {
        self.entries.push((key, value));
    }

    /// Remove the most recent provider frame, restoring the map for siblings.
    pub fn pop(&mut self) -> (r: Option<(u64, HookValue)>)
        ensures
            old(self)@.len() == 0 ==> r is None && final(self)@ == old(self)@,
            old(self)@.len() > 0 ==> r == Some(old(self)@.last())
                && final(self)@ == old(self)@.drop_last(),
    {
        self.entries.pop()
    }
}

impl Clone for ContextMap {
    /// A copy with the very same provider frames.
    fn clone(&self) -> (r: Self)
        ensures
            r@ == self@,
    {
        let mut entries: Vec<(u64, HookValue)> = Vec::new();
        let mut i: usize = 0;
        while i < self.entries.len()
            invariant
                i <= self.entries@.len(),
                entries@ == self.entries@.subrange(0, i as int),
            decreases self.entries@.len() - i,
        {
            entries.push(self.entries[i]);
            i = i + 1;
            proof {
                assert(entries@ =~= self.entries@.subrange(0, i as int));
            }
        }
        proof {
            assert(entries@ =~= self.entries@);
        }
        ContextMap { entries }
    }
}

/// Nearest-provider rule, inner side: right after a provider for `key` is
/// pushed, a lookup for `key` sees exactly that provider's value, shadowing
/// any outer provider for the same key.
pub proof fn lemma_nearest_provider(entries: Seq<(u64, HookValue)>, key: u64, value: HookValue)
    ensures
        lookup_spec(entries.push((key, value)), key) == Some(value),
{
    assert(entries.push((key, value)).last() == (key, value));
}

/// Nearest-provider rule, outer side: a provider pushed for one key leaves
/// lookups for every other key exactly as they were, so an inner provider
/// never disturbs what a consumer of a different type observes.
pub proof fn lemma_other_keys_unshadowed(
    entries: Seq<(u64, HookValue)>,
    key: u64,
    value: HookValue,
    other: u64,
)
    requires
        other != key,
    ensures
        lookup_spec(entries.push((key, value)), other) == lookup_spec(entries, other),
{
    assert(entries.push((key, value)).drop_last() =~= entries);
}

/// Context lookup correctness for nested providers of the same key: with an
/// outer and an inner provider frame both in scope for `key`, a consumer
/// observes the inner (nearest) value, never the outer one; and once the
/// inner frame is popped, the outer value is observed again.
pub proof fn lemma_nested_providers_nearest(
    entries: Seq<(u64, HookValue)>,
    key: u64,
    outer: HookValue,
    inner: HookValue,
)
    ensures
        lookup_spec(entries.push((key, outer)).push((key, inner)), key) == Some(inner),
        lookup_spec(entries.push((key, outer)).push((key, inner)).drop_last(), key) == Some(outer),
{
    lemma_nearest_provider(entries.push((key, outer)), key, inner);
    lemma_nearest_provider(entries, key, outer);
    assert(entries.push((key, outer)).push((key, inner)).drop_last() =~= entries.push(
        (key, outer),
    ));
}

/// Read the nearest enclosing provider's value for `key` from the scope's
/// context map; `None` when no provider of that key is in scope (the
/// recoverable form of the missing-context error).
pub fn use_context(scope: &Scope, key: u64) -> (r: Option<HookValue>)
    ensures
        r == lookup_spec(scope.contexts@, key),
{
    scope.contexts.get(key)
}

} // verus!
