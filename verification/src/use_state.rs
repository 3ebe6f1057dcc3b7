//! The state hook: read or allocate the hook slot at the next sequential
//! index, and hand back a setter that enqueues updates to the owning scope.

use vstd::prelude::*;

use tokio::sync::mpsc::UnboundedSender;

use crate::scope::{clone_sender, send_update, Scope, Update, UpdateKind};
use crate::HookValue;

verus! {

/// A handle that asks the owning scope to overwrite one hook slot.
///
/// It may fire at any later time, from anywhere (an event handler, a timer):
/// it never mutates hook storage directly, but sends an [`Update`] through
/// the scope's channel, drained only at the start of the owning node's
/// readiness check. After the owning element is torn down, firing it is a
/// safe no-op.
pub struct Setter {
    /// Sending half of the owning scope's update channel.
    pub tx: UnboundedSender<Update>,
    /// The hook slot this setter is bound to.
    pub idx: usize,
}

impl Setter {
    /// Enqueue an update that overwrites the bound slot with `value`.
    /// Never panics, even when the owning scope is gone.
    pub fn set(&self, value: HookValue) {
        send_update(&self.tx, Update { idx: self.idx, kind: UpdateKind::Value(value) });
    }
}

impl Clone for Setter {
    /// Another handle to the same slot of the same scope.
    fn clone(&self) -> (r: Self)
        ensures
            r.idx == self.idx,
    {
        Setter { tx: clone_sender(&self.tx), idx: self.idx }
    }
}

/// Read or allocate the hook slot at the scope's next sequential index.
///
/// On the first composition pass for a given index the slot is allocated and
/// initialized to `initial`; on every later pass the same call order reaches
/// the same index and returns the slot's current value. The setter is bound
/// to that index. The cursor moves one slot forward either way; index
/// stability across renders is the caller's contract, as in any hook-based
/// framework.
pub fn use_state(scope: &mut Scope, initial: HookValue) -> (r: (HookValue, Setter))
    requires
        old(scope).wf(),
    ensures
        final(scope).wf(),
        final(scope).idx == old(scope).idx + 1,
        final(scope).contexts == old(scope).contexts,
        final(scope).tx == old(scope).tx,
        old(scope).idx < old(scope).hooks@.len() ==> final(scope).hooks@ == old(scope).hooks@
            && r.0 == old(scope).hooks@[old(scope).idx as int],
        old(scope).idx == old(scope).hooks@.len() ==> final(scope).hooks@ == old(
            scope,
        ).hooks@.push(initial) && r.0 == initial,
        r.1.idx == old(scope).idx,
{
    let idx = scope.idx;
    let value = if idx < scope.hooks.len() {
        let value = scope.hooks[idx];
        scope.idx = idx + 1;
        value
    } else {
        scope.hooks.push(initial);
        scope.idx = scope.hooks.len();
        initial
    };
    let setter = Setter { tx: clone_sender(&scope.tx), idx };
    (value, setter)
}

} // verus!
