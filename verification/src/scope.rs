//! Per-composition-instance storage: ordered hook slots, a cursor for
//! sequential hook access, the context map, and the sender half of the
//! asynchronous state-update channel.
//!
//! Setters never mutate hook storage directly: they enqueue an [`Update`]
//! message, and the messages are drained and applied, in FIFO arrival order,
//! only at the start of the owning node's readiness check. The channel is the
//! single linearization point for hook mutation.

use vstd::prelude::*;

use tokio::sync::mpsc::{UnboundedReceiver, UnboundedSender};

use crate::HookValue;
use crate::use_context::ContextMap;

verus! {

/// The payload of a state-update message: one variant per kind of mutation a
/// setter can request.
#[derive(Clone, Copy)]
pub enum UpdateKind {
    /// Overwrite the hook slot with this value.
    Value(HookValue),
}

impl UpdateKind {
    /// The value this message carries.
    pub open spec fn value(self) -> HookValue {
        match self {
            UpdateKind::Value(v) => v,
        }
    }
}

/// A message sent from a setter to the owning scope's receiver; consumed only
/// during the owning node's readiness check, applied by overwriting the hook
/// slot `idx`.
#[derive(Clone, Copy)]
pub struct Update {
    /// Which hook slot to overwrite.
    pub idx: usize,
    /// What to do to it.
    pub kind: UpdateKind,
}

/// tokio's unbounded mpsc sender, so that it can stand in fields and
/// signatures; opaque to the verifier.
#[verifier::external_type_specification]
#[verifier::external_body]
#[verifier::reject_recursive_types(T)]
pub struct ExUnboundedSender<T>(UnboundedSender<T>);

/// tokio's unbounded mpsc receiver, so that it can stand in fields and
/// signatures; opaque to the verifier.
#[verifier::external_type_specification]
#[verifier::external_body]
#[verifier::reject_recursive_types(T)]
pub struct ExUnboundedReceiver<T>(UnboundedReceiver<T>);

/// Relies on tokio's `mpsc::unbounded_channel`: a connected sender/receiver
/// pair for the update messages of one scope.
#[verifier::external_body]
fn unbounded_update_channel() -> (UnboundedSender<Update>, UnboundedReceiver<Update>) {
    tokio::sync::mpsc::unbounded_channel()
}

/// Relies on tokio's `UnboundedSender::send`: it never blocks or panics, and
/// it fails only when the receiver is gone; the failure is deliberately
/// discarded here, so a setter that fires after its element was torn down is
/// a safe no-op.
#[verifier::external_body]
pub(crate) fn send_update(tx: &UnboundedSender<Update>, update: Update) {
    let _ = tx.send(update);
}

/// Relies on tokio's `UnboundedSender::clone`: another sending handle to the
/// same channel.
#[verifier::external_body]
pub(crate) fn clone_sender(tx: &UnboundedSender<Update>) -> UnboundedSender<Update> {
    tx.clone()
}

/// Relies on tokio's `UnboundedReceiver::len`: the number of messages queued
/// in the channel at this moment.
#[verifier::external_body]
fn queued_updates(rx: &UnboundedReceiver<Update>) -> usize {
    rx.len()
}

/// Relies on tokio's `UnboundedReceiver::try_recv`: the oldest queued
/// message, or nothing when the channel is empty (or every sender is gone and
/// all messages were already received).
#[verifier::external_body]
fn try_recv_update(rx: &mut UnboundedReceiver<Update>) -> Option<Update> {
    match rx.try_recv() {
        Ok(update) => Some(update),
        Err(_) => None,
    }
}

/// All updates queued at the moment the readiness check begins, in FIFO
/// arrival order. Messages that arrive while the drain runs wait for the
/// next check.
pub(crate) fn drain_updates(rx: &mut UnboundedReceiver<Update>) -> Vec<Update> {
    let queued = queued_updates(rx);
    let mut out: Vec<Update> = Vec::new();
    let mut i: usize = 0;
    while i < queued
        decreases queued - i,
    {
        match try_recv_update(rx) {
            Some(update) => out.push(update),
            None => {
                return out;
            },
        }
        i = i + 1;
    }
    out
}

/// One update applied to hook storage: overwrite slot `idx` where it exists;
/// a message aimed at a slot that does not exist is dropped.
pub open spec fn apply_update_spec(hooks: Seq<HookValue>, u: Update) -> Seq<HookValue> {
    if u.idx < hooks.len() {
        hooks.update(u.idx as int, u.kind.value())
    } else {
        hooks
    }
}

/// A batch of updates applied in issuance (FIFO) order.
pub open spec fn apply_updates_spec(hooks: Seq<HookValue>, us: Seq<Update>) -> Seq<HookValue>
    decreases us.len(),
{
    if us.len() == 0 {
        hooks
    } else {
        apply_updates_spec(apply_update_spec(hooks, us[0]), us.subrange(1, us.len() as int))
    }
}

/// One more update at the end of a batch lands on the state the batch
/// produced: a batch is the same as feeding the updates through one at a
/// time.
pub proof fn lemma_apply_updates_one_more(hooks: Seq<HookValue>, us: Seq<Update>, u: Update)
    ensures
        apply_updates_spec(hooks, us.push(u)) == apply_update_spec(apply_updates_spec(hooks, us), u),
    decreases us.len(),
{
    if us.len() == 0 {
        assert(us.push(u)[0] == u);
        assert(us.push(u).subrange(1, 1) =~= Seq::<Update>::empty());
        assert(apply_updates_spec(hooks, us.push(u)) == apply_updates_spec(
            apply_update_spec(hooks, u),
            Seq::<Update>::empty(),
        ));
        assert(apply_updates_spec(apply_update_spec(hooks, u), Seq::<Update>::empty())
            == apply_update_spec(hooks, u));
        assert(apply_updates_spec(hooks, us) == hooks);
    } else {
        let sub = us.subrange(1, us.len() as int);
        assert(us.push(u)[0] == us[0]);
        assert(us.push(u).subrange(1, us.len() as int + 1) =~= sub.push(u));
        lemma_apply_updates_one_more(apply_update_spec(hooks, us[0]), sub, u);
        assert(apply_updates_spec(hooks, us.push(u)) == apply_updates_spec(
            apply_update_spec(hooks, us[0]),
            sub.push(u),
        ));
        assert(apply_updates_spec(hooks, us) == apply_updates_spec(
            apply_update_spec(hooks, us[0]),
            sub,
        ));
    }
}

/// Ordering determinism: applying the updates `us1` and then, on the result,
/// the updates `us2`, yields exactly the hook state of applying the whole
/// sequence `us1 + us2` in issuance order. In particular, a batch of updates
/// drained in one readiness check ends on the same final hook value as
/// applying them one by one in that same order.
pub proof fn lemma_apply_updates_in_order(
    hooks: Seq<HookValue>,
    us1: Seq<Update>,
    us2: Seq<Update>,
)
    ensures
        apply_updates_spec(hooks, us1 + us2) == apply_updates_spec(
            apply_updates_spec(hooks, us1),
            us2,
        ),
    decreases us2.len(),
{
    if us2.len() == 0 {
        assert(us1 + us2 =~= us1);
    } else {
        let front = us2.drop_last();
        let u = us2.last();
        assert(us2 =~= front.push(u));
        assert(us1 + us2 =~= (us1 + front).push(u));
        lemma_apply_updates_in_order(hooks, us1, front);
        lemma_apply_updates_one_more(hooks, us1 + front, u);
        lemma_apply_updates_one_more(apply_updates_spec(hooks, us1), front, u);
    }
}

/// Per-composition-instance storage for ordered hook slots, the hook cursor,
/// the context map, and the sender half of the update channel.
pub struct Scope {
    /// Sender half of the update channel; setters hold clones of it.
    pub tx: UnboundedSender<Update>,
    /// Ordered, type-erased hook slots. Slot `i` must be accessed by the same
    /// logical hook call in every re-composition pass of the owning node.
    pub hooks: Vec<HookValue>,
    /// Cursor for sequential hook access; reset to zero at the start of every
    /// composition pass of the owning node.
    pub idx: usize,
    /// The context map this scope's render function composes in.
    pub contexts: ContextMap,
}

impl Scope {
    /// Hook-cursor discipline: the cursor never runs past the slots, so the
    /// next sequential hook call either reads an existing slot or allocates
    /// the one right after the last.
    pub open spec fn wf(self) -> bool {
        self.idx <= self.hooks@.len()
    }

    /// A fresh scope around a new update channel, with no hook slots yet; the
    /// receiver half is handed back for the owning element to drain.
    pub fn new(contexts: ContextMap) -> (r: (Scope, UnboundedReceiver<Update>))
        ensures
            r.0.hooks@ == Seq::<HookValue>::empty(),
            r.0.idx == 0,
            r.0.contexts == contexts,
            r.0.wf(),
    {
        let (tx, rx) = unbounded_update_channel();
        let scope = Scope { tx, hooks: Vec::new(), idx: 0, contexts };
        proof {
            assert(scope.hooks@ =~= Seq::<HookValue>::empty());
        }
        (scope, rx)
    }

    /// Apply a drained batch of updates to the hook slots, in arrival order;
    /// reports whether at least one update arrived. Everything else in the
    /// scope stays as it was.
    pub fn apply_updates(&mut self, updates: &Vec<Update>) -> (r: bool)
        ensures
            final(self).hooks@ == apply_updates_spec(old(self).hooks@, updates@),
            final(self).hooks@.len() == old(self).hooks@.len(),
            final(self).idx == old(self).idx,
            final(self).contexts == old(self).contexts,
            final(self).tx == old(self).tx,
            r == (updates@.len() > 0),
    {
        let mut i: usize = 0;
        proof {
            assert(updates@.subrange(0, 0) =~= Seq::<Update>::empty());
        }
        while i < updates.len()
            invariant
                i <= updates@.len(),
                self.hooks@ == apply_updates_spec(old(self).hooks@, updates@.subrange(0, i as int)),
                self.hooks@.len() == old(self).hooks@.len(),
                self.idx == old(self).idx,
                self.contexts == old(self).contexts,
                self.tx == old(self).tx,
            decreases updates@.len() - i,
        {
            let u = updates[i];
            if u.idx < self.hooks.len() {
                match u.kind {
                    UpdateKind::Value(v) => {
                        self.hooks.set(u.idx, v);
                    },
                }
            }
            proof {
                assert(updates@.subrange(0, i + 1) =~= updates@.subrange(0, i as int).push(
                    updates@[i as int],
                ));
                lemma_apply_updates_one_more(
                    old(self).hooks@,
                    updates@.subrange(0, i as int),
                    updates@[i as int],
                );
            }
            i = i + 1;
        }
        proof {
            assert(updates@.subrange(0, updates@.len() as int) =~= updates@);
        }
        updates.len() > 0
    }
}

} // verus!
