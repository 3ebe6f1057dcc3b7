//! Hook storage, update ordering and context propagation, exercised from
//! outside the library.

use actuate::{
    use_context, use_state, ContextMap, HookValue, Scope, Update, UpdateKind,
};

fn update(idx: usize, v: i64) -> Update {
    Update { idx, kind: UpdateKind::Value(HookValue::I64(v)) }
}

#[test]
fn state_slot_allocation_and_reuse() {
    let (mut scope, _rx) = Scope::new(ContextMap::new());

    let (a, sa) = use_state(&mut scope, HookValue::I64(10));
    let (b, sb) = use_state(&mut scope, HookValue::I64(20));
    assert_eq!(a, HookValue::I64(10));
    assert_eq!(b, HookValue::I64(20));
    assert_eq!(sa.idx, 0);
    assert_eq!(sb.idx, 1);
    assert_eq!(scope.idx, 2);
    assert_eq!(scope.hooks.len(), 2);

    // A later pass with the same call order reaches the same slots and sees
    // the current values, not the initials.
    scope.idx = 0;
    let (a2, _) = use_state(&mut scope, HookValue::I64(77));
    let (b2, _) = use_state(&mut scope, HookValue::I64(88));
    assert_eq!(a2, HookValue::I64(10));
    assert_eq!(b2, HookValue::I64(20));
    assert_eq!(scope.hooks.len(), 2);
}

#[test]
fn setter_enqueues_and_never_mutates_directly() {
    let (mut scope, _rx) = Scope::new(ContextMap::new());
    let (_, setter) = use_state(&mut scope, HookValue::I64(1));
    setter.set(HookValue::I64(2));
    setter.set(HookValue::I64(3));
    // Hook storage is untouched until the owning node's readiness check
    // drains the channel.
    assert_eq!(scope.hooks, vec![HookValue::I64(1)]);
}

#[test]
fn updates_apply_in_issuance_order() {
    let (mut scope, _rx) = Scope::new(ContextMap::new());
    let (_, _) = use_state(&mut scope, HookValue::I64(1));

    // One batch, in issuance order.
    let batch = vec![update(0, 2), update(0, 3)];
    let any = scope.apply_updates(&batch);
    assert!(any);
    assert_eq!(scope.hooks, vec![HookValue::I64(3)]);

    // The same updates one by one end on the same final value.
    let (mut scope2, _rx2) = Scope::new(ContextMap::new());
    let (_, _) = use_state(&mut scope2, HookValue::I64(1));
    assert!(scope2.apply_updates(&vec![update(0, 2)]));
    assert!(scope2.apply_updates(&vec![update(0, 3)]));
    assert_eq!(scope2.hooks, scope.hooks);
}

#[test]
fn update_for_missing_slot_is_dropped() {
    let (mut scope, _rx) = Scope::new(ContextMap::new());
    let (_, _) = use_state(&mut scope, HookValue::I64(1));
    let any = scope.apply_updates(&vec![update(5, 9)]);
    assert!(any);
    assert_eq!(scope.hooks, vec![HookValue::I64(1)]);
}

#[test]
fn empty_batch_reports_no_readiness() {
    let (mut scope, _rx) = Scope::new(ContextMap::new());
    let (_, _) = use_state(&mut scope, HookValue::I64(1));
    let any = scope.apply_updates(&Vec::new());
    assert!(!any);
    assert_eq!(scope.hooks, vec![HookValue::I64(1)]);
}

#[test]
fn nearest_provider_shadows_outer_one() {
    let mut cm = ContextMap::new();
    cm.push(7, HookValue::I64(1));
    cm.push(9, HookValue::I64(5));
    cm.push(7, HookValue::I64(2));
    assert_eq!(cm.get(7), Some(HookValue::I64(2)));
    assert_eq!(cm.get(9), Some(HookValue::I64(5)));

    // Popping the inner provider restores the outer one for siblings.
    let popped = cm.pop();
    assert_eq!(popped, Some((7, HookValue::I64(2))));
    assert_eq!(cm.get(7), Some(HookValue::I64(1)));
}

#[test]
fn missing_context_is_reported_as_none() {
    let (scope, _rx) = Scope::new(ContextMap::new());
    assert_eq!(use_context(&scope, 42), None);
}

#[test]
fn context_lookup_through_scope() {
    let mut cm = ContextMap::new();
    cm.push(3, HookValue::Bool(true));
    let (scope, _rx) = Scope::new(cm);
    assert_eq!(use_context(&scope, 3), Some(HookValue::Bool(true)));
}
