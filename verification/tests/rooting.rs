use js::compartment::CompartmentError;
use js::compartment::CompartmentGuard;
use js::compartment::GlobalObject;
use js::rooting::Context;
use js::rooting::Handle;
use js::rooting::RootError;
use js::rooting::Rooted;
use js::rooting::RootedGuard;
use js::value::initial;
use js::value::kind_needs_post_barrier;
use js::value::root_kind;
use js::value::RootKind;
use js::value::RootValue;
use js::value::Value;
use js::value::JSID_VOID_BITS;

const ALL_KINDS: [RootKind; 6] = [
    RootKind::Object,
    RootKind::StringRef,
    RootKind::Symbol,
    RootKind::Script,
    RootKind::Id,
    RootKind::Value,
];

#[test]
fn acquire_release_balances_every_kind() {
    let mut cx = Context::new();
    for k in ALL_KINDS {
        let before = cx.root_count(k);
        let g = RootedGuard::new(&mut cx, Rooted::new_unrooted(initial(k)));
        assert_eq!(cx.root_count(k), before + 1);
        assert!(g.remove_from_root_stack(&mut cx).is_ok());
        assert_eq!(cx.root_count(k), before);
    }
    for k in ALL_KINDS {
        assert_eq!(cx.root_count(k), 0);
    }
}

#[test]
fn initial_values_match_their_kinds() {
    assert_eq!(initial(RootKind::Object), RootValue::ObjectPtr(0));
    assert_eq!(initial(RootKind::StringRef), RootValue::StringPtr(0));
    assert_eq!(initial(RootKind::Symbol), RootValue::SymbolPtr(0));
    assert_eq!(initial(RootKind::Script), RootValue::ScriptPtr(0));
    assert_eq!(initial(RootKind::Id), RootValue::PropId(JSID_VOID_BITS));
    assert_eq!(initial(RootKind::Value), RootValue::Tagged(Value::Undefined));
    for k in ALL_KINDS {
        assert_eq!(root_kind(&initial(k)), k);
    }
}

#[test]
fn barrier_table_tracks_object_and_value_kinds_only() {
    assert!(kind_needs_post_barrier(RootKind::Object));
    assert!(kind_needs_post_barrier(RootKind::Value));
    assert!(!kind_needs_post_barrier(RootKind::StringRef));
    assert!(!kind_needs_post_barrier(RootKind::Symbol));
    assert!(!kind_needs_post_barrier(RootKind::Script));
    assert!(!kind_needs_post_barrier(RootKind::Id));
}

#[test]
fn out_of_order_release_is_rejected() {
    let mut cx = Context::new();
    let outer = RootedGuard::new(&mut cx, Rooted::new_unrooted(RootValue::ObjectPtr(0)));
    let inner = RootedGuard::new(&mut cx, Rooted::new_unrooted(RootValue::ObjectPtr(7)));
    assert_eq!(cx.root_count(RootKind::Object), 2);
    let r = outer.remove_from_root_stack(&mut cx);
    assert_eq!(r, Err(RootError::OutOfOrder));
    // the rejected release changed nothing
    assert_eq!(cx.root_count(RootKind::Object), 2);
    assert!(inner.remove_from_root_stack(&mut cx).is_ok());
    let outer_again = RootedGuard::new(&mut cx, Rooted::new_unrooted(RootValue::ObjectPtr(0)));
    assert!(outer_again.remove_from_root_stack(&mut cx).is_ok());
}

#[test]
fn roots_of_different_kinds_release_independently() {
    let mut cx = Context::new();
    let obj = RootedGuard::new(&mut cx, Rooted::new_unrooted(RootValue::ObjectPtr(1)));
    let id = RootedGuard::new(&mut cx, Rooted::new_unrooted(RootValue::PropId(JSID_VOID_BITS)));
    // each kind has its own stack, so the object may leave before the id
    assert!(obj.remove_from_root_stack(&mut cx).is_ok());
    assert!(id.remove_from_root_stack(&mut cx).is_ok());
    assert_eq!(cx.root_count(RootKind::Object), 0);
    assert_eq!(cx.root_count(RootKind::Id), 0);
}

#[test]
fn mutable_handle_write_reads_back_through_handle() {
    let mut cx = Context::new();
    let mut_guard = RootedGuard::new(
        &mut cx,
        Rooted::new_unrooted(RootValue::Tagged(Value::Undefined)),
    );
    let write = mut_guard.handle_mut();
    let read = mut_guard.handle();
    write.set(&mut cx, RootValue::Tagged(Value::Int32(7)));
    assert_eq!(read.get(&cx), RootValue::Tagged(Value::Int32(7)));
    assert_eq!(mut_guard.get(&cx), RootValue::Tagged(Value::Int32(7)));
    assert_eq!(write.get(&cx), RootValue::Tagged(Value::Int32(7)));
    assert_eq!(write.handle().get(&cx), RootValue::Tagged(Value::Int32(7)));
    assert!(mut_guard.remove_from_root_stack(&mut cx).is_ok());
}

#[test]
fn writes_route_through_the_kind_post_barrier() {
    let mut cx = Context::new();
    let val = RootedGuard::new(&mut cx, Rooted::new_unrooted(RootValue::Tagged(Value::Null)));
    val.set(&mut cx, RootValue::Tagged(Value::Boolean(true)));
    assert_eq!(cx.barrier_count(), 1);
    let e = cx.barrier_at(0);
    assert_eq!(e.prev, RootValue::Tagged(Value::Null));
    assert_eq!(e.next, RootValue::Tagged(Value::Boolean(true)));
    // identifiers use the no-op barrier
    let id = RootedGuard::new(&mut cx, Rooted::new_unrooted(RootValue::PropId(JSID_VOID_BITS)));
    id.set(&mut cx, RootValue::PropId(44));
    assert_eq!(cx.barrier_count(), 1);
    // object references are barrier-tracked
    let obj = RootedGuard::new(&mut cx, Rooted::new_unrooted(RootValue::ObjectPtr(0)));
    obj.set(&mut cx, RootValue::ObjectPtr(5));
    assert_eq!(cx.barrier_count(), 2);
    assert!(obj.remove_from_root_stack(&mut cx).is_ok());
    assert!(id.remove_from_root_stack(&mut cx).is_ok());
    assert!(val.remove_from_root_stack(&mut cx).is_ok());
}

#[test]
fn fixed_handles_hold_their_constants() {
    let cx = Context::new();
    assert_eq!(Handle::null_value().get(&cx), RootValue::Tagged(Value::Null));
    assert_eq!(
        Handle::undefined_value().get(&cx),
        RootValue::Tagged(Value::Undefined)
    );
    assert_eq!(Handle::null_object().get(&cx), RootValue::ObjectPtr(0));
}

#[test]
fn compartment_guard_restores_prior_compartment() {
    let mut cx = Context::new();
    assert_eq!(cx.compartment(), None);
    let global = GlobalObject { object: 1, compartment: 10 };
    let g = CompartmentGuard::enter(&mut cx, &global);
    assert_eq!(cx.compartment(), Some(10));
    assert_eq!(cx.compartment_depth(), 1);
    assert!(g.release(&mut cx).is_ok());
    assert_eq!(cx.compartment(), None);
    assert_eq!(cx.compartment_depth(), 0);
}

#[test]
fn nested_compartment_guards_restore_in_reverse_order() {
    let mut cx = Context::new();
    let first = GlobalObject { object: 1, compartment: 10 };
    let second = GlobalObject { object: 2, compartment: 20 };
    let g1 = CompartmentGuard::enter(&mut cx, &first);
    let g2 = CompartmentGuard::enter(&mut cx, &second);
    assert_eq!(cx.compartment(), Some(20));
    // releasing the outer guard first is out of order
    assert_eq!(g1.release(&mut cx), Err(CompartmentError::OutOfOrder));
    assert_eq!(cx.compartment(), Some(20));
    assert!(g2.release(&mut cx).is_ok());
    assert_eq!(cx.compartment(), Some(10));
    assert!(g1.release(&mut cx).is_ok());
    assert_eq!(cx.compartment(), None);
}

#[test]
fn compartment_restored_on_early_exit() {
    fn guarded_work(cx: &mut Context, global: &GlobalObject, fail: bool) -> Result<u32, ()> {
        let g = CompartmentGuard::enter(cx, global);
        let result = if fail { Err(()) } else { Ok(42) };
        // release runs on every exit path, failure included
        let released = g.release(cx);
        assert!(released.is_ok());
        result
    }
    let mut cx = Context::new();
    let global = GlobalObject { object: 3, compartment: 30 };
    assert_eq!(guarded_work(&mut cx, &global, true), Err(()));
    assert_eq!(cx.compartment(), None);
    assert_eq!(guarded_work(&mut cx, &global, false), Ok(42));
    assert_eq!(cx.compartment(), None);
}
