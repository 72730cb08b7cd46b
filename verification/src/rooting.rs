//! Scoped rooting: the per-context root lists, the stack-discipline guard
//! that links and unlinks slots, and the read-only and read-write handles
//! that alias a rooted slot.
//!
//! A slot is linked into exactly one per-kind root list, may be overwritten
//! freely while linked (every overwrite of a barrier-tracked kind is logged
//! as a post-barrier invocation), and must be unlinked while it is the top
//! of its list; unlinking out of order is detected and rejected.

use vstd::prelude::*;

use crate::value::RootKind;
use crate::value::RootValue;
use crate::value::kind_of;
use crate::value::needs_post_barrier;
use crate::value::root_kind;
use crate::value::kind_needs_post_barrier;

verus! {

/// A rooted slot: its current value and whether it is presently linked into
/// its kind's root list.
#[derive(Clone, Copy, PartialEq, Eq, Structural, Debug)]
pub struct Slot {
    pub value: RootValue,
    pub linked: bool,
}

/// One recorded post-write-barrier invocation: the slot that changed, the
/// value it held before, and the value written.
#[derive(Clone, Copy, PartialEq, Eq, Structural, Debug)]
pub struct BarrierEvent {
    pub slot: usize,
    pub prev: RootValue,
    pub next: RootValue,
}

/// An execution context: the per-thread root lists (one per kind), the slot
/// storage they index into, the record of barrier invocations, the
/// compartment state, the live counts of engine-allocated auxiliary
/// resources, and the engine configuration applied at creation.
pub struct Context {
    pub slots: Vec<Slot>,
    pub object_roots: Vec<usize>,
    pub string_roots: Vec<usize>,
    pub symbol_roots: Vec<usize>,
    pub script_roots: Vec<usize>,
    pub id_roots: Vec<usize>,
    pub value_roots: Vec<usize>,
    pub barrier_log: Vec<BarrierEvent>,
    pub current_compartment: Option<u64>,
    pub saved_compartments: Vec<Option<u64>>,
    pub live_compile_options: usize,
    pub live_object_vectors: usize,
    pub live_id_vectors: usize,
    pub gc_max_bytes: u32,
    pub stack_quota_system: usize,
    pub stack_quota_trusted: usize,
    pub stack_quota_untrusted: usize,
    pub warning_reporter_installed: bool,
}

impl Context {
    /// The root list for one kind, as the sequence of slot indices from
    /// bottom to top of the stack.
    pub open spec fn root_list(self, k: RootKind) -> Seq<usize> {
        match k {
            RootKind::Object => self.object_roots@,
            RootKind::StringRef => self.string_roots@,
            RootKind::Symbol => self.symbol_roots@,
            RootKind::Script => self.script_roots@,
            RootKind::Id => self.id_roots@,
            RootKind::Value => self.value_roots@,
        }
    }

    /// Well-formedness: every listed slot exists, is linked, and matches its
    /// list's kind; each list is strictly increasing (so no double entry);
    /// every linked slot is listed under its own kind; and the stack quota
    /// tiers descend.
    pub open spec fn wf(self) -> bool {
        &&& forall|k: RootKind, i: int|
            0 <= i < self.root_list(k).len() ==> {
                let s = #[trigger] self.root_list(k)[i];
                &&& (s as int) < self.slots@.len()
                &&& self.slots@[s as int].linked
                &&& kind_of(self.slots@[s as int].value) == k
            }
        &&& forall|k: RootKind, i: int, j: int|
            0 <= i < j < self.root_list(k).len() ==> #[trigger] self.root_list(k)[i]
                < #[trigger] self.root_list(k)[j]
        &&& forall|s: usize|
            (s as int) < self.slots@.len() && (#[trigger] self.slots@[s as int]).linked
                ==> self.root_list(kind_of(self.slots@[s as int].value)).contains(s)
        &&& self.stack_quota_system >= self.stack_quota_trusted
        &&& self.stack_quota_trusted >= self.stack_quota_untrusted
    }

    /// A fresh context: no slots, all root lists empty, no barrier record,
    /// no compartment entered, no auxiliary resources, default configuration.
    pub fn new() -> (cx: Context)
        ensures
            cx.wf(),
            cx.slots@.len() == 0,
            forall|k: RootKind| (#[trigger] cx.root_list(k)).len() == 0,
            cx.barrier_log@.len() == 0,
            cx.current_compartment is None,
            cx.saved_compartments@.len() == 0,
            cx.live_compile_options == 0,
            cx.live_object_vectors == 0,
            cx.live_id_vectors == 0,
            cx.gc_max_bytes == 0,
            !cx.warning_reporter_installed,
    {
        Context {
            slots: Vec::new(),
            object_roots: Vec::new(),
            string_roots: Vec::new(),
            symbol_roots: Vec::new(),
            script_roots: Vec::new(),
            id_roots: Vec::new(),
            value_roots: Vec::new(),
            barrier_log: Vec::new(),
            current_compartment: None,
            saved_compartments: Vec::new(),
            live_compile_options: 0,
            live_object_vectors: 0,
            live_id_vectors: 0,
            gc_max_bytes: 0,
            stack_quota_system: 0,
            stack_quota_trusted: 0,
            stack_quota_untrusted: 0,
            warning_reporter_installed: false,
        }
    }

    /// How many roots of one kind are currently linked.
    pub fn root_count(&self, k: RootKind) -> (n: usize)
        ensures
            n == self.root_list(k).len(),
    {
        match k {
            RootKind::Object => self.object_roots.len(),
            RootKind::StringRef => self.string_roots.len(),
            RootKind::Symbol => self.symbol_roots.len(),
            RootKind::Script => self.script_roots.len(),
            RootKind::Id => self.id_roots.len(),
            RootKind::Value => self.value_roots.len(),
        }
    }

    /// How many post-barrier invocations have been recorded.
    pub fn barrier_count(&self) -> (n: usize)
        ensures
            n == self.barrier_log@.len(),
    {
        self.barrier_log.len()
    }

    /// One recorded barrier invocation.
    pub fn barrier_at(&self, i: usize) -> (e: BarrierEvent)
        requires
            i < self.barrier_log@.len(),
        ensures
            e == self.barrier_log@[i as int],
    {
        self.barrier_log[i]
    }

    /// The compartment the context is currently in, if any.
    pub fn compartment(&self) -> (c: Option<u64>)
        ensures
            c == self.current_compartment,
    {
        self.current_compartment
    }

    /// How deeply compartment guards are currently nested.
    pub fn compartment_depth(&self) -> (n: usize)
        ensures
            n == self.saved_compartments@.len(),
    {
        self.saved_compartments.len()
    }
}

/// The compartment state, auxiliary-resource counts and configuration agree
/// between two context states.
pub open spec fn same_aux(a: Context, b: Context) -> bool {
    &&& b.current_compartment == a.current_compartment
    &&& b.saved_compartments@ == a.saved_compartments@
    &&& b.live_compile_options == a.live_compile_options
    &&& b.live_object_vectors == a.live_object_vectors
    &&& b.live_id_vectors == a.live_id_vectors
    &&& b.gc_max_bytes == a.gc_max_bytes
    &&& b.stack_quota_system == a.stack_quota_system
    &&& b.stack_quota_trusted == a.stack_quota_trusted
    &&& b.stack_quota_untrusted == a.stack_quota_untrusted
    &&& b.warning_reporter_installed == a.warning_reporter_installed
}

/// Every root list agrees between two context states.
pub open spec fn roots_unchanged(a: Context, b: Context) -> bool {
    forall|k: RootKind| #[trigger] b.root_list(k) == a.root_list(k)
}

/// Every root list but one kind's agrees between two context states.
pub open spec fn roots_unchanged_except(a: Context, b: Context, k0: RootKind) -> bool {
    forall|k: RootKind| k != k0 ==> #[trigger] b.root_list(k) == a.root_list(k)
}

/// How acquiring a root transforms a context: one fresh slot holding the
/// initial value is appended and linked as the new top of its kind's root
/// list; nothing else changes.
pub open spec fn acquire_rel(pre: Context, post: Context, slot: usize, v: RootValue) -> bool {
    &&& slot == pre.slots@.len()
    &&& post.slots@ == pre.slots@.push(Slot { value: v, linked: true })
    &&& post.root_list(kind_of(v)) == pre.root_list(kind_of(v)).push(slot)
    &&& roots_unchanged_except(pre, post, kind_of(v))
    &&& post.barrier_log@ == pre.barrier_log@
    &&& same_aux(pre, post)
}

/// How releasing the top root of a kind transforms a context: the slot is
/// unlinked and popped from its kind's root list; its value and everything
/// else stay as they were.
pub open spec fn release_rel(pre: Context, post: Context, slot: usize) -> bool {
    let k = kind_of(pre.slots@[slot as int].value);
    &&& post.slots@ == pre.slots@.update(
        slot as int,
        Slot { value: pre.slots@[slot as int].value, linked: false },
    )
    &&& post.root_list(k) == pre.root_list(k).drop_last()
    &&& roots_unchanged_except(pre, post, k)
    &&& post.barrier_log@ == pre.barrier_log@
    &&& same_aux(pre, post)
}

/// How writing a rooted slot transforms a context: the slot takes the new
/// value, stays linked, and — for barrier-tracked kinds — one barrier
/// invocation with the slot, previous and new value is recorded; the root
/// lists and everything else stay as they were.
pub open spec fn write_rel(pre: Context, post: Context, slot: usize, v: RootValue) -> bool {
    let prev = pre.slots@[slot as int].value;
    &&& post.slots@ == pre.slots@.update(slot as int, Slot { value: v, linked: true })
    &&& roots_unchanged(pre, post)
    &&& post.barrier_log@ == if needs_post_barrier(kind_of(v)) {
        pre.barrier_log@.push(BarrierEvent { slot, prev, next: v })
    } else {
        pre.barrier_log@
    }
    &&& same_aux(pre, post)
}

/// Rejection of an unlink that would corrupt the root stack: the slot to
/// unlink was not the top of its kind's list.
#[derive(Clone, Copy, PartialEq, Eq, Structural, Debug)]
pub enum RootError {
    OutOfOrder,
}

/// A slot value not yet linked into any root list.
pub struct Rooted {
    pub value: RootValue,
}

impl Rooted {
    /// An unregistered slot holding its initial value.
    pub fn new_unrooted(initial: RootValue) -> (r: Rooted)
        ensures
            r.value == initial,
    {
        Rooted { value: initial }
    }
}

/// A read-only, non-owning view of a slot: either an alias of a rooted
/// slot's storage or a fixed immutable value.
#[derive(Clone, Copy, PartialEq, Eq, Structural, Debug)]
pub enum Handle {
    Rooted(usize),
    Fixed(RootValue),
}

impl Handle {
    /// What reading through the handle yields in a given context state.
    pub open spec fn read(self, cx: Context) -> RootValue {
        match self {
            Handle::Rooted(s) => cx.slots@[s as int].value,
            Handle::Fixed(v) => v,
        }
    }

    /// Read the current value through the handle. An aliased slot must
    /// still be rooted: a handle never outlives the slot it aliases.
    pub fn get(&self, cx: &Context) -> (v: RootValue)
        requires
            self matches Handle::Rooted(s) ==> (s as int) < cx.slots@.len()
                && cx.slots@[s as int].linked,
        ensures
            v == self.read(*cx),
    {
        match self {
            Handle::Rooted(s) => cx.slots[*s].value,
            Handle::Fixed(v) => *v,
        }
    }

    /// A read-only handle aliasing a rooted slot directly by its location.
    pub fn from_marked_location(slot: usize) -> (h: Handle)
        ensures
            h == Handle::Rooted(slot),
    {
        Handle::Rooted(slot)
    }

    /// A read-only handle on the null tagged value.
    pub fn null_value() -> (h: Handle)
        ensures
            h == Handle::Fixed(RootValue::Tagged(crate::value::Value::Null)),
    {
        Handle::Fixed(RootValue::Tagged(crate::value::Value::Null))
    }

    /// A read-only handle on the undefined tagged value.
    pub fn undefined_value() -> (h: Handle)
        ensures
            h == Handle::Fixed(RootValue::Tagged(crate::value::Value::Undefined)),
    {
        Handle::Fixed(RootValue::Tagged(crate::value::Value::Undefined))
    }

    /// A read-only handle on the null object reference.
    pub fn null_object() -> (h: Handle)
        ensures
            h == Handle::Fixed(RootValue::ObjectPtr(0)),
    {
        Handle::Fixed(RootValue::ObjectPtr(0))
    }
}

/// A read-write, non-owning alias of a rooted slot's storage. Writes route
/// through the kind's post-barrier.
#[derive(Clone, Copy, PartialEq, Eq, Structural, Debug)]
pub struct MutableHandle {
    pub slot: usize,
}

impl MutableHandle {
    /// A read-write handle aliasing a rooted slot directly by its location.
    pub fn from_marked_location(slot: usize) -> (h: MutableHandle)
        ensures
            h == (MutableHandle { slot }),
    {
        MutableHandle { slot }
    }

    /// The read-only handle on the same slot.
    pub fn handle(&self) -> (h: Handle)
        ensures
            h == Handle::Rooted(self.slot),
    {
        Handle::Rooted(self.slot)
    }

    /// Read the slot's current value while it is still rooted.
    pub fn get(&self, cx: &Context) -> (v: RootValue)
        requires
            (self.slot as int) < cx.slots@.len(),
            cx.slots@[self.slot as int].linked,
        ensures
            v == cx.slots@[self.slot as int].value,
    {
        cx.slots[self.slot].value
    }

    /// Replace the slot's value, invoking the kind's post-barrier.
    pub fn set(&self, cx: &mut Context, v: RootValue)
        requires
            old(cx).wf(),
            (self.slot as int) < old(cx).slots@.len(),
            old(cx).slots@[self.slot as int].linked,
            kind_of(v) == kind_of(old(cx).slots@[self.slot as int].value),
        ensures
            final(cx).wf(),
            write_rel(*old(cx), *final(cx), self.slot, v),
    {
        write_slot(cx, self.slot, v)
    }
}

/// Replace a linked slot's value, recording the post-barrier invocation for
/// barrier-tracked kinds. The single enforcement point for barrier
/// correctness: every mutation of rooted storage goes through here.
fn write_slot(cx: &mut Context, slot: usize, v: RootValue)
    requires
        old(cx).wf(),
        (slot as int) < old(cx).slots@.len(),
        old(cx).slots@[slot as int].linked,
        kind_of(v) == kind_of(old(cx).slots@[slot as int].value),
    ensures
        final(cx).wf(),
        write_rel(*old(cx), *final(cx), slot, v),
{
    let prev = cx.slots[slot].value;
    cx.slots[slot] = Slot { value: v, linked: true };
    if kind_needs_post_barrier(root_kind(&v)) {
        cx.barrier_log.push(BarrierEvent { slot, prev, next: v });
    }
    proof {
        lemma_write_wf(*old(cx), *cx, slot, v);
    }
}

/// After a write through a handle the context is still well formed.
proof fn lemma_write_wf(pre: Context, post: Context, slot: usize, v: RootValue)
    requires
        pre.wf(),
        (slot as int) < pre.slots@.len(),
        pre.slots@[slot as int].linked,
        kind_of(v) == kind_of(pre.slots@[slot as int].value),
        write_rel(pre, post, slot, v),
    ensures
        post.wf(),
{
    assert forall|k: RootKind, i: int| 0 <= i < post.root_list(k).len() implies {
        let s = #[trigger] post.root_list(k)[i];
        &&& (s as int) < post.slots@.len()
        &&& post.slots@[s as int].linked
        &&& kind_of(post.slots@[s as int].value) == k
    } by {
        assert(post.root_list(k) == pre.root_list(k));
        let s = pre.root_list(k)[i];
        assert((s as int) < pre.slots@.len());
        if s == slot {
            assert(kind_of(post.slots@[s as int].value) == kind_of(pre.slots@[s as int].value));
        } else {
            assert(post.slots@[s as int] == pre.slots@[s as int]);
        }
    }
    assert forall|k: RootKind, i: int, j: int| 0 <= i < j < post.root_list(k).len() implies
        #[trigger] post.root_list(k)[i] < #[trigger] post.root_list(k)[j] by {
        assert(post.root_list(k) == pre.root_list(k));
    }
    assert forall|s: usize|
        (s as int) < post.slots@.len() && (#[trigger] post.slots@[s as int]).linked
            implies post.root_list(kind_of(post.slots@[s as int].value)).contains(s) by {
        assert(pre.slots@[s as int].linked);
        assert(kind_of(post.slots@[s as int].value) == kind_of(pre.slots@[s as int].value));
        assert(post.root_list(kind_of(pre.slots@[s as int].value)) == pre.root_list(
            kind_of(pre.slots@[s as int].value),
        ));
    }
}

/// An owning guard that keeps one slot linked into the context's root list
/// for its kind. Releasing the guard unlinks the slot; releases must happen
/// in exact reverse order of acquisition.
pub struct RootedGuard {
    pub slot: usize,
}

impl RootedGuard {
    /// Link a new slot into the root list for its value's kind and return
    /// the owning guard.
    pub fn new(cx: &mut Context, root: Rooted) -> (g: RootedGuard)
        requires
            old(cx).wf(),
            old(cx).slots@.len() < usize::MAX,
        ensures
            final(cx).wf(),
            acquire_rel(*old(cx), *final(cx), g.slot, root.value),
    {
        let slot = cx.slots.len();
        let k = root_kind(&root.value);
        cx.slots.push(Slot { value: root.value, linked: true });
        match k {
            RootKind::Object => cx.object_roots.push(slot),
            RootKind::StringRef => cx.string_roots.push(slot),
            RootKind::Symbol => cx.symbol_roots.push(slot),
            RootKind::Script => cx.script_roots.push(slot),
            RootKind::Id => cx.id_roots.push(slot),
            RootKind::Value => cx.value_roots.push(slot),
        }
        proof {
            lemma_acquire_wf(*old(cx), *cx, slot, root.value);
        }
        RootedGuard { slot }
    }

    /// The read-only handle aliasing the guarded slot.
    pub fn handle(&self) -> (h: Handle)
        ensures
            h == Handle::Rooted(self.slot),
    {
        Handle::Rooted(self.slot)
    }

    /// The read-write handle aliasing the guarded slot.
    pub fn handle_mut(&self) -> (h: MutableHandle)
        ensures
            h == (MutableHandle { slot: self.slot }),
    {
        MutableHandle { slot: self.slot }
    }

    /// Read the guarded slot's current value.
    pub fn get(&self, cx: &Context) -> (v: RootValue)
        requires
            (self.slot as int) < cx.slots@.len(),
            cx.slots@[self.slot as int].linked,
        ensures
            v == cx.slots@[self.slot as int].value,
    {
        cx.slots[self.slot].value
    }

    /// Replace the guarded slot's value, invoking the kind's post-barrier.
    pub fn set(&self, cx: &mut Context, v: RootValue)
        requires
            old(cx).wf(),
            (self.slot as int) < old(cx).slots@.len(),
            old(cx).slots@[self.slot as int].linked,
            kind_of(v) == kind_of(old(cx).slots@[self.slot as int].value),
        ensures
            final(cx).wf(),
            write_rel(*old(cx), *final(cx), self.slot, v),
    {
        write_slot(cx, self.slot, v)
    }

    /// Unlink the guarded slot. Succeeds exactly when the slot is the top of
    /// its kind's root list; anything else signals root-stack corruption and
    /// is rejected with the context untouched.
    pub fn remove_from_root_stack(self, cx: &mut Context) -> (r: Result<(), RootError>)
        requires
            old(cx).wf(),
            (self.slot as int) < old(cx).slots@.len(),
            old(cx).slots@[self.slot as int].linked,
        ensures
            final(cx).wf(),
            r is Ok <==> {
                let k = kind_of(old(cx).slots@[self.slot as int].value);
                &&& old(cx).root_list(k).len() > 0
                &&& old(cx).root_list(k).last() == self.slot
            },
            r is Ok ==> release_rel(*old(cx), *final(cx), self.slot),
            r is Err ==> *final(cx) == *old(cx),
    {
        let k = root_kind(&cx.slots[self.slot].value);
        let on_top: bool = match k {
            RootKind::Object => {
                let n = cx.object_roots.len();
                n > 0 && cx.object_roots[n - 1] == self.slot
            },
            RootKind::StringRef => {
                let n = cx.string_roots.len();
                n > 0 && cx.string_roots[n - 1] == self.slot
            },
            RootKind::Symbol => {
                let n = cx.symbol_roots.len();
                n > 0 && cx.symbol_roots[n - 1] == self.slot
            },
            RootKind::Script => {
                let n = cx.script_roots.len();
                n > 0 && cx.script_roots[n - 1] == self.slot
            },
            RootKind::Id => {
                let n = cx.id_roots.len();
                n > 0 && cx.id_roots[n - 1] == self.slot
            },
            RootKind::Value => {
                let n = cx.value_roots.len();
                n > 0 && cx.value_roots[n - 1] == self.slot
            },
        };
        if !on_top {
            return Err(RootError::OutOfOrder);
        }
        let val = cx.slots[self.slot].value;
        cx.slots[self.slot] = Slot { value: val, linked: false };
        match k {
            RootKind::Object => {
                cx.object_roots.pop();
            },
            RootKind::StringRef => {
                cx.string_roots.pop();
            },
            RootKind::Symbol => {
                cx.symbol_roots.pop();
            },
            RootKind::Script => {
                cx.script_roots.pop();
            },
            RootKind::Id => {
                cx.id_roots.pop();
            },
            RootKind::Value => {
                cx.value_roots.pop();
            },
        }
        proof {
            assert(cx.root_list(kind_of(old(cx).slots@[self.slot as int].value))
                =~= old(cx).root_list(kind_of(old(cx).slots@[self.slot as int].value)).drop_last());
            lemma_release_wf(*old(cx), *cx, self.slot);
        }
        Ok(())
    }
}

/// After a successful top-of-stack release the context is still well formed.
proof fn lemma_release_wf(pre: Context, post: Context, slot: usize)
    requires
        pre.wf(),
        (slot as int) < pre.slots@.len(),
        pre.slots@[slot as int].linked,
        pre.root_list(kind_of(pre.slots@[slot as int].value)).len() > 0,
        pre.root_list(kind_of(pre.slots@[slot as int].value)).last() == slot,
        release_rel(pre, post, slot),
    ensures
        post.wf(),
{
    let k0 = kind_of(pre.slots@[slot as int].value);
    let pl = pre.root_list(k0);
    assert forall|k: RootKind, i: int| 0 <= i < post.root_list(k).len() implies {
        let s = #[trigger] post.root_list(k)[i];
        &&& (s as int) < post.slots@.len()
        &&& post.slots@[s as int].linked
        &&& kind_of(post.slots@[s as int].value) == k
    } by {
        if k == k0 {
            assert(post.root_list(k)[i] == pl[i]);
            assert(i < pl.len() - 1);
            // strictly increasing, so an entry below the top differs from it
            assert(pl[i] < pl[pl.len() - 1]);
            assert(pl[i] != slot);
            assert(post.slots@[pl[i] as int] == pre.slots@[pl[i] as int]);
        } else {
            assert(post.root_list(k) == pre.root_list(k));
            let s = post.root_list(k)[i];
            assert(kind_of(pre.slots@[s as int].value) == k);
            assert(s != slot);
            assert(post.slots@[s as int] == pre.slots@[s as int]);
        }
    }
    assert forall|k: RootKind, i: int, j: int| 0 <= i < j < post.root_list(k).len() implies
        #[trigger] post.root_list(k)[i] < #[trigger] post.root_list(k)[j] by {
        if k == k0 {
            assert(post.root_list(k)[i] == pl[i]);
            assert(post.root_list(k)[j] == pl[j]);
        } else {
            assert(post.root_list(k) == pre.root_list(k));
        }
    }
    assert forall|s: usize|
        (s as int) < post.slots@.len() && (#[trigger] post.slots@[s as int]).linked
            implies post.root_list(kind_of(post.slots@[s as int].value)).contains(s) by {
        assert(s != slot);
        assert(post.slots@[s as int] == pre.slots@[s as int]);
        assert(pre.slots@[s as int].linked);
        let ks = kind_of(pre.slots@[s as int].value);
        let w = choose|w: int| 0 <= w < pre.root_list(ks).len() && pre.root_list(ks)[w] == s;
        if ks == k0 {
            // s is not the top entry, so its witness index lies below the top
            assert(pl[w] == s);
            assert(w != pl.len() - 1);
            assert(post.root_list(ks)[w] == pl[w]);
        } else {
            assert(post.root_list(ks) == pre.root_list(ks));
            assert(post.root_list(ks)[w] == s);
        }
    }
}

/// Well-formedness only concerns the slots, the root lists and the quota
/// tiers; any change elsewhere preserves it.
pub proof fn lemma_wf_unchanged_rooting(pre: Context, post: Context)
    requires
        pre.wf(),
        post.slots@ == pre.slots@,
        roots_unchanged(pre, post),
        post.stack_quota_system == pre.stack_quota_system,
        post.stack_quota_trusted == pre.stack_quota_trusted,
        post.stack_quota_untrusted == pre.stack_quota_untrusted,
    ensures
        post.wf(),
{
    assert forall|k: RootKind, i: int| 0 <= i < post.root_list(k).len() implies {
        let s = #[trigger] post.root_list(k)[i];
        &&& (s as int) < post.slots@.len()
        &&& post.slots@[s as int].linked
        &&& kind_of(post.slots@[s as int].value) == k
    } by {
        assert(post.root_list(k) == pre.root_list(k));
        assert(pre.root_list(k)[i] == post.root_list(k)[i]);
    }
    assert forall|k: RootKind, i: int, j: int| 0 <= i < j < post.root_list(k).len() implies
        #[trigger] post.root_list(k)[i] < #[trigger] post.root_list(k)[j] by {
        assert(post.root_list(k) == pre.root_list(k));
        assert(pre.root_list(k)[i] == post.root_list(k)[i]);
        assert(pre.root_list(k)[j] == post.root_list(k)[j]);
    }
    assert forall|s: usize|
        (s as int) < post.slots@.len() && (#[trigger] post.slots@[s as int]).linked
            implies post.root_list(kind_of(post.slots@[s as int].value)).contains(s) by {
        assert(pre.slots@[s as int].linked);
        let ks = kind_of(pre.slots@[s as int].value);
        assert(post.root_list(ks) == pre.root_list(ks));
    }
}

/// Law: a root acquired and then released leaves every root list of the
/// owning context exactly as it was before the acquisition — no leakage and
/// no double entry — and the release of the freshly acquired slot cannot be
/// rejected, for every supported value kind.
pub proof fn lemma_acquire_release_balanced(
    c0: Context,
    c1: Context,
    c2: Context,
    slot: usize,
    v: RootValue,
)
    requires
        c0.wf(),
        acquire_rel(c0, c1, slot, v),
        release_rel(c1, c2, slot),
    ensures
        c1.root_list(kind_of(v)).len() > 0,
        c1.root_list(kind_of(v)).last() == slot,
        forall|k: RootKind| #[trigger] c2.root_list(k) == c0.root_list(k),
{
    let k0 = kind_of(v);
    assert(c1.slots@[slot as int] == (Slot { value: v, linked: true }));
    assert forall|k: RootKind| #[trigger] c2.root_list(k) == c0.root_list(k) by {
        if k == k0 {
            assert(c2.root_list(k) =~= c0.root_list(k));
        } else {
            assert(c1.root_list(k) == c0.root_list(k));
        }
    }
}

/// Law: nested roots of the same kind must be released innermost first.
/// After two acquisitions of one kind the outer slot is no longer the top of
/// that kind's root list, so releasing the outer guard first is detected and
/// rejected.
pub proof fn lemma_out_of_order_release_rejected(
    c0: Context,
    c1: Context,
    c2: Context,
    s1: usize,
    s2: usize,
    v1: RootValue,
    v2: RootValue,
)
    requires
        c0.wf(),
        acquire_rel(c0, c1, s1, v1),
        acquire_rel(c1, c2, s2, v2),
        kind_of(v1) == kind_of(v2),
    ensures
        c2.root_list(kind_of(v1)).len() > 0,
        c2.root_list(kind_of(v1)).last() != s1,
{
    assert(s2 == c1.slots@.len());
    assert(c2.root_list(kind_of(v1)).last() == s2);
}

/// Law: a value written through a mutable handle is read back identically
/// through a read-only handle on the same rooted slot, before release.
pub proof fn lemma_handle_round_trip(c0: Context, c1: Context, slot: usize, v: RootValue)
    requires
        (slot as int) < c0.slots@.len(),
        write_rel(c0, c1, slot, v),
    ensures
        Handle::Rooted(slot).read(c1) == v,
{
}

/// After an acquisition the context is still well formed.
proof fn lemma_acquire_wf(pre: Context, post: Context, slot: usize, v: RootValue)
    requires
        pre.wf(),
        acquire_rel(pre, post, slot, v),
    ensures
        post.wf(),
{
    let k0 = kind_of(v);
    assert forall|k: RootKind, i: int| 0 <= i < post.root_list(k).len() implies {
        let s = #[trigger] post.root_list(k)[i];
        &&& (s as int) < post.slots@.len()
        &&& post.slots@[s as int].linked
        &&& kind_of(post.slots@[s as int].value) == k
    } by {
        if k == k0 {
            if i < pre.root_list(k).len() {
                assert(post.root_list(k)[i] == pre.root_list(k)[i]);
            } else {
                assert(post.root_list(k)[i] == slot);
            }
        } else {
            assert(post.root_list(k) == pre.root_list(k));
        }
    }
    assert forall|k: RootKind, i: int, j: int| 0 <= i < j < post.root_list(k).len() implies
        #[trigger] post.root_list(k)[i] < #[trigger] post.root_list(k)[j] by {
        if k == k0 {
            if j < pre.root_list(k).len() {
                assert(post.root_list(k)[i] == pre.root_list(k)[i]);
                assert(post.root_list(k)[j] == pre.root_list(k)[j]);
            } else {
                assert(post.root_list(k)[j] == slot);
                assert(post.root_list(k)[i] == pre.root_list(k)[i]);
                assert((pre.root_list(k)[i] as int) < pre.slots@.len());
            }
        } else {
            assert(post.root_list(k) == pre.root_list(k));
        }
    }
    assert forall|s: usize|
        (s as int) < post.slots@.len() && (#[trigger] post.slots@[s as int]).linked
            implies post.root_list(kind_of(post.slots@[s as int].value)).contains(s) by {
        if (s as int) < pre.slots@.len() {
            assert(pre.slots@[s as int].linked);
            let ks = kind_of(pre.slots@[s as int].value);
            let w = choose|w: int|
                0 <= w < pre.root_list(ks).len() && pre.root_list(ks)[w] == s;
            assert(post.root_list(ks)[w] == s);
        } else {
            assert(s == slot);
            assert(post.root_list(k0).last() == slot);
        }
    }
}

} // verus!
