//! Scoped wrappers for engine-allocated auxiliary resources: object
//! vectors, property-id vectors and per-call compile-options objects. Each
//! wrapper is created against a context, owns its storage for its scope,
//! and is destroyed through the matching release call exactly once — the
//! context counts the live allocations of each sort so that balance is
//! visible in every contract.

use vstd::prelude::*;

use crate::rooting::Context;

verus! {

/// Only the named live-allocation counter distinguishes two context states.
pub open spec fn counters_frame(
    pre: Context,
    post: Context,
    options: int,
    vectors: int,
    ids: int,
) -> bool {
    &&& post.slots@ == pre.slots@
    &&& crate::rooting::roots_unchanged(pre, post)
    &&& post.barrier_log@ == pre.barrier_log@
    &&& post.current_compartment == pre.current_compartment
    &&& post.saved_compartments@ == pre.saved_compartments@
    &&& post.live_compile_options == pre.live_compile_options + options
    &&& post.live_object_vectors == pre.live_object_vectors + vectors
    &&& post.live_id_vectors == pre.live_id_vectors + ids
    &&& post.gc_max_bytes == pre.gc_max_bytes
    &&& post.stack_quota_system == pre.stack_quota_system
    &&& post.stack_quota_trusted == pre.stack_quota_trusted
    &&& post.stack_quota_untrusted == pre.stack_quota_untrusted
    &&& post.warning_reporter_installed == pre.warning_reporter_installed
}

/// A scoped, engine-allocated vector of object references.
pub struct AutoObjectVectorWrapper {
    pub items: Vec<u64>,
}

impl AutoObjectVectorWrapper {
    /// Allocate an empty object vector against a context.
    pub fn new(cx: &mut Context) -> (w: AutoObjectVectorWrapper)
        requires
            old(cx).wf(),
            old(cx).live_object_vectors < usize::MAX,
        ensures
            final(cx).wf(),
            counters_frame(*old(cx), *final(cx), 0, 1, 0),
            w.items@.len() == 0,
    {
        cx.live_object_vectors = cx.live_object_vectors + 1;
        proof {
            crate::rooting::lemma_wf_unchanged_rooting(*old(cx), *cx);
        }
        AutoObjectVectorWrapper { items: Vec::new() }
    }

    /// Append one object reference. Returns false only on allocation
    /// failure, in which case the vector is unchanged; the caller must
    /// check.
    pub fn append(&mut self, obj: u64) -> (r: bool)
        requires
            old(self).items@.len() < usize::MAX,
        ensures
            r ==> final(self).items@ == old(self).items@.push(obj),
            !r ==> final(self).items@ == old(self).items@,
            r,
    {
        self.items.push(obj);
        true
    }

    /// How many object references the vector holds.
    pub fn len(&self) -> (n: usize)
        ensures
            n == self.items@.len(),
    {
        self.items.len()
    }

    /// One held object reference.
    pub fn get(&self, i: usize) -> (obj: u64)
        requires
            i < self.items@.len(),
        ensures
            obj == self.items@[i as int],
    {
        self.items[i]
    }

    /// Release the engine-allocated storage. Consuming the wrapper makes a
    /// double release unrepresentable.
    pub fn release(self, cx: &mut Context)
        requires
            old(cx).wf(),
            old(cx).live_object_vectors > 0,
        ensures
            final(cx).wf(),
            counters_frame(*old(cx), *final(cx), 0, -1, 0),
    {
        cx.live_object_vectors = cx.live_object_vectors - 1;
        proof {
            crate::rooting::lemma_wf_unchanged_rooting(*old(cx), *cx);
        }
    }
}

/// A scoped, engine-allocated vector of property identifiers.
pub struct IdVector {
    pub ids: Vec<u64>,
}

impl IdVector {
    /// Allocate an empty property-id vector against a context.
    pub fn new(cx: &mut Context) -> (w: IdVector)
        requires
            old(cx).wf(),
            old(cx).live_id_vectors < usize::MAX,
        ensures
            final(cx).wf(),
            counters_frame(*old(cx), *final(cx), 0, 0, 1),
            w.ids@.len() == 0,
    {
        cx.live_id_vectors = cx.live_id_vectors + 1;
        proof {
            crate::rooting::lemma_wf_unchanged_rooting(*old(cx), *cx);
        }
        IdVector { ids: Vec::new() }
    }

    /// Borrow the held identifiers; the view is valid only while the owning
    /// vector is alive.
    pub fn get(&self) -> (ids: &Vec<u64>)
        ensures
            ids@ == self.ids@,
    {
        &self.ids
    }

    /// How many identifiers the vector holds.
    pub fn len(&self) -> (n: usize)
        ensures
            n == self.ids@.len(),
    {
        self.ids.len()
    }

    /// Release the engine-allocated storage exactly once.
    pub fn release(self, cx: &mut Context)
        requires
            old(cx).wf(),
            old(cx).live_id_vectors > 0,
        ensures
            final(cx).wf(),
            counters_frame(*old(cx), *final(cx), 0, 0, -1),
    {
        cx.live_id_vectors = cx.live_id_vectors - 1;
        proof {
            crate::rooting::lemma_wf_unchanged_rooting(*old(cx), *cx);
        }
    }
}

/// A per-call, scoped compile-options object: the filename reported in
/// diagnostics and the starting line number.
pub struct CompileOptionsWrapper {
    pub filename: Vec<u8>,
    pub line: u32,
}

impl CompileOptionsWrapper {
    /// Allocate a compile-options object against a context.
    pub fn new(cx: &mut Context, filename: &[u8], line: u32) -> (w: CompileOptionsWrapper)
        requires
            old(cx).wf(),
            old(cx).live_compile_options < usize::MAX,
        ensures
            final(cx).wf(),
            counters_frame(*old(cx), *final(cx), 1, 0, 0),
            w.filename@ == filename@,
            w.line == line,
    {
        cx.live_compile_options = cx.live_compile_options + 1;
        proof {
            crate::rooting::lemma_wf_unchanged_rooting(*old(cx), *cx);
        }
        let mut name: Vec<u8> = Vec::new();
        name.extend_from_slice(filename);
        proof {
            assert(name@ =~= filename@);
        }
        CompileOptionsWrapper { filename: name, line }
    }

    /// Release the compile-options object exactly once.
    pub fn release(self, cx: &mut Context)
        requires
            old(cx).wf(),
            old(cx).live_compile_options > 0,
        ensures
            final(cx).wf(),
            counters_frame(*old(cx), *final(cx), -1, 0, 0),
    {
        cx.live_compile_options = cx.live_compile_options - 1;
        proof {
            crate::rooting::lemma_wf_unchanged_rooting(*old(cx), *cx);
        }
    }
}

} // verus!
