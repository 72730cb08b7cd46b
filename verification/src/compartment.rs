//! Compartment guards: scoped entry into an execution compartment with
//! guaranteed restoration of the previously current compartment on release.
//! Guards nest and must be released in exact reverse order of acquisition,
//! matching the engine's compartment stack discipline.

use vstd::prelude::*;

use crate::rooting::Context;

verus! {

/// A global object together with the compartment it belongs to.
#[derive(Clone, Copy, PartialEq, Eq, Structural, Debug)]
pub struct GlobalObject {
    pub object: u64,
    pub compartment: u64,
}

/// Rejection of a compartment release that was attempted out of order.
#[derive(Clone, Copy, PartialEq, Eq, Structural, Debug)]
pub enum CompartmentError {
    OutOfOrder,
}

/// A guard recording the compartment that was current at acquisition time
/// and the nesting depth at which it was acquired.
#[derive(Clone, Copy, PartialEq, Eq, Structural, Debug)]
pub struct CompartmentGuard {
    pub prev: Option<u64>,
    pub depth: usize,
}

/// How entering a compartment transforms a context: the target global's
/// compartment becomes current and the previously current compartment is
/// pushed onto the saved stack; nothing else changes.
pub open spec fn enter_rel(
    pre: Context,
    post: Context,
    g: CompartmentGuard,
    target: GlobalObject,
) -> bool {
    &&& g.prev == pre.current_compartment
    &&& g.depth == pre.saved_compartments@.len()
    &&& post.current_compartment == Some(target.compartment)
    &&& post.saved_compartments@ == pre.saved_compartments@.push(pre.current_compartment)
    &&& post.slots@ == pre.slots@
    &&& crate::rooting::roots_unchanged(pre, post)
    &&& post.barrier_log@ == pre.barrier_log@
    &&& post.live_compile_options == pre.live_compile_options
    &&& post.live_object_vectors == pre.live_object_vectors
    &&& post.live_id_vectors == pre.live_id_vectors
    &&& post.gc_max_bytes == pre.gc_max_bytes
    &&& post.stack_quota_system == pre.stack_quota_system
    &&& post.stack_quota_trusted == pre.stack_quota_trusted
    &&& post.stack_quota_untrusted == pre.stack_quota_untrusted
    &&& post.warning_reporter_installed == pre.warning_reporter_installed
}

/// How releasing the innermost guard transforms a context: the compartment
/// recorded at acquisition becomes current again and the saved stack is
/// popped; nothing else changes.
pub open spec fn leave_rel(pre: Context, post: Context, g: CompartmentGuard) -> bool {
    &&& post.current_compartment == g.prev
    &&& post.saved_compartments@ == pre.saved_compartments@.drop_last()
    &&& post.slots@ == pre.slots@
    &&& crate::rooting::roots_unchanged(pre, post)
    &&& post.barrier_log@ == pre.barrier_log@
    &&& post.live_compile_options == pre.live_compile_options
    &&& post.live_object_vectors == pre.live_object_vectors
    &&& post.live_id_vectors == pre.live_id_vectors
    &&& post.gc_max_bytes == pre.gc_max_bytes
    &&& post.stack_quota_system == pre.stack_quota_system
    &&& post.stack_quota_trusted == pre.stack_quota_trusted
    &&& post.stack_quota_untrusted == pre.stack_quota_untrusted
    &&& post.warning_reporter_installed == pre.warning_reporter_installed
}

impl CompartmentGuard {
    /// Enter the compartment of a target global object, remembering the
    /// previously current compartment for restoration.
    pub fn enter(cx: &mut Context, target: &GlobalObject) -> (g: CompartmentGuard)
        requires
            old(cx).wf(),
            old(cx).saved_compartments@.len() < usize::MAX,
        ensures
            final(cx).wf(),
            enter_rel(*old(cx), *final(cx), g, *target),
    {
        let prev = cx.current_compartment;
        let depth = cx.saved_compartments.len();
        cx.saved_compartments.push(prev);
        cx.current_compartment = Some(target.compartment);
        proof {
            crate::rooting::lemma_wf_unchanged_rooting(*old(cx), *cx);
        }
        CompartmentGuard { prev, depth }
    }

    /// Restore the compartment recorded at acquisition. Succeeds exactly
    /// when this guard is the innermost one still held; releasing out of
    /// order is rejected with the context untouched.
    pub fn release(self, cx: &mut Context) -> (r: Result<(), CompartmentError>)
        requires
            old(cx).wf(),
        ensures
            final(cx).wf(),
            r is Ok <==> (self.depth as int) + 1 == old(cx).saved_compartments@.len(),
            r is Ok ==> leave_rel(*old(cx), *final(cx), self),
            r is Err ==> *final(cx) == *old(cx),
    {
        let n = cx.saved_compartments.len();
        if n == 0 || self.depth != n - 1 {
            return Err(CompartmentError::OutOfOrder);
        }
        cx.saved_compartments.pop();
        cx.current_compartment = self.prev;
        proof {
            crate::rooting::lemma_wf_unchanged_rooting(*old(cx), *cx);
        }
        Ok(())
    }
}

/// Law: a compartment guard restores the exact compartment that was current
/// before entry, and leaves the saved stack as it was, whenever it is
/// released — however the guarded region was left.
pub proof fn lemma_compartment_balanced(
    c0: Context,
    c1: Context,
    c2: Context,
    g: CompartmentGuard,
    target: GlobalObject,
)
    requires
        enter_rel(c0, c1, g, target),
        leave_rel(c1, c2, g),
    ensures
        (g.depth as int) + 1 == c1.saved_compartments@.len(),
        c2.current_compartment == c0.current_compartment,
        c2.saved_compartments@ == c0.saved_compartments@,
{
    assert(c2.saved_compartments@ =~= c0.saved_compartments@);
}

} // verus!
