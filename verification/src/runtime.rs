//! Runtime lifecycle: the process-wide engine with its one-time
//! initialization latch and permanent ancestor context, per-thread execution
//! contexts with their garbage-collection and stack-quota configuration,
//! script evaluation, and warning reporting.

use vstd::prelude::*;

use crate::codec::encode_utf16_units;
use crate::codec::first_nul;
use crate::codec::latin1_points;
use crate::codec::utf16_decode_lossy;
use crate::codec::decode_utf16_lossy;
use crate::codec::latin1_to_points;
use crate::codec::take_until_nul;
use crate::collections::CompileOptionsWrapper;
use crate::compartment::CompartmentGuard;
use crate::compartment::GlobalObject;
use crate::rooting::Context;
use crate::rooting::MutableHandle;
use crate::value::RootValue;
use crate::value::RootKind;
use crate::value::Value;
use crate::value::kind_of;

verus! {

/// The default nominal heap size handed to context creation.
pub const DEFAULT_HEAP_SIZE: u32 = 32 * 1024 * 1024;

/// The native stack quota for system code.
pub const STACK_QUOTA: usize = 128 * 8 * 1024;

/// The buffer between the system-code tier and the trusted-script tier.
pub const SYSTEM_CODE_BUFFER: usize = 10 * 1024;

/// The buffer between the trusted-script tier and the untrusted-script
/// tier.
pub const TRUSTED_SCRIPT_BUFFER: usize = 8 * 12800;

/// The process-wide engine: whether its one-time initialization has run,
/// how often the one-time setup actually executed, whether the ancestor
/// context owned by the background thread is alive, and how many per-thread
/// contexts are live.
pub struct Engine {
    pub initialized: bool,
    pub init_runs: u64,
    pub parent_alive: bool,
    pub live_contexts: u64,
}

impl Engine {
    /// The one-time latch is sound: the setup has run exactly as often as
    /// the latch reports, and the ancestor context exists exactly when
    /// initialization has happened.
    pub open spec fn wf(self) -> bool {
        &&& self.init_runs == if self.initialized {
            1int
        } else {
            0int
        }
        &&& self.parent_alive == self.initialized
    }

    /// A freshly started process: nothing initialized, no contexts.
    pub fn new() -> (e: Engine)
        ensures
            e.wf(),
            !e.initialized,
            e.init_runs == 0,
            !e.parent_alive,
            e.live_contexts == 0,
    {
        Engine { initialized: false, init_runs: 0, parent_alive: false, live_contexts: 0 }
    }

    /// Run the process-wide initialization at most once: the first call
    /// performs the engine setup and creates the ancestor context; every
    /// later call finds the latch closed and changes nothing.
    pub fn ensure_initialized(&mut self)
        requires
            old(self).wf(),
        ensures
            final(self).wf(),
            final(self).initialized,
            final(self).parent_alive,
            final(self).live_contexts == old(self).live_contexts,
            old(self).initialized ==> *final(self) == *old(self),
            !old(self).initialized ==> final(self).init_runs == old(self).init_runs + 1,
    {
        if !self.initialized {
            self.init_runs = self.init_runs + 1;
            self.parent_alive = true;
            self.initialized = true;
        }
    }
}

/// Law: under the one-time latch's soundness invariant the engine setup has
/// run at most once in the process, however many threads asked for it.
pub proof fn lemma_engine_init_at_most_once(e: Engine)
    requires
        e.wf(),
    ensures
        e.init_runs <= 1,
{
}

/// A per-thread execution context wrapper: the single owner of one context.
/// Ownership is not copyable, so the context is destroyed at most once and
/// cannot be used afterwards.
pub struct Runtime {
    pub context: Context,
}

impl Runtime {
    /// Create a per-thread context derived from the ancestor: ensure the
    /// process-wide initialization has run, lift the nominal heap threshold
    /// so only the allocator's last-ditch collection trigger fires, set the
    /// three descending stack-quota tiers, and install the warning
    /// reporter.
    pub fn new(engine: &mut Engine) -> (rt: Runtime)
        requires
            old(engine).wf(),
            old(engine).live_contexts < u64::MAX,
        ensures
            final(engine).wf(),
            final(engine).initialized,
            final(engine).parent_alive,
            final(engine).live_contexts == old(engine).live_contexts + 1,
            !old(engine).initialized ==> final(engine).init_runs == old(engine).init_runs + 1,
            old(engine).initialized ==> final(engine).init_runs == old(engine).init_runs,
            rt.context.wf(),
            rt.context.slots@.len() == 0,
            forall|k: RootKind| (#[trigger] rt.context.root_list(k)).len() == 0,
            rt.context.barrier_log@.len() == 0,
            rt.context.current_compartment is None,
            rt.context.saved_compartments@.len() == 0,
            rt.context.live_compile_options == 0,
            rt.context.live_object_vectors == 0,
            rt.context.live_id_vectors == 0,
            rt.context.gc_max_bytes == u32::MAX,
            rt.context.stack_quota_system == STACK_QUOTA,
            rt.context.stack_quota_trusted == STACK_QUOTA - SYSTEM_CODE_BUFFER,
            rt.context.stack_quota_untrusted == STACK_QUOTA - SYSTEM_CODE_BUFFER
                - TRUSTED_SCRIPT_BUFFER,
            rt.context.warning_reporter_installed,
    {
        engine.ensure_initialized();
        engine.live_contexts = engine.live_contexts + 1;
        let cx = Context {
            slots: Vec::new(),
            object_roots: Vec::new(),
            string_roots: Vec::new(),
            symbol_roots: Vec::new(),
            script_roots: Vec::new(),
            id_roots: Vec::new(),
            value_roots: Vec::new(),
            barrier_log: Vec::new(),
            current_compartment: None,
            saved_compartments: Vec::new(),
            live_compile_options: 0,
            live_object_vectors: 0,
            live_id_vectors: 0,
            gc_max_bytes: u32::MAX,
            stack_quota_system: STACK_QUOTA,
            stack_quota_trusted: STACK_QUOTA - SYSTEM_CODE_BUFFER,
            stack_quota_untrusted: STACK_QUOTA - SYSTEM_CODE_BUFFER - TRUSTED_SCRIPT_BUFFER,
            warning_reporter_installed: true,
        };
        Runtime { context: cx }
    }

    /// Borrow the underlying context.
    pub fn cx(&self) -> (cx: &Context)
        ensures
            *cx == self.context,
    {
        &self.context
    }

    /// Mutably borrow the underlying context.
    pub fn cx_mut(&mut self) -> (cx: &mut Context)
        ensures
            *cx == old(self).context,
            final(self).context == *final(cx),
    {
        &mut self.context
    }

    /// Evaluate source text against a global object. The source is encoded
    /// to UTF-16 (a zero-length script encodes to zero units and is
    /// evaluated like any other), the global's compartment is entered and
    /// restored around the call, a per-call compile-options object is
    /// created and released, and the engine's execution outcome decides the
    /// result: on success the produced value is stored through `rval` (with
    /// its post-barrier), on failure the failure is returned and the slot
    /// stays untouched.
    pub fn evaluate_script(
        &mut self,
        glob: &GlobalObject,
        script: &str,
        filename: &str,
        line_num: u32,
        rval: MutableHandle,
        outcome: Result<Value, ()>,
    ) -> (r: Result<(), ()>)
        requires
            old(self).context.wf(),
            old(self).context.saved_compartments@.len() < usize::MAX,
            old(self).context.live_compile_options < usize::MAX,
            (rval.slot as int) < old(self).context.slots@.len(),
            old(self).context.slots@[rval.slot as int].linked,
            kind_of(old(self).context.slots@[rval.slot as int].value) == RootKind::Value,
        ensures
            final(self).context.wf(),
            r is Ok <==> outcome is Ok,
            final(self).context.current_compartment == old(self).context.current_compartment,
            final(self).context.saved_compartments@ == old(self).context.saved_compartments@,
            final(self).context.live_compile_options == old(self).context.live_compile_options,
            final(self).context.live_object_vectors == old(self).context.live_object_vectors,
            final(self).context.live_id_vectors == old(self).context.live_id_vectors,
            crate::rooting::roots_unchanged(old(self).context, final(self).context),
            outcome matches Ok(v) ==> final(self).context.slots@ == old(self).context.slots@
                .update(rval.slot as int, (crate::rooting::Slot {
                    value: RootValue::Tagged(v),
                    linked: true,
                })),
            outcome matches Ok(v) ==> final(self).context.barrier_log@ == old(
                self,
            ).context.barrier_log@.push((crate::rooting::BarrierEvent {
                slot: rval.slot,
                prev: old(self).context.slots@[rval.slot as int].value,
                next: RootValue::Tagged(v),
            })),
            outcome is Err ==> final(self).context.slots@ == old(self).context.slots@,
            outcome is Err ==> final(self).context.barrier_log@ == old(self).context.barrier_log@,
    {
        // the engine consumes the encoded units; a zero-length script encodes
        // to zero units and needs no special path here
        let _units = encode_utf16_units(script);
        let guard = CompartmentGuard::enter(&mut self.context, glob);
        let options = CompileOptionsWrapper::new(&mut self.context, filename.as_bytes(), line_num);
        let result: Result<(), ()> = match outcome {
            Ok(v) => {
                rval.set(&mut self.context, RootValue::Tagged(v));
                Ok(())
            },
            Err(()) => Err(()),
        };
        options.release(&mut self.context);
        match guard.release(&mut self.context) {
            Ok(()) => result,
            Err(_) => {
                proof {
                    assert(false);
                }
                Err(())
            },
        }
    }

    /// Destroy the context exactly once, releasing its engine resources.
    /// Consuming the runtime makes double destruction and use after
    /// destruction unrepresentable.
    pub fn destroy(self, engine: &mut Engine)
        requires
            old(engine).wf(),
            old(engine).live_contexts > 0,
        ensures
            final(engine).wf(),
            final(engine).initialized == old(engine).initialized,
            final(engine).init_runs == old(engine).init_runs,
            final(engine).parent_alive == old(engine).parent_alive,
            final(engine).live_contexts == old(engine).live_contexts - 1,
    {
        engine.live_contexts = engine.live_contexts - 1;
    }
}

/// An engine diagnostic as it arrives at the warning reporter: an optional
/// Latin-1 filename, the source position, and a nul-terminated UTF-16
/// message.
pub struct ErrorReport {
    pub filename: Option<Vec<u8>>,
    pub lineno: u32,
    pub column: u32,
    pub message: Vec<u16>,
}

/// A decoded warning ready for the logging sink: filename and message as
/// Unicode code points, with the source position.
pub struct Warning {
    pub filename: Vec<u32>,
    pub lineno: u32,
    pub column: u32,
    pub message: Vec<u32>,
}

/// The code points of the placeholder filename used when the report
/// carries none.
pub open spec fn missing_filename_points() -> Seq<u32> {
    seq![110u32, 111u32, 110u32, 101u32]
}

/// Decode an engine diagnostic for the logging sink: the Latin-1 filename
/// is widened (or replaced by a placeholder when absent), and the message
/// is cut at its nul terminator and decoded from UTF-16, lossily. Warnings
/// do not stop execution; the caller only logs the result.
pub fn report_warning(report: &ErrorReport) -> (w: Warning)
    ensures
        w.lineno == report.lineno,
        w.column == report.column,
        report.filename matches Some(name) ==> w.filename@ == latin1_points(name@),
        report.filename is None ==> w.filename@ == missing_filename_points(),
        w.message@ == utf16_decode_lossy(report.message@.take(first_nul(report.message@))),
{
    let filename: Vec<u32> = match &report.filename {
        Some(name) => latin1_to_points(name),
        None => {
            let mut v: Vec<u32> = Vec::new();
            v.push(110);
            v.push(111);
            v.push(110);
            v.push(101);
            proof {
                assert(v@ =~= missing_filename_points());
            }
            v
        },
    };
    let terminated = take_until_nul(&report.message);
    let message = decode_utf16_lossy(&terminated);
    Warning { filename, lineno: report.lineno, column: report.column, message }
}

} // verus!
