//! The explicit-stack tracer: maintains the call stack from direct
//! call-start / call-end notifications and accumulates folded stack lines in
//! memory.

use vstd::prelude::*;
use crate::frame::CallFrame;
use crate::render::{folded_line, join_with, spec_folded_line, spec_join_with};
use crate::{gas_delta, spec_gas_delta};

verus! {

/// The abstract state of a tracer: the rendered call path (root first), the
/// folded lines emitted so far, and the last observed remaining-gas value.
#[verifier::ext_equal]
pub struct TracerModel {
    /// Rendered display forms of the active call path, root first.
    pub tracing: Seq<Seq<char>>,
    /// The folded stack lines emitted so far, in emission order.
    pub trace_data: Seq<Seq<char>>,
    /// The gas checkpoint; `None` until the first event is observed.
    pub last_remaining_gas: Option<u64>,
}

/// The state of a tracer before any event.
pub open spec fn spec_initial_tracer() -> TracerModel {
    TracerModel { tracing: Seq::empty(), trace_data: Seq::empty(), last_remaining_gas: None }
}

/// What one call-start does to the tracer state: when the stack is
/// non-empty, emit one folded line for the caller's path (the stack before
/// the push) with the gas consumed since the last checkpoint; then push the
/// new frame and move the checkpoint.
pub open spec fn spec_start_step(m: TracerModel, frame: Seq<char>, remaining_gas: u64) -> TracerModel {
    TracerModel {
        tracing: m.tracing.push(frame),
        trace_data: if m.tracing.len() == 0 {
            m.trace_data
        } else {
            m.trace_data.push(
                spec_folded_line(m.tracing, spec_gas_delta(m.last_remaining_gas, remaining_gas)),
            )
        },
        last_remaining_gas: Some(remaining_gas),
    }
}

/// What one call-end does to the tracer state: emit one folded line for the
/// path including the exiting frame, then pop it and move the checkpoint.
pub open spec fn spec_end_step(m: TracerModel, remaining_gas: u64) -> TracerModel {
    TracerModel {
        tracing: m.tracing.drop_last(),
        trace_data: m.trace_data.push(
            spec_folded_line(m.tracing, spec_gas_delta(m.last_remaining_gas, remaining_gas)),
        ),
        last_remaining_gas: Some(remaining_gas),
    }
}

/// Maintains an explicit, in-process call stack from direct "call started" /
/// "call ended" notifications, and accumulates one folded stack line per
/// transition in memory. Purely in-memory; no output side effects.
pub struct VMTracer {
    /// Rendered display forms of the active call path, root first.
    pub tracing: Vec<String>,
    /// The folded stack lines emitted so far, in emission order.
    pub trace_data: Vec<String>,
    /// The gas checkpoint; `None` until the first event is observed.
    pub last_remaining_gas: Option<u64>,
}

impl Default for VMTracer {
    /// A tracer that has observed no event yet.
    fn default() -> (tracer: VMTracer)
        ensures
            tracer@ == spec_initial_tracer(),
    {
        VMTracer::new()
    }
}

impl View for VMTracer {
    type V = TracerModel;

    open spec fn view(&self) -> TracerModel {
        TracerModel {
            tracing: self.tracing.deep_view(),
            trace_data: self.trace_data.deep_view(),
            last_remaining_gas: self.last_remaining_gas,
        }
    }
}

impl VMTracer {
    /// A tracer that has observed no event yet.
    pub fn new() -> (tracer: VMTracer)
        ensures
            tracer@ == spec_initial_tracer(),
    {
        let tracer = VMTracer {
            tracing: Vec::new(),
            trace_data: Vec::new(),
            last_remaining_gas: None,
        };
        proof {
            assert(tracer@ =~= spec_initial_tracer());
        }
        tracer
    }

    /// Moves the gas checkpoint to `remaining_gas` and returns the gas
    /// consumed since the previous checkpoint (zero on the first event).
    fn gas_used_since_last_event(&mut self, remaining_gas: u64) -> (gas_used: u64)
        requires
            old(self).last_remaining_gas matches Some(l) ==> remaining_gas <= l,
        ensures
            gas_used == spec_gas_delta(old(self).last_remaining_gas, remaining_gas),
            final(self).last_remaining_gas == Some(remaining_gas),
            final(self).tracing == old(self).tracing,
            final(self).trace_data == old(self).trace_data,
    {
        let gas_used = gas_delta(self.last_remaining_gas, remaining_gas);
        self.last_remaining_gas = Some(remaining_gas);
        gas_used
    }

    /// Records that a call began with `remaining_gas` left: when the stack
    /// is non-empty, emits one folded line for the caller's path as it stood
    /// before this call; then pushes the new frame.
    pub fn trace_function_call_start(&mut self, function: &CallFrame, remaining_gas: u64)
        requires
            function.wf(),
            old(self).last_remaining_gas matches Some(l) ==> remaining_gas <= l,
        ensures
            final(self)@ == spec_start_step(old(self)@, function.spec_render(), remaining_gas),
    {
        let gas_used = self.gas_used_since_last_event(remaining_gas);
        if self.tracing.len() > 0 {
            let data = folded_line(&self.tracing, gas_used);
            self.trace_data.push(data);
        }
        self.tracing.push(function.render());
        proof {
            assert(final(self)@ =~= spec_start_step(old(self)@, function.spec_render(), remaining_gas));
        }
    }

    /// Records that the innermost call ended with `remaining_gas` left:
    /// emits one folded line for the path including the exiting frame, then
    /// pops it. A call-end on an empty stack is a precondition violation —
    /// a mismatched start/end pairing from the interpreter.
    pub fn trace_function_call_end(&mut self, _function: &CallFrame, remaining_gas: u64)
        requires
            old(self)@.tracing.len() > 0,
            old(self).last_remaining_gas matches Some(l) ==> remaining_gas <= l,
        ensures
            final(self)@ == spec_end_step(old(self)@, remaining_gas),
    {
        let gas_used = self.gas_used_since_last_event(remaining_gas);
        let data = folded_line(&self.tracing, gas_used);
        self.trace_data.push(data);
        let _ = self.tracing.pop();
        proof {
            assert(final(self)@ =~= spec_end_step(old(self)@, remaining_gas));
        }
    }

    /// All folded lines emitted so far, joined by line feeds, in emission
    /// order; non-destructive and repeatable.
    pub fn get_trace(&self) -> (trace: String)
        ensures
            trace@ == spec_join_with(self@.trace_data, seq!['\n']),
    {
        proof {
            reveal_strlit("\n");
        }
        let trace = join_with(&self.trace_data, "\n");
        proof {
            assert("\n"@ =~= seq!['\n']);
        }
        trace
    }
}

} // verus!
