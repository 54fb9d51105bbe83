//! Trace-wide laws of the tracer: how many folded lines a whole call
//! sequence emits, and determinism of folded-line rendering.
//!
//! The tracer's methods are specified as steps over [`TracerModel`]; the
//! lemmas here reason about runs of those steps over event sequences.

use vstd::prelude::*;
use crate::render::spec_folded_line;
use crate::tracer::{TracerModel, spec_end_step, spec_initial_tracer, spec_start_step};

verus! {

/// One call-boundary notification handed to the tracer.
pub enum CallEvent {
    /// A call began; the tracer pushes this rendered frame.
    Start {
        /// The display form of the entered call's frame.
        frame: Seq<char>,
        /// Remaining gas observed at the transition.
        remaining_gas: u64,
    },
    /// The innermost call ended.
    End {
        /// Remaining gas observed at the transition.
        remaining_gas: u64,
    },
}

/// What one event does to the tracer state.
pub open spec fn spec_tracer_step(m: TracerModel, event: CallEvent) -> TracerModel {
    match event {
        CallEvent::Start { frame, remaining_gas } => spec_start_step(m, frame, remaining_gas),
        CallEvent::End { remaining_gas } => spec_end_step(m, remaining_gas),
    }
}

/// The tracer state after a whole sequence of events.
pub open spec fn spec_tracer_run(m: TracerModel, events: Seq<CallEvent>) -> TracerModel
    decreases events.len(),
{
    if events.len() == 0 {
        m
    } else {
        spec_tracer_run(spec_tracer_step(m, events[0]), events.skip(1))
    }
}

/// How one event changes the stack depth (an end on an empty stack, which
/// the tracer forbids, is clamped).
pub open spec fn spec_step_depth(depth: nat, event: CallEvent) -> nat {
    match event {
        CallEvent::Start { .. } => depth + 1,
        CallEvent::End { .. } => if depth >= 1 {
            (depth - 1) as nat
        } else {
            0nat
        },
    }
}

/// The stack depth after a sequence of events, starting from `depth`.
pub open spec fn spec_depth_after(depth: nat, events: Seq<CallEvent>) -> nat
    decreases events.len(),
{
    if events.len() == 0 {
        depth
    } else {
        spec_depth_after(spec_step_depth(depth, events[0]), events.skip(1))
    }
}

/// Whether every end event arrives on a non-empty stack, starting from
/// `depth` — the tracer's precondition along the whole sequence.
pub open spec fn spec_valid_from(depth: nat, events: Seq<CallEvent>) -> bool
    decreases events.len(),
{
    if events.len() == 0 {
        true
    } else {
        &&& (events[0] is End ==> depth >= 1)
        &&& spec_valid_from(spec_step_depth(depth, events[0]), events.skip(1))
    }
}

/// How many start events arrive on an empty stack — exactly the transitions
/// for which the tracer emits no folded line.
pub open spec fn spec_skipped_from(depth: nat, events: Seq<CallEvent>) -> nat
    decreases events.len(),
{
    if events.len() == 0 {
        0nat
    } else {
        (if events[0] is Start && depth == 0 {
            1nat
        } else {
            0nat
        }) + spec_skipped_from(spec_step_depth(depth, events[0]), events.skip(1))
    }
}

/// The number of start events (calls) in a sequence.
pub open spec fn spec_count_starts(events: Seq<CallEvent>) -> nat
    decreases events.len(),
{
    if events.len() == 0 {
        0nat
    } else {
        (if events[0] is Start {
            1nat
        } else {
            0nat
        }) + spec_count_starts(events.skip(1))
    }
}

/// Every event emits exactly one folded line except a start on an empty
/// stack: a run extends the trace by the event count minus the skipped
/// starts.
pub proof fn lemma_run_line_count(m: TracerModel, events: Seq<CallEvent>)
    requires
        spec_valid_from(m.tracing.len(), events),
    ensures
        spec_skipped_from(m.tracing.len(), events) <= events.len(),
        spec_tracer_run(m, events).trace_data.len() == m.trace_data.len() + events.len()
            - spec_skipped_from(m.tracing.len(), events),
    decreases events.len(),
{
    if events.len() > 0 {
        let m2 = spec_tracer_step(m, events[0]);
        match events[0] {
            CallEvent::Start { frame, remaining_gas } => {
                assert(m2.tracing.len() == m.tracing.len() + 1);
            },
            CallEvent::End { remaining_gas } => {
                assert(m.tracing.len() >= 1);
                assert(m2.tracing.len() == m.tracing.len() - 1);
            },
        }
        assert(m2.tracing.len() == spec_step_depth(m.tracing.len(), events[0]));
        lemma_run_line_count(m2, events.skip(1));
    }
}

/// In a valid sequence, the depth change is the surplus of starts over ends:
/// the final depth plus the event count equals the initial depth plus twice
/// the start count.
pub proof fn lemma_depth_counts(depth: nat, events: Seq<CallEvent>)
    requires
        spec_valid_from(depth, events),
    ensures
        spec_depth_after(depth, events) + events.len() == depth + 2 * spec_count_starts(events),
    decreases events.len(),
{
    if events.len() > 0 {
        lemma_depth_counts(spec_step_depth(depth, events[0]), events.skip(1));
    }
}

/// The depth after a prefix of length `i + 1` equals the depth after the
/// corresponding prefix of the tail, started one step in.
pub proof fn lemma_prefix_depth_shift(depth: nat, events: Seq<CallEvent>, i: int)
    requires
        events.len() >= 1,
        0 <= i <= events.len() - 1,
    ensures
        spec_depth_after(depth, events.take(i + 1)) == spec_depth_after(
            spec_step_depth(depth, events[0]),
            events.skip(1).take(i),
        ),
{
    assert(events.take(i + 1)[0] == events[0]);
    assert(events.take(i + 1).skip(1) =~= events.skip(1).take(i));
}

/// When every start event arrives at positive depth, no event is skipped.
pub proof fn lemma_no_skips(depth: nat, events: Seq<CallEvent>)
    requires
        forall|i: int|
            0 <= i < events.len() && events[i] is Start ==> spec_depth_after(
                depth,
                #[trigger] events.take(i),
            ) >= 1,
    ensures
        spec_skipped_from(depth, events) == 0,
    decreases events.len(),
{
    if events.len() > 0 {
        if events[0] is Start {
            assert(events.take(0) =~= Seq::<CallEvent>::empty());
            assert(spec_depth_after(depth, events.take(0)) >= 1);
            assert(depth >= 1);
        }
        let depth2 = spec_step_depth(depth, events[0]);
        assert forall|i: int|
            0 <= i < events.skip(1).len() && events.skip(1)[i] is Start implies spec_depth_after(
            depth2,
            #[trigger] events.skip(1).take(i),
        ) >= 1 by {
            assert(events.skip(1)[i] == events[i + 1]);
            lemma_prefix_depth_shift(depth, events, i);
            assert(spec_depth_after(depth, events.take(i + 1)) >= 1);
        }
        lemma_no_skips(depth2, events.skip(1));
    }
}

/// Law: a balanced, single-rooted call sequence — one that begins with a
/// start, keeps the stack non-empty until its very end, and returns to depth
/// zero — makes the tracer emit exactly twice the number of calls minus one
/// folded line: one line per event, except the very first start, which finds
/// the stack empty.
pub proof fn lemma_balanced_run_line_count(events: Seq<CallEvent>)
    requires
        events.len() >= 1,
        events[0] is Start,
        spec_valid_from(0, events),
        spec_depth_after(0, events) == 0,
        forall|i: int| 1 <= i < events.len() ==> spec_depth_after(0, #[trigger] events.take(i)) >= 1,
    ensures
        events.len() == 2 * spec_count_starts(events),
        spec_tracer_run(spec_initial_tracer(), events).trace_data.len() == 2 * spec_count_starts(
            events,
        ) - 1,
{
    let m0 = spec_initial_tracer();
    assert(m0.tracing.len() == 0);
    lemma_run_line_count(m0, events);
    lemma_depth_counts(0nat, events);
    assert(spec_step_depth(0nat, events[0]) == 1nat);
    assert forall|i: int|
        0 <= i < events.skip(1).len() && events.skip(1)[i] is Start implies spec_depth_after(
        1nat,
        #[trigger] events.skip(1).take(i),
    ) >= 1 by {
        lemma_prefix_depth_shift(0nat, events, i);
        assert(spec_depth_after(0nat, events.take(i + 1)) >= 1);
    }
    lemma_no_skips(1nat, events.skip(1));
    assert(spec_skipped_from(0nat, events) == 1);
}

/// The remaining-gas value an event carries.
pub open spec fn spec_event_gas(event: CallEvent) -> u64 {
    match event {
        CallEvent::Start { frame, remaining_gas } => remaining_gas,
        CallEvent::End { remaining_gas } => remaining_gas,
    }
}

/// Law: every event moves the checkpoint to its own remaining-gas value —
/// exactly once — and the folded line it emits, if any, carries exactly the
/// delta between the immediately preceding checkpoint and that value; the
/// lines already emitted are never touched.
pub proof fn lemma_delta_from_immediate_checkpoint(m: TracerModel, event: CallEvent)
    ensures
        spec_tracer_step(m, event).last_remaining_gas == Some(spec_event_gas(event)),
        spec_tracer_step(m, event).trace_data.take(m.trace_data.len() as int) == m.trace_data,
        spec_tracer_step(m, event).trace_data.len() > m.trace_data.len()
            ==> spec_tracer_step(m, event).trace_data.last() == spec_folded_line(
            m.tracing,
            crate::spec_gas_delta(m.last_remaining_gas, spec_event_gas(event)),
        ),
{
    let m2 = spec_tracer_step(m, event);
    assert(m2.trace_data.take(m.trace_data.len() as int) =~= m.trace_data);
}

/// Law: folded-path rendering is deterministic — rendering the same call
/// path and gas delta twice yields byte-identical lines.
pub proof fn lemma_folded_line_deterministic(
    parts: Seq<Seq<char>>,
    gas_used: u64,
    line1: Seq<char>,
    line2: Seq<char>,
)
    requires
        line1 == spec_folded_line(parts, gas_used),
        line2 == spec_folded_line(parts, gas_used),
    ensures
        line1 == line2,
{
}

} // verus!
