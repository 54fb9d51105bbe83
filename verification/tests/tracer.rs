//! Tests of the explicit-stack tracer and of frame rendering.

use gas_profiler::frame::{zero_address, CallFrame};
use gas_profiler::tracer::VMTracer;

fn plain_frame(function_name: &str) -> CallFrame {
    CallFrame {
        module_address: zero_address(),
        module_name: String::new(),
        function_name: String::from(function_name),
    }
}

#[test]
fn empty_tracer_yields_empty_trace() {
    let tracer = VMTracer::new();
    assert_eq!(tracer.get_trace(), "");
}

#[test]
fn nested_calls_scenario() {
    // Calls A() -> B() -> return from B -> return from A, with remaining gas
    // 1000, 940, 900, 850 observed at the four transitions. The very first
    // start finds the stack empty and emits nothing; each start line shows
    // the caller's path as it stood before the push.
    let mut tracer = VMTracer::new();
    let a = plain_frame("A");
    let b = plain_frame("B");
    tracer.trace_function_call_start(&a, 1000);
    tracer.trace_function_call_start(&b, 940);
    tracer.trace_function_call_end(&b, 900);
    tracer.trace_function_call_end(&a, 850);
    assert_eq!(tracer.get_trace(), "A 60\nA; B 40\nA 50");
}

#[test]
fn balanced_sequence_line_count() {
    // A single-rooted balanced sequence of n calls emits 2 * n - 1 lines:
    // one per transition except the very first start.
    let mut tracer = VMTracer::new();
    let a = plain_frame("A");
    let b = plain_frame("B");
    let c = plain_frame("C");
    tracer.trace_function_call_start(&a, 600);
    tracer.trace_function_call_start(&b, 500);
    tracer.trace_function_call_end(&b, 400);
    tracer.trace_function_call_start(&c, 300);
    tracer.trace_function_call_end(&c, 200);
    tracer.trace_function_call_end(&a, 100);
    let trace = tracer.get_trace();
    assert_eq!(trace.lines().count(), 5);
    assert_eq!(trace, "A 100\nA; B 100\nA 100\nA; C 100\nA 100");
}

#[test]
fn stack_emptied_midway_skips_later_root_start() {
    // When the stack empties midway, the next root-level start also emits
    // nothing, so two sibling root calls yield two lines, not three.
    let mut tracer = VMTracer::new();
    let a = plain_frame("A");
    let b = plain_frame("B");
    tracer.trace_function_call_start(&a, 100);
    tracer.trace_function_call_end(&a, 90);
    tracer.trace_function_call_start(&b, 80);
    tracer.trace_function_call_end(&b, 70);
    assert_eq!(tracer.get_trace(), "A 10\nB 10");
}

#[test]
fn first_event_uses_its_own_gas_as_baseline() {
    // The first observed event has no prior checkpoint: its delta is zero.
    let mut tracer = VMTracer::new();
    let a = plain_frame("A");
    tracer.trace_function_call_start(&a, 250);
    tracer.trace_function_call_end(&a, 250);
    assert_eq!(tracer.get_trace(), "A 0");
}

#[test]
fn checkpoint_moves_exactly_once_per_event() {
    // Each accepted event computes its delta against the immediately
    // preceding checkpoint, never a stale one.
    let mut tracer = VMTracer::new();
    let a = plain_frame("A");
    let b = plain_frame("B");
    let c = plain_frame("C");
    tracer.trace_function_call_start(&a, 1000);
    tracer.trace_function_call_start(&b, 999);
    tracer.trace_function_call_start(&c, 990);
    tracer.trace_function_call_end(&c, 900);
    assert_eq!(tracer.get_trace(), "A 1\nA; B 9\nA; B; C 90");
}

#[test]
fn get_trace_is_repeatable() {
    let mut tracer = VMTracer::new();
    let a = plain_frame("A");
    tracer.trace_function_call_start(&a, 10);
    tracer.trace_function_call_end(&a, 5);
    let first = tracer.get_trace();
    let second = tracer.get_trace();
    assert_eq!(first, second);
    assert_eq!(first, "A 5");
}

#[test]
fn module_qualified_frames_render_in_trace() {
    let mut tracer = VMTracer::new();
    let mut frame = plain_frame("transfer");
    frame.module_name = String::from("Coin");
    tracer.trace_function_call_start(&frame, 80);
    tracer.trace_function_call_end(&frame, 60);
    assert_eq!(
        tracer.get_trace(),
        "00000000000000000000000000000000::Coin::transfer 20"
    );
}

#[test]
fn rendering_is_deterministic() {
    // Re-rendering the same frame twice yields byte-identical output.
    let mut frame = plain_frame("run");
    frame.module_name = String::from("Mod");
    let first = frame.render();
    let second = frame.render();
    assert_eq!(first, second);
    assert_eq!(first.as_bytes(), second.as_bytes());
}

#[test]
fn folded_line_rendering_is_deterministic() {
    let parts = vec![String::from("A"), String::from("B; C")];
    let first = gas_profiler::render::folded_line(&parts, 12345);
    let second = gas_profiler::render::folded_line(&parts, 12345);
    assert_eq!(first, second);
    assert_eq!(first, "A; B; C 12345");
}

#[test]
fn folded_line_zero_gas_and_empty_path() {
    let no_parts: Vec<String> = Vec::new();
    assert_eq!(gas_profiler::render::folded_line(&no_parts, 0), " 0");
    let one = vec![String::from("f")];
    assert_eq!(
        gas_profiler::render::folded_line(&one, 1234567890),
        "f 1234567890"
    );
}
