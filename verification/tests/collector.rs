//! Tests of the span-driven collector: the notification filter, attribute
//! extraction, and per-event folded-line output.

use gas_profiler::collector::{enabled, GasEvent, SpanCollector};
use gas_profiler::frame::{zero_address, CallFrame};

fn plain_frame(function_name: &str) -> CallFrame {
    CallFrame {
        module_address: zero_address(),
        module_name: String::new(),
        function_name: String::from(function_name),
    }
}

#[test]
fn filter_accepts_only_call_boundaries() {
    assert!(enabled(true, false, "start", ""));
    assert!(enabled(true, false, "end", ""));
    assert!(!enabled(true, false, "other", ""));
    assert!(enabled(false, true, "", "root"));
    assert!(enabled(false, true, "", "call"));
    assert!(enabled(false, true, "", "call_generic"));
    assert!(!enabled(false, true, "", "span"));
    assert!(!enabled(false, false, "start", "call"));
}

#[test]
fn gas_event_reads_only_remaining_gas() {
    let mut event = GasEvent::default();
    assert_eq!(event.remaining_gas, 0);
    event.record_u64_field("elapsed", 77);
    assert_eq!(event.remaining_gas, 0);
    event.record_u64_field("remaining_gas", 944);
    assert_eq!(event.remaining_gas, 944);
}

#[test]
fn root_level_start_is_discarded_but_root_end_is_not() {
    // A "start" whose span has no parent produces no line; the matching
    // "end" for that same root span still produces exactly one line.
    let mut collector = SpanCollector::new(1000);
    let root_chain = vec![plain_frame("A")];
    let line = collector.on_gas_event("start", 940, &root_chain);
    assert!(line.is_none());
    assert_eq!(collector.last_remaining_gas, 940);
    let line = collector.on_gas_event("end", 900, &root_chain);
    assert_eq!(line, Some(String::from("A 40")));
}

#[test]
fn start_line_shows_the_callers_path() {
    let mut collector = SpanCollector::new(1000);
    let chain = vec![plain_frame("A"), plain_frame("B")];
    let line = collector.on_gas_event("start", 940, &chain);
    assert_eq!(line, Some(String::from("A 60")));
}

#[test]
fn end_line_includes_the_exiting_frame() {
    let mut collector = SpanCollector::new(500);
    let chain = vec![plain_frame("A"), plain_frame("B"), plain_frame("C")];
    let line = collector.on_gas_event("end", 350, &chain);
    assert_eq!(line, Some(String::from("A; B; C 150")));
}

#[test]
fn unrecognized_event_leaves_the_collector_untouched() {
    let mut collector = SpanCollector::new(800);
    let chain = vec![plain_frame("A")];
    let line = collector.on_gas_event("tick", 100, &chain);
    assert!(line.is_none());
    assert_eq!(collector.last_remaining_gas, 800);
    // The next accepted event still computes its delta from the untouched
    // checkpoint.
    let line = collector.on_gas_event("end", 700, &chain);
    assert_eq!(line, Some(String::from("A 100")));
}

#[test]
fn nested_span_scenario() {
    // The span-driven collector reproduces the tracer's view of the same
    // execution: A() -> B() -> return -> return, with a start discarded at
    // the root and every other transition emitting one line.
    let mut collector = SpanCollector::new(1000);
    let chain_a = vec![plain_frame("A")];
    let chain_ab = vec![plain_frame("A"), plain_frame("B")];
    let mut lines: Vec<String> = Vec::new();
    if let Some(line) = collector.on_gas_event("start", 1000, &chain_a) {
        lines.push(line);
    }
    if let Some(line) = collector.on_gas_event("start", 940, &chain_ab) {
        lines.push(line);
    }
    if let Some(line) = collector.on_gas_event("end", 900, &chain_ab) {
        lines.push(line);
    }
    if let Some(line) = collector.on_gas_event("end", 850, &chain_a) {
        lines.push(line);
    }
    assert_eq!(lines, vec!["A 60", "A; B 40", "A 50"]);
}

#[test]
fn span_attributes_fill_the_frame() {
    let mut frame = CallFrame::default();
    frame.record_str_field("module_address", "0xA550C18");
    frame.record_str_field("module_name", "Account");
    frame.record_str_field("function_name", "pay_from");
    assert_eq!(frame.module_name, "Account");
    assert_eq!(frame.function_name, "pay_from");
    assert_eq!(
        frame.render(),
        "0000000000000000000000000A550C18::Account::pay_from"
    );
}

#[test]
fn malformed_or_unknown_attributes_are_ignored() {
    let mut frame = CallFrame::default();
    frame.record_str_field("module_address", "no-prefix");
    frame.record_str_field("module_address", "0xNOTHEX");
    frame.record_str_field(
        "module_address",
        "0x123456789012345678901234567890123", // 33 digits: too long
    );
    frame.record_str_field("line_number", "17");
    frame.record_str_field("function_name", "f");
    // The address stays the all-zero sentinel and the module name empty, so
    // the display form is the bare function name.
    assert_eq!(frame.render(), "f");
}

#[test]
fn lowercase_hex_literal_renders_uppercase() {
    let mut frame = CallFrame::default();
    frame.record_str_field("module_address", "0xdeadbeef");
    frame.record_str_field("module_name", "M");
    frame.record_str_field("function_name", "f");
    assert_eq!(frame.render(), "000000000000000000000000DEADBEEF::M::f");
}

#[test]
fn bare_prefix_parses_to_the_zero_address() {
    let mut frame = CallFrame::default();
    frame.record_str_field("module_address", "0x");
    frame.record_str_field("module_name", "M");
    frame.record_str_field("function_name", "f");
    assert_eq!(frame.render(), "00000000000000000000000000000000::M::f");
}
