//! The span-driven collector: the filter, attribute extraction, and
//! per-event logic used when call entry/exit arrives as hierarchical spans
//! from an ambient event-subscription framework.
//!
//! The framework itself (span registration, ancestor lookup, the output
//! sink) lives outside this library; the embedding adapter resolves each
//! event's span to its ancestor chain of recorded [`CallFrame`]s, root
//! first, and hands the plain values here. This module decides, for every
//! event, the new checkpoint and the folded line to write, if any.

use vstd::prelude::*;
use crate::frame::CallFrame;
use crate::render::{folded_line, spec_folded_line, str_eq};
use crate::{gas_delta, spec_gas_delta};

verus! {

/// Whether a notification is accepted: events tagged `start` or `end`, and
/// spans named after one of the call-boundary kinds; everything else is
/// ignored.
pub open spec fn spec_enabled(
    is_event: bool,
    is_span: bool,
    target: Seq<char>,
    name: Seq<char>,
) -> bool {
    if is_event {
        target == "start"@ || target == "end"@
    } else if is_span {
        name == "root"@ || name == "call"@ || name == "call_generic"@
    } else {
        false
    }
}

/// The filter predicate over a notification's metadata: its kind, the
/// event's target tag, and the span's name.
pub fn enabled(is_event: bool, is_span: bool, target: &str, name: &str) -> (accepted: bool)
    ensures
        accepted == spec_enabled(is_event, is_span, target@, name@),
{
    if is_event {
        str_eq(target, "start") || str_eq(target, "end")
    } else if is_span {
        str_eq(name, "root") || str_eq(name, "call") || str_eq(name, "call_generic")
    } else {
        false
    }
}

/// The payload of one gas-checkpoint event: the remaining gas, zero when the
/// event carries no such field.
pub struct GasEvent {
    /// Remaining gas as reported by the event; zero when absent.
    pub remaining_gas: u64,
}

impl GasEvent {
    /// Records one integer-valued event field; only `remaining_gas` is
    /// recognized, every other field is ignored.
    pub fn record_u64_field(&mut self, field_name: &str, value: u64)
        ensures
            (if field_name@ == "remaining_gas"@ {
                final(self).remaining_gas == value
            } else {
                *final(self) == *old(self)
            }),
    {
        if str_eq(field_name, "remaining_gas") {
            self.remaining_gas = value;
        }
    }
}

impl Default for GasEvent {
    /// The payload before any field is recorded: zero remaining gas.
    fn default() -> (event: GasEvent)
        ensures
            event.remaining_gas == 0,
    {
        GasEvent { remaining_gas: 0 }
    }
}

/// The display forms of a chain of frames, in order.
pub open spec fn spec_rendered_chain(frames: Seq<CallFrame>) -> Seq<Seq<char>> {
    frames.map(|i: int, f: CallFrame| f.spec_render())
}

/// Renders the first `count` frames of a chain.
fn render_chain(chain: &Vec<CallFrame>, count: usize) -> (parts: Vec<String>)
    requires
        count <= chain@.len(),
        forall|i: int| 0 <= i < chain@.len() ==> chain@[i].wf(),
    ensures
        parts.deep_view() == spec_rendered_chain(chain@.take(count as int)),
{
    let mut parts: Vec<String> = Vec::new();
    let mut i: usize = 0;
    while i < count
        invariant
            i <= count <= chain@.len(),
            forall|j: int| 0 <= j < chain@.len() ==> chain@[j].wf(),
            parts.deep_view() =~= spec_rendered_chain(chain@.take(i as int)),
        decreases count - i,
    {
        let ghost pre = parts@;
        let ghost pre_dv = parts.deep_view();
        let rendered = chain[i].render();
        let ghost r_view = rendered@;
        parts.push(rendered);
        proof {
            assert(pre_dv.len() == i);
            assert(pre.len() == i);
            assert(parts@.len() == i + 1);
            assert forall|j: int| 0 <= j < i + 1 implies parts.deep_view()[j]
                == spec_rendered_chain(chain@.take(i + 1))[j] by {
                assert(chain@.take(i + 1)[j] == chain@[j]);
                assert(spec_rendered_chain(chain@.take(i + 1))[j] == chain@[j].spec_render());
                if j < i {
                    assert(parts@[j] == pre[j]);
                    assert(parts.deep_view()[j] == pre[j]@);
                    assert(pre_dv[j] == pre[j]@);
                    assert(chain@.take(i as int)[j] == chain@[j]);
                    assert(pre_dv[j] == chain@[j].spec_render());
                } else {
                    assert(parts@[j]@ == r_view);
                    assert(parts.deep_view()[j] == parts@[j]@);
                }
            }
            assert(parts.deep_view() =~= spec_rendered_chain(chain@.take(i + 1)));
        }
        i += 1;
    }
    parts
}

/// Reconstructs call paths from span ancestor chains and yields one folded
/// line per accepted gas event, for the embedding adapter to write to the
/// shared sink. It owns the single gas checkpoint shared by all events of a
/// trace session.
#[derive(Debug)]
pub struct SpanCollector {
    /// The last observed remaining-gas value.
    pub last_remaining_gas: u64,
}

impl SpanCollector {
    /// A collector whose checkpoint starts at the given remaining-gas value.
    pub fn new(remaining_gas: u64) -> (collector: SpanCollector)
        ensures
            collector.last_remaining_gas == remaining_gas,
    {
        SpanCollector { last_remaining_gas: remaining_gas }
    }

    /// Handles one event. `chain` is the recorded frame chain of the event's
    /// owning span, root first and including that span itself.
    ///
    /// A `start` event moves the checkpoint and, unless the owning span is
    /// the tree root, yields one folded line for the caller's path (the
    /// chain without its last frame). A root-level `start` is discarded
    /// after the checkpoint moves. An `end` event moves the checkpoint and
    /// always yields one folded line for the full chain, the exiting frame
    /// included. Any other event leaves the collector untouched.
    pub fn on_gas_event(&mut self, category: &str, remaining_gas: u64, chain: &Vec<CallFrame>) -> (line: Option<
        String,
    >)
        requires
            forall|i: int| 0 <= i < chain@.len() ==> chain@[i].wf(),
            (category@ == "start"@ || category@ == "end"@) ==> remaining_gas <= old(
                self,
            ).last_remaining_gas,
        ensures
            (if category@ == "start"@ {
                &&& final(self).last_remaining_gas == remaining_gas
                &&& (if chain@.len() <= 1 {
                    line is None
                } else {
                    match line {
                        Some(l) => l@ == spec_folded_line(
                            spec_rendered_chain(chain@.drop_last()),
                            spec_gas_delta(Some(old(self).last_remaining_gas), remaining_gas),
                        ),
                        None => false,
                    }
                })
            } else if category@ == "end"@ {
                &&& final(self).last_remaining_gas == remaining_gas
                &&& (match line {
                    Some(l) => l@ == spec_folded_line(
                        spec_rendered_chain(chain@),
                        spec_gas_delta(Some(old(self).last_remaining_gas), remaining_gas),
                    ),
                    None => false,
                })
            } else {
                *final(self) == *old(self) && line is None
            }),
    {
        if str_eq(category, "start") {
            let gas_used = gas_delta(Some(self.last_remaining_gas), remaining_gas);
            self.last_remaining_gas = remaining_gas;
            if chain.len() <= 1 {
                // The owning span is the tree root: skip the degenerate
                // root-entry line. The checkpoint has already moved.
                return None;
            }
            let parts = render_chain(chain, chain.len() - 1);
            proof {
                assert(chain@.take(chain@.len() - 1) =~= chain@.drop_last());
            }
            Some(folded_line(&parts, gas_used))
        } else if str_eq(category, "end") {
            let gas_used = gas_delta(Some(self.last_remaining_gas), remaining_gas);
            self.last_remaining_gas = remaining_gas;
            let parts = render_chain(chain, chain.len());
            proof {
                assert(chain@.take(chain@.len() as int) =~= chain@);
            }
            Some(folded_line(&parts, gas_used))
        } else {
            None
        }
    }
}

} // verus!
