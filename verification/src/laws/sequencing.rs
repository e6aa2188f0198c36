//! Taking events one after the other: a list of events or of attributes does
//! what its parts do in turn.

use crate::event::{AttributeModel, EventModel};
use crate::interpreter::{Failure, InterpreterModel, Outcome, Run};
use vstd::prelude::*;

verus! {

/// One outcome followed by another: the second starts where the first ended,
/// unless the first failed.
pub open spec fn outcome_then(first: Outcome, second: Outcome) -> Outcome {
    if first.failed {
        first
    } else {
        Outcome {
            next: second.next,
            written: first.written + second.written,
            failed: second.failed,
        }
    }
}

/// One run followed by another: the second starts where the first ended, unless
/// the first failed.
pub open spec fn run_then(first: Run, second: Run) -> Run {
    if first.failure is Some {
        first
    } else {
        Run {
            machine: second.machine,
            written: first.written + second.written,
            failure: second.failure,
        }
    }
}

/// Taking a list of attributes is taking its first part and then, from where
/// that ended, the rest.
pub proof fn lemma_attributes_in_two_parts(
    m: InterpreterModel,
    a: Seq<Option<AttributeModel>>,
    b: Seq<Option<AttributeModel>>,
)
    ensures
        m.on_attributes(a + b) == outcome_then(
            m.on_attributes(a),
            m.on_attributes(a).next.on_attributes(b),
        ),
    decreases a.len(),
{
    if a.len() > 0 {
        assert((a + b).skip(1) =~= a.skip(1) + b);
        let first = m.on_attribute(a[0]);
        if !first.failed {
            lemma_attributes_in_two_parts(first.next, a.skip(1), b);
            let mid = first.next.on_attributes(a.skip(1));
            if !mid.failed {
                let last = mid.next.on_attributes(b);
                assert(first.written + (mid.written + last.written) =~= (first.written
                    + mid.written) + last.written);
            }
        }
    }
}

/// Running over a sequence of events is running over its first part and then,
/// from where that ended, over the rest.
pub proof fn lemma_run_in_two_parts(
    m: InterpreterModel,
    a: Seq<Option<EventModel>>,
    b: Seq<Option<EventModel>>,
    trim_text: bool,
)
    ensures
        m.run(a + b, trim_text) == run_then(
            m.run(a, trim_text),
            m.run(a, trim_text).machine.run(b, trim_text),
        ),
    decreases a.len(),
{
    if a.len() > 0 {
        assert((a + b).skip(1) =~= a.skip(1) + b);
        if let Some(event) = a[0] {
            let first = m.step(event, trim_text);
            if !first.failed {
                lemma_run_in_two_parts(first.next, a.skip(1), b, trim_text);
                let mid = first.next.run(a.skip(1), trim_text);
                if mid.failure is None {
                    let last = mid.machine.run(b, trim_text);
                    assert(first.written + (mid.written + last.written) =~= (first.written
                        + mid.written) + last.written);
                }
            }
        }
    }
}

/// A run over a single event is that event's step.
pub proof fn lemma_run_of_one(m: InterpreterModel, event: EventModel, trim_text: bool)
    ensures
        m.run(seq![Some(event)], trim_text) == (Run {
            machine: m.step(event, trim_text).next,
            written: m.step(event, trim_text).written,
            failure: if m.step(event, trim_text).failed {
                Some(Failure::Encoding)
            } else {
                None
            },
        }),
{
    let after = m.step(event, trim_text).next;
    assert(after.run(seq![Some(event)].skip(1), trim_text).written =~= Seq::<char>::empty());
}

/// Taking a single attribute as a list is taking that attribute.
pub proof fn lemma_attributes_of_one(m: InterpreterModel, entry: Option<AttributeModel>)
    ensures
        m.on_attributes(seq![entry]) == m.on_attribute(entry),
{
    let after = m.on_attribute(entry).next;
    assert(after.on_attributes(seq![entry].skip(1)) == after.unchanged());
}

} // verus!
