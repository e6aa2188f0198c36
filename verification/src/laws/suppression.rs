//! Suppressible regions: nothing inside a section heading, a footnote or a
//! cross-reference is written.

use crate::event::EventModel;
use crate::interpreter::{InterpreterModel, Outcome};
use crate::laws::sequencing::{lemma_run_in_two_parts, lemma_run_of_one};
use crate::state::ParserState;
use crate::tag::{tag_of, Tag};
use vstd::prelude::*;

verus! {

/// The number of open regions after `event`, where `depth` were open before it:
/// an opening region tag adds one, a closing region tag takes one away if there
/// is one.
pub open spec fn depth_after(depth: nat, event: EventModel) -> nat {
    match event {
        EventModel::Start(name) => if tag_of(name).is_region() {
            depth + 1
        } else {
            depth
        },
        EventModel::End(name) => if tag_of(name).is_region() && depth > 0 {
            (depth - 1) as nat
        } else {
            depth
        },
        _ => depth,
    }
}

/// The number of open regions after all of `body`, where `depth` were open
/// before it.
pub open spec fn depth_after_all(depth: nat, body: Seq<Option<EventModel>>) -> nat
    decreases body.len(),
{
    if body.len() == 0 {
        depth
    } else {
        match body[0] {
            Some(event) => depth_after_all(depth_after(depth, event), body.skip(1)),
            None => depth,
        }
    }
}

/// Whether `event` is a self-closing verse or verse-end marker: the two events
/// that write something other than text.
pub open spec fn is_record_marker(event: EventModel) -> bool {
    event matches EventModel::Empty(name, _) && (tag_of(name) == Tag::Verse || tag_of(name)
        == Tag::VerseEnd)
}

/// Whether all of `body` lies inside a region: of the `depth` regions that are
/// open at its start, at least one is still open before each of its events. The
/// body holds markup and text only, no record markers, and the tokenizer yields
/// all of it.
pub open spec fn inside_region(depth: nat, body: Seq<Option<EventModel>>) -> bool
    decreases body.len(),
{
    if body.len() == 0 {
        true
    } else {
        match body[0] {
            Some(event) => depth > 0 && !is_record_marker(event) && inside_region(
                depth_after(depth, event),
                body.skip(1),
            ),
            None => false,
        }
    }
}

/// While a region is open a text event writes nothing and cannot fail, whatever
/// its payload; it only records the state in which it was met.
pub proof fn lemma_text_in_region_is_silent(
    m: InterpreterModel,
    payload: Option<Seq<char>>,
    trim_text: bool,
)
    requires
        m.open_regions.len() > 0,
    ensures
        m.step(EventModel::Text(payload), trim_text) == (Outcome {
            next: InterpreterModel { last_state: m.state, ..m },
            written: Seq::empty(),
            failed: false,
        }),
{
    reveal(InterpreterModel::step);
}

/// Events that lie inside the innermost `depth` open regions write nothing and
/// do not fail. They leave the regions outside those `depth` as they were, open
/// and close regions as their tags say, never enable content, neither open
/// nor close a record, and where they close the last of the `depth` regions
/// they end in `Initial`.
pub proof fn lemma_inside_region_is_silent(
    m: InterpreterModel,
    depth: nat,
    body: Seq<Option<EventModel>>,
    trim_text: bool,
)
    requires
        depth <= m.open_regions.len(),
        inside_region(depth, body),
    ensures
        ({
            let run = m.run(body, trim_text);
            let outer = m.open_regions.len() - depth;
            &&& run.written == Seq::<char>::empty()
            &&& run.failure is None
            &&& run.machine.open_regions.len() == outer + depth_after_all(depth, body)
            &&& run.machine.open_regions.take(outer) == m.open_regions.take(outer)
            &&& run.machine.in_content ==> m.in_content
            &&& run.machine.record_open == m.record_open
            &&& body.len() > 0 && depth_after_all(depth, body) == 0 ==> run.machine.state
                == ParserState::Initial
        }),
    decreases body.len(),
{
    reveal(InterpreterModel::step);
    if body.len() > 0 {
        let event = body[0]->0;
        let after = m.step(event, trim_text).next;
        lemma_inside_region_is_silent(after, depth_after(depth, event), body.skip(1), trim_text);
    }
}

/// A whole region, from its opening tag to the tag that closes it, writes
/// nothing and does not fail, whatever text, words and nested regions it holds.
/// After it the interpreter is in `Initial`, the same regions are open as
/// before it, a record is open if one was, and content is enabled only if it
/// was before.
pub proof fn lemma_region_is_suppressed(
    m: InterpreterModel,
    name: Seq<u8>,
    body: Seq<Option<EventModel>>,
    trim_text: bool,
)
    requires
        tag_of(name).is_region(),
        inside_region(1, body),
        depth_after_all(1, body) == 0,
    ensures
        ({
            let run = m.run(seq![Some(EventModel::Start(name))] + body, trim_text);
            &&& run.written == Seq::<char>::empty()
            &&& run.failure is None
            &&& run.machine.state == ParserState::Initial
            &&& run.machine.open_regions == m.open_regions
            &&& run.machine.in_content ==> m.in_content
            &&& run.machine.record_open == m.record_open
        }),
{
    reveal(InterpreterModel::step);
    let opening = EventModel::Start(name);
    let opened = m.after_start(tag_of(name));
    lemma_run_of_one(m, opening, trim_text);
    lemma_run_in_two_parts(m, seq![Some(opening)], body, trim_text);
    lemma_inside_region_is_silent(opened, 1, body, trim_text);
    let run = opened.run(body, trim_text);
    assert(run.machine.open_regions.take(m.open_regions.len() as int)
        =~= run.machine.open_regions);
}

} // verus!
