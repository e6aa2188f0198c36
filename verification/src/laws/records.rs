//! Records: content is enabled only inside an open record, and where no
//! record is open nothing is written, so that a verse whose reference is
//! malformed leaves no line.

use crate::event::{AttributeModel, EventModel};
use crate::interpreter::InterpreterModel;
use crate::laws::markers::{lemma_malformed_reference_is_skipped, passed_over, verse_marker};
use crate::reference::split_on;
use crate::tag::{tag_of, Tag};
use vstd::prelude::*;
use vstd::utf8::{decode_utf8, valid_utf8};

verus! {

/// Whether `event` is a self-closing verse marker.
pub open spec fn is_verse_start(event: EventModel) -> bool {
    event matches EventModel::Empty(name, _) && tag_of(name) == Tag::Verse
}

/// Attributes keep the flags consistent: they enable content only together
/// with opening a record.
pub proof fn lemma_attributes_keep_consistent(
    m: InterpreterModel,
    entries: Seq<Option<AttributeModel>>,
)
    requires
        m.consistent(),
    ensures
        m.on_attributes(entries).next.consistent(),
    decreases entries.len(),
{
    if entries.len() > 0 {
        let first = m.on_attribute(entries[0]);
        if !first.failed {
            lemma_attributes_keep_consistent(first.next, entries.skip(1));
        }
    }
}

/// Every event keeps the flags consistent, whether it fails or not: content
/// is never enabled without a record being open.
pub proof fn lemma_step_keeps_consistent(m: InterpreterModel, event: EventModel, trim_text: bool)
    requires
        m.consistent(),
    ensures
        m.step(event, trim_text).next.consistent(),
{
    reveal(InterpreterModel::step);
    if let EventModel::Empty(name, entries) = event {
        if tag_of(name) == Tag::Verse {
            lemma_attributes_keep_consistent(m, entries);
        }
    }
}

/// Every run keeps the flags consistent. A fresh interpreter is consistent,
/// so every interpreter that a parse reaches is.
pub proof fn lemma_run_keeps_consistent(
    m: InterpreterModel,
    events: Seq<Option<EventModel>>,
    trim_text: bool,
)
    requires
        m.consistent(),
    ensures
        InterpreterModel::initial().consistent(),
        m.run(events, trim_text).machine.consistent(),
    decreases events.len(),
{
    if events.len() > 0 {
        if let Some(event) = events[0] {
            lemma_step_keeps_consistent(m, event, trim_text);
            let first = m.step(event, trim_text);
            if !first.failed {
                lemma_run_keeps_consistent(first.next, events.skip(1), trim_text);
            }
        }
    }
}

/// Whether `events` hold no self-closing verse marker, and the tokenizer
/// yields all of them: opening and closing tags of any name, text with any
/// payload, verse-end markers and other self-closing tags may stand in any
/// order.
pub open spec fn without_verse_start(events: Seq<Option<EventModel>>) -> bool {
    forall|i: int|
        0 <= i < events.len() ==> (#[trigger] events[i] matches Some(event) && !is_verse_start(
            event,
        ))
}

/// Where no record is open, events without a verse marker write nothing and
/// do not fail: no text, whatever its payload, and no line terminator. No
/// record is open after them.
pub proof fn lemma_nothing_is_written_outside_a_record(
    m: InterpreterModel,
    events: Seq<Option<EventModel>>,
    trim_text: bool,
)
    requires
        m.consistent(),
        !m.record_open,
        without_verse_start(events),
    ensures
        m.run(events, trim_text).written == Seq::<char>::empty(),
        m.run(events, trim_text).failure is None,
        !m.run(events, trim_text).machine.record_open,
        !m.run(events, trim_text).machine.in_content,
    decreases events.len(),
{
    reveal(InterpreterModel::step);
    if events.len() > 0 {
        let event = events[0]->0;
        let rest = events.skip(1);
        assert forall|i: int| 0 <= i < rest.len() implies (#[trigger] rest[i] matches Some(e)
            && !is_verse_start(e)) by {
            assert(rest[i] == events[i + 1]);
        }
        lemma_nothing_is_written_outside_a_record(m.step(event, trim_text).next, rest, trim_text);
    }
}

/// A verse whose reference is malformed leaves no line. Met with no record
/// open, a verse marker whose `bcv` value does not split into exactly three
/// components, whatever tags and text follow it, and the verse-end marker
/// that ends the verse write nothing at all: no prefix, no text and no
/// terminator. The run does not fail, and no record is open after it.
pub proof fn lemma_skipped_verse_leaves_no_line(
    m: InterpreterModel,
    name: Seq<u8>,
    before: Seq<Option<AttributeModel>>,
    value: Seq<u8>,
    after: Seq<Option<AttributeModel>>,
    body: Seq<Option<EventModel>>,
    end_name: Seq<u8>,
    end_entries: Seq<Option<AttributeModel>>,
    trim_text: bool,
)
    requires
        m.consistent(),
        !m.record_open,
        tag_of(name) == Tag::Verse,
        passed_over(before),
        passed_over(after),
        valid_utf8(value),
        split_on(decode_utf8(value), '.').len() != 3,
        without_verse_start(body),
        tag_of(end_name) == Tag::VerseEnd,
    ensures
        ({
            let marker = verse_marker(name, before, value, after);
            let verse_end = EventModel::Empty(end_name, end_entries);
            let run = m.run(seq![Some(marker)] + (body + seq![Some(verse_end)]), trim_text);
            &&& run.written == Seq::<char>::empty()
            &&& run.failure is None
            &&& !run.machine.record_open
            &&& !run.machine.in_content
        }),
{
    let verse_end = EventModel::Empty(end_name, end_entries);
    let rest = body + seq![Some(verse_end)];
    assert forall|i: int| 0 <= i < rest.len() implies (#[trigger] rest[i] matches Some(e)
        && !is_verse_start(e)) by {
        if i < body.len() {
            assert(rest[i] == body[i]);
        }
    }
    lemma_malformed_reference_is_skipped(m, name, before, value, after, rest, trim_text);
    lemma_nothing_is_written_outside_a_record(m, rest, trim_text);
}

} // verus!
