//! Line framing: the lines of the output are the verse-start/verse-end pairs
//! of the input, and the conversion is a function of its input.

use crate::event::{AttributeModel, EventModel};
use crate::interpreter::{as_emitted, reference_key, terminator, InterpreterModel};
use crate::parser::conversion;
use crate::reference::{join_with, lemma_split_joins_back, record_prefix, split_on};
use crate::tag::{tag_of, Tag};
use crate::text::{count_of, lemma_count_of_concat, lemma_count_of_none};
use vstd::utf8::{decode_utf8, valid_utf8};
use vstd::prelude::*;

verus! {

/// The record prefix of a reference that holds no newline holds none either.
pub proof fn lemma_prefix_has_no_newline(value: Seq<char>)
    requires
        !value.contains('\n'),
        split_on(value, '.').len() == 3,
    ensures
        count_of(record_prefix(split_on(value, '.')), '\n') == 0,
{
    let parts = split_on(value, '.');
    lemma_split_joins_back(value, '.');
    let two = parts.drop_last();
    assert(two.len() == 2);
    assert(two.drop_last().len() == 1);
    let joined = parts[0] + seq!['.'] + parts[1] + seq!['.'] + parts[2];
    assert(joined =~= value) by {
        assert(join_with(two.drop_last(), '.') == two.drop_last()[0]);
        assert(join_with(two, '.') == join_with(
            two.drop_last(),
            '.',
        ).push('.') + two.last());
        assert(join_with(parts, '.') == join_with(
            two,
            '.',
        ).push('.') + parts.last());
    }
    let prefix = record_prefix(parts);
    assert forall|j: int| 0 <= j < prefix.len() implies prefix[j] != '\n' by {
        // But for its three tabs, the prefix is the value, character by
        // character.
        let first_tab = parts[0].len() as int;
        let second_tab = first_tab + 1 + parts[1].len();
        if j != first_tab && j != second_tab && j != prefix.len() - 1 {
            assert(prefix[j] == value[j]);
        }
    }
    lemma_count_of_none(prefix, '\n');
}

/// Whether `event` is a self-closing verse-end marker.
pub open spec fn is_verse_end(event: EventModel) -> bool {
    event matches EventModel::Empty(name, _) && tag_of(name) == Tag::VerseEnd
}

/// Whether `event` is a well-formed verse-start marker: one that opens a
/// record, which is to say that a fresh interpreter has a record open after
/// it.
pub open spec fn opens_record(event: EventModel) -> bool {
    InterpreterModel::initial().step(event, false).next.record_open
}

/// The number of verse-start/verse-end pairs among `events`: the verse-end
/// markers that close a record which a well-formed verse-start marker has
/// opened since the previous verse-end. `open` says whether a record is open
/// before the first event.
pub open spec fn record_pairs(open: bool, events: Seq<Option<EventModel>>) -> nat
    decreases events.len(),
{
    if events.len() == 0 {
        0
    } else {
        match events[0] {
            Some(event) => if is_verse_end(event) {
                record_pairs(false, events.skip(1)) + if open {
                    1nat
                } else {
                    0nat
                }
            } else {
                record_pairs(open || opens_record(event), events.skip(1))
            },
            None => record_pairs(open, events.skip(1)),
        }
    }
}

/// Attributes never close a record, and whether they open one does not
/// depend on the interpreter that takes them: two interpreters that take the
/// same attributes differ afterwards only as they differed before.
pub proof fn lemma_attributes_open_a_record(
    m: InterpreterModel,
    n: InterpreterModel,
    entries: Seq<Option<AttributeModel>>,
)
    ensures
        m.record_open ==> m.on_attributes(entries).next.record_open,
        n.record_open ==> n.on_attributes(entries).next.record_open,
        (m.on_attributes(entries).next.record_open || n.record_open) == (n.on_attributes(
            entries,
        ).next.record_open || m.record_open),
    decreases entries.len(),
{
    if entries.len() > 0 {
        let first = m.on_attribute(entries[0]);
        let other = n.on_attribute(entries[0]);
        if !first.failed {
            lemma_attributes_open_a_record(first.next, other.next, entries.skip(1));
        }
    }
}

/// After a verse-end marker no record is open; after any other event one is
/// open if one was open before or the event opens one.
pub proof fn lemma_record_open_after(m: InterpreterModel, event: EventModel, trim_text: bool)
    ensures
        m.step(event, trim_text).next.record_open == if is_verse_end(event) {
            false
        } else {
            m.record_open || opens_record(event)
        },
{
    reveal(InterpreterModel::step);
    if let EventModel::Empty(name, entries) = event {
        if tag_of(name) == Tag::Verse {
            lemma_attributes_open_a_record(m, InterpreterModel::initial(), entries);
        }
    }
}

/// Whether the attributes of a marker keep a record on one line: no reference
/// among them holds a newline.
pub open spec fn references_on_one_line(entries: Seq<Option<AttributeModel>>) -> bool {
    forall|i: int|
        0 <= i < entries.len() ==> (#[trigger] entries[i] matches Some(a) ==> (a.key
            =~= reference_key() && valid_utf8(a.value) ==> !decode_utf8(a.value).contains('\n')))
}

/// Whether `event` keeps a record on one line: it is no text whose payload, as
/// it reaches the emission policy, holds a newline, and no marker with a
/// reference that holds one.
pub open spec fn on_one_line(event: EventModel, trim_text: bool) -> bool {
    match event {
        EventModel::Text(Some(text)) => !as_emitted(text, trim_text).contains('\n'),
        EventModel::Empty(_, entries) => references_on_one_line(entries),
        _ => true,
    }
}

/// Whether every event among `events` keeps a record on one line.
pub open spec fn all_on_one_line(events: Seq<Option<EventModel>>, trim_text: bool) -> bool {
    forall|i: int|
        0 <= i < events.len() ==> (#[trigger] events[i] matches Some(event) ==> on_one_line(
            event,
            trim_text,
        ))
}

/// Attributes whose references hold no newline write no newline.
pub proof fn lemma_attributes_write_no_newline(
    m: InterpreterModel,
    entries: Seq<Option<AttributeModel>>,
)
    requires
        references_on_one_line(entries),
    ensures
        count_of(m.on_attributes(entries).written, '\n') == 0,
    decreases entries.len(),
{
    if entries.len() > 0 {
        let first = m.on_attribute(entries[0]);
        let rest = entries.skip(1);
        assert(count_of(first.written, '\n') == 0) by {
            if first.written.len() > 0 {
                let a = entries[0]->0;
                lemma_prefix_has_no_newline(decode_utf8(a.value));
            }
        }
        if !first.failed {
            assert forall|i: int| 0 <= i < rest.len() implies (#[trigger] rest[i] matches Some(a)
                ==> (a.key =~= reference_key() && valid_utf8(a.value) ==> !decode_utf8(
                a.value,
            ).contains('\n'))) by {
                assert(rest[i] == entries[i + 1]);
            }
            lemma_attributes_write_no_newline(first.next, rest);
            lemma_count_of_concat(first.written, first.next.on_attributes(rest).written, '\n');
        }
    }
}

/// An event that keeps a record on one line writes exactly one newline if it is
/// a verse-end marker that closes an open record, and none otherwise.
pub proof fn lemma_step_writes_one_line_end(m: InterpreterModel, event: EventModel, trim_text: bool)
    requires
        on_one_line(event, trim_text),
    ensures
        count_of(m.step(event, trim_text).written, '\n') == if is_verse_end(event)
            && m.record_open {
            1nat
        } else {
            0nat
        },
{
    reveal(InterpreterModel::step);
    let written = m.step(event, trim_text).written;
    match event {
        EventModel::Empty(name, entries) => {
            if tag_of(name) == Tag::VerseEnd {
                lemma_terminator_is_one_line();
            } else if tag_of(name) == Tag::Verse {
                lemma_attributes_write_no_newline(m, entries);
            }
        },
        EventModel::Text(Some(text)) => {
            let text = as_emitted(text, trim_text);
            assert forall|j: int| 0 <= j < written.len() implies written[j] != '\n' by {
                if written =~= seq![' '] + text {
                    if j > 0 {
                        assert(written[j] == text[j - 1]);
                    }
                } else if written =~= text {
                    assert(written[j] == text[j]);
                }
            }
            lemma_count_of_none(written, '\n');
        },
        _ => {},
    }
}

/// The terminator is one newline and nothing else.
pub proof fn lemma_terminator_is_one_line()
    ensures
        count_of(terminator(), '\n') == 1,
        count_of(Seq::<char>::empty(), '\n') == 0,
{
    assert(terminator().drop_last() =~= Seq::<char>::empty());
    assert(count_of(terminator().drop_last(), '\n') == 0);
}

/// Whether a run keeps every record on one line: no event of it but a verse-end
/// marker writes a newline. This is so when no text that is written and no
/// reference holds a newline.
pub open spec fn one_line_each(
    m: InterpreterModel,
    events: Seq<Option<EventModel>>,
    trim_text: bool,
) -> bool
    decreases events.len(),
{
    if events.len() == 0 {
        true
    } else {
        match events[0] {
            Some(event) => {
                let first = m.step(event, trim_text);
                (is_verse_end(event) || !first.written.contains('\n')) && (first.failed
                    || one_line_each(first.next, events.skip(1), trim_text))
            },
            None => true,
        }
    }
}

/// Events that each keep a record on one line make a run that does.
pub proof fn lemma_on_one_line_suffices(
    m: InterpreterModel,
    events: Seq<Option<EventModel>>,
    trim_text: bool,
)
    requires
        all_on_one_line(events, trim_text),
    ensures
        one_line_each(m, events, trim_text),
    decreases events.len(),
{
    if events.len() > 0 {
        match events[0] {
            Some(event) => {
                let first = m.step(event, trim_text);
                let rest = events.skip(1);
                assert forall|i: int| 0 <= i < rest.len() implies (#[trigger] rest[i] matches Some(
                    e,
                ) ==> on_one_line(e, trim_text)) by {
                    assert(rest[i] == events[i + 1]);
                }
                lemma_on_one_line_suffices(first.next, rest, trim_text);
                if !is_verse_end(event) {
                    lemma_step_writes_one_line_end(m, event, trim_text);
                    lemma_count_of_none(first.written, '\n');
                }
            },
            None => {},
        }
    }
}

/// The lines that a run writes are its verse-start/verse-end pairs, never
/// more and never fewer: where the run does not fail and keeps every record
/// on one line, the output holds one newline for each verse-end marker that
/// closes a record which a well-formed verse-start marker opened. A verse-end
/// marker with no record to close, as after a verse whose reference is
/// malformed, adds no line.
pub proof fn lemma_line_count(m: InterpreterModel, events: Seq<Option<EventModel>>, trim_text: bool)
    requires
        m.run(events, trim_text).failure is None,
        one_line_each(m, events, trim_text),
    ensures
        count_of(m.run(events, trim_text).written, '\n') == record_pairs(m.record_open, events),
    decreases events.len(),
{
    if events.len() > 0 {
        let event = events[0]->0;
        let first = m.step(event, trim_text);
        let rest = events.skip(1);
        lemma_record_open_after(m, event, trim_text);
        if is_verse_end(event) {
            reveal(InterpreterModel::step);
            lemma_terminator_is_one_line();
        } else {
            lemma_count_of_none(first.written, '\n');
        }
        lemma_line_count(first.next, rest, trim_text);
        lemma_count_of_concat(first.written, first.next.run(rest, trim_text).written, '\n');
    }
}

/// What a conversion writes, where it ends and whether it fails are functions
/// of the bytes of the document and of the trim option alone: two conversions
/// of the same bytes agree in all three.
pub proof fn lemma_conversion_is_deterministic(a: Seq<u8>, b: Seq<u8>, trim_text: bool)
    requires
        a == b,
    ensures
        conversion(a, trim_text) == conversion(b, trim_text),
{
}

} // verus!
