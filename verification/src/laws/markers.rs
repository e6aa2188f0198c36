//! Verse markers: a well-formed reference starts a record with its prefix,
//! any other is passed over.

use crate::event::{AttributeModel, EventModel};
use crate::interpreter::{reference_key, InterpreterModel};
use crate::laws::sequencing::{
    lemma_attributes_in_two_parts, lemma_attributes_of_one, lemma_run_in_two_parts,
    lemma_run_of_one,
};
use crate::reference::{record_prefix, split_on};
use crate::tag::{tag_of, Tag};
use vstd::utf8::{decode_utf8, valid_utf8};
use vstd::prelude::*;

verus! {

/// Attributes that a verse marker passes over: each is well formed, has a name
/// other than `bcv`, and that name is UTF-8.
pub open spec fn passed_over(entries: Seq<Option<AttributeModel>>) -> bool {
    forall|i: int|
        0 <= i < entries.len() ==> (#[trigger] entries[i] matches Some(a) && !(a.key
            =~= reference_key()) && valid_utf8(a.key))
}

/// Attributes that are passed over change nothing and write nothing.
pub proof fn lemma_passed_over_attributes(m: InterpreterModel, entries: Seq<Option<AttributeModel>>)
    requires
        passed_over(entries),
    ensures
        m.on_attributes(entries) == m.unchanged(),
    decreases entries.len(),
{
    if entries.len() > 0 {
        let rest = entries.skip(1);
        assert forall|i: int| 0 <= i < rest.len() implies (#[trigger] rest[i] matches Some(a) && !(
        a.key =~= reference_key()) && valid_utf8(a.key)) by {
            assert(rest[i] == entries[i + 1]);
        }
        lemma_passed_over_attributes(m, rest);
    }
}

/// A self-closing verse marker that carries one reference: the attribute `bcv`
/// with `value`, among attributes that are passed over.
pub open spec fn verse_marker(
    name: Seq<u8>,
    before: Seq<Option<AttributeModel>>,
    value: Seq<u8>,
    after: Seq<Option<AttributeModel>>,
) -> EventModel {
    EventModel::Empty(
        name,
        before + seq![Some(AttributeModel { key: reference_key(), value })] + after,
    )
}

/// A verse marker whose `bcv` value splits into exactly three components B, C
/// and V writes `B\tC\tV\t` and nothing else, opens a record and enables
/// content; so whatever a run writes from that marker on begins with
/// `B\tC\tV\t`.
pub proof fn lemma_reference_formatting(
    m: InterpreterModel,
    name: Seq<u8>,
    before: Seq<Option<AttributeModel>>,
    value: Seq<u8>,
    after: Seq<Option<AttributeModel>>,
    following: Seq<Option<EventModel>>,
    trim_text: bool,
)
    requires
        tag_of(name) == Tag::Verse,
        passed_over(before),
        passed_over(after),
        valid_utf8(value),
        split_on(decode_utf8(value), '.').len() == 3,
    ensures
        ({
            let marker = verse_marker(name, before, value, after);
            let parts = split_on(decode_utf8(value), '.');
            let prefix = parts[0] + seq!['\t'] + parts[1] + seq!['\t'] + parts[2] + seq!['\t'];
            &&& m.step(marker, trim_text).written == prefix
            &&& !m.step(marker, trim_text).failed
            &&& m.step(marker, trim_text).next == (InterpreterModel {
                in_content: true,
                record_open: true,
                ..m
            })
            &&& prefix.is_prefix_of(m.run(seq![Some(marker)] + following, trim_text).written)
        }),
{
    reveal(InterpreterModel::step);
    let marker = verse_marker(name, before, value, after);
    let reference = seq![Some(AttributeModel { key: reference_key(), value })];
    let entered = InterpreterModel { in_content: true, record_open: true, ..m };
    lemma_passed_over_attributes(m, before);
    lemma_passed_over_attributes(entered, after);
    lemma_attributes_in_two_parts(m, before, reference);
    lemma_attributes_in_two_parts(m, before + reference, after);
    lemma_attributes_of_one(m, Some(AttributeModel { key: reference_key(), value }));
    lemma_run_of_one(m, marker, trim_text);
    lemma_run_in_two_parts(m, seq![Some(marker)], following, trim_text);
}

/// A verse marker whose `bcv` value does not split into exactly three
/// components writes nothing, changes nothing and does not fail: the run goes
/// on as if the marker were not there.
pub proof fn lemma_malformed_reference_is_skipped(
    m: InterpreterModel,
    name: Seq<u8>,
    before: Seq<Option<AttributeModel>>,
    value: Seq<u8>,
    after: Seq<Option<AttributeModel>>,
    following: Seq<Option<EventModel>>,
    trim_text: bool,
)
    requires
        tag_of(name) == Tag::Verse,
        passed_over(before),
        passed_over(after),
        valid_utf8(value),
        split_on(decode_utf8(value), '.').len() != 3,
    ensures
        m.step(verse_marker(name, before, value, after), trim_text) == m.unchanged(),
        m.run(seq![Some(verse_marker(name, before, value, after))] + following, trim_text)
            == m.run(following, trim_text),
{
    reveal(InterpreterModel::step);
    let marker = verse_marker(name, before, value, after);
    let reference = seq![Some(AttributeModel { key: reference_key(), value })];
    lemma_passed_over_attributes(m, before);
    lemma_passed_over_attributes(m, after);
    lemma_attributes_in_two_parts(m, before, reference);
    lemma_attributes_in_two_parts(m, before + reference, after);
    lemma_attributes_of_one(m, Some(AttributeModel { key: reference_key(), value }));
    lemma_run_of_one(m, marker, trim_text);
    lemma_run_in_two_parts(m, seq![Some(marker)], following, trim_text);
    assert(Seq::<char>::empty() + m.run(following, trim_text).written =~= m.run(
        following,
        trim_text,
    ).written);
}

} // verus!
