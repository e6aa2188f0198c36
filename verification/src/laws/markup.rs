//! What tags do: unknown markup is ignored, and known markup goes by its tag
//! alone.

use crate::event::{AttributeModel, EventModel};
use crate::interpreter::InterpreterModel;
use crate::tag::{tag_of, Tag};
use vstd::prelude::*;

verus! {

/// An opening, closing or self-closing tag whose name is not in the vocabulary
/// changes nothing and writes nothing, and so does an event that is neither a
/// tag nor text.
pub proof fn lemma_unknown_markup_is_ignored(
    m: InterpreterModel,
    name: Seq<u8>,
    entries: Seq<Option<AttributeModel>>,
    trim_text: bool,
)
    requires
        tag_of(name) == Tag::Other,
    ensures
        m.step(EventModel::Start(name), trim_text) == m.unchanged(),
        m.step(EventModel::End(name), trim_text) == m.unchanged(),
        m.step(EventModel::Empty(name, entries), trim_text) == m.unchanged(),
        m.step(EventModel::Other, trim_text) == m.unchanged(),
{
    reveal(InterpreterModel::step);
}

/// What an opening or a closing tag does is determined by its tag alone: two
/// names that stand for the same tag lead from any interpreter to the same
/// interpreter, and neither writes.
pub proof fn lemma_transitions_depend_on_the_tag(
    m: InterpreterModel,
    a: Seq<u8>,
    b: Seq<u8>,
    trim_text: bool,
)
    requires
        tag_of(a) == tag_of(b),
    ensures
        m.step(EventModel::Start(a), trim_text) == m.step(EventModel::Start(b), trim_text),
        m.step(EventModel::End(a), trim_text) == m.step(EventModel::End(b), trim_text),
        m.step(EventModel::Start(a), trim_text).written == Seq::<char>::empty(),
        m.step(EventModel::End(a), trim_text).written == Seq::<char>::empty(),
{
    reveal(InterpreterModel::step);
}

} // verus!
