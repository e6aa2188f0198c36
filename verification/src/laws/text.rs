//! Text events: what gates them, what they record, the newline marker and
//! the spacing of word tokens.

use crate::event::EventModel;
use crate::interpreter::{as_emitted, InterpreterModel, Outcome};
use crate::laws::sequencing::{lemma_run_in_two_parts, lemma_run_of_one};
use crate::state::ParserState;
use crate::tag::lemma_vocabulary;
use crate::text::trim_start;
use vstd::prelude::*;

verus! {

/// While content is disabled a text event writes nothing and cannot fail,
/// whatever its payload and the state.
pub proof fn lemma_text_without_content_is_silent(
    m: InterpreterModel,
    payload: Option<Seq<char>>,
    trim_text: bool,
)
    requires
        !m.in_content,
    ensures
        m.step(EventModel::Text(payload), trim_text).written == Seq::<char>::empty(),
        !m.step(EventModel::Text(payload), trim_text).failed,
{
    reveal(InterpreterModel::step);
}

/// Every text event that does not fail records the state in which it was met,
/// whether or not it wrote anything, and changes nothing else.
pub proof fn lemma_text_records_its_state(
    m: InterpreterModel,
    payload: Option<Seq<char>>,
    trim_text: bool,
)
    requires
        !m.step(EventModel::Text(payload), trim_text).failed,
    ensures
        m.step(EventModel::Text(payload), trim_text).next == (InterpreterModel {
            last_state: m.state,
            ..m
        }),
{
    reveal(InterpreterModel::step);
}

/// In the verse body, with text accepted, a payload that is exactly one newline
/// never writes a newline: as it stands it is written as `^`, and trimmed it is
/// empty.
pub proof fn lemma_newline_becomes_marker(m: InterpreterModel, trim_text: bool)
    requires
        m.state == ParserState::InVerse,
        m.accepts_text(),
    ensures
        !trim_text ==> m.step(EventModel::Text(Some(seq!['\n'])), trim_text).written == seq!['^'],
        trim_text ==> m.step(EventModel::Text(Some(seq!['\n'])), trim_text).written
            == Seq::<char>::empty(),
        !m.step(EventModel::Text(Some(seq!['\n'])), trim_text).written.contains('\n'),
        !m.step(EventModel::Text(Some(seq!['\n'])), trim_text).failed,
{
    reveal(InterpreterModel::step);
    // Trimming takes the newline away: it is white space, and nothing is left.
    let line = seq!['\n'];
    assert(trim_start(line) == trim_start(line.drop_first()));
}

/// The name `w` of a word token.
pub open spec fn word_name() -> Seq<u8> {
    seq![0x77u8]
}

/// The events of one word token: its opening tag, its text and its closing tag.
pub open spec fn word_token(text: Seq<char>) -> Seq<Option<EventModel>> {
    seq![
        Some(EventModel::Start(word_name())),
        Some(EventModel::Text(Some(text))),
        Some(EventModel::End(word_name())),
    ]
}

/// The events of a row of word tokens with the text `gap` between each two of
/// them.
pub open spec fn word_tokens(words: Seq<Seq<char>>, gap: Seq<char>) -> Seq<Option<EventModel>>
    decreases words.len(),
{
    if words.len() == 0 {
        Seq::empty()
    } else if words.len() == 1 {
        word_token(words[0])
    } else {
        word_tokens(words.drop_last(), gap) + seq![Some(EventModel::Text(Some(gap)))] + word_token(
            words.last(),
        )
    }
}

/// The words as they reach the emission policy, with one space between each
/// two.
pub open spec fn spaced(words: Seq<Seq<char>>, trim_text: bool) -> Seq<char>
    decreases words.len(),
{
    if words.len() == 0 {
        Seq::empty()
    } else if words.len() == 1 {
        as_emitted(words[0], trim_text)
    } else {
        spaced(words.drop_last(), trim_text) + seq![' '] + as_emitted(words.last(), trim_text)
    }
}

/// One word token, met with content enabled and no region open, writes its
/// text: bare after text met in `Initial`, after one space after text met in
/// the verse body. It ends in the verse body.
pub proof fn lemma_word_token(m: InterpreterModel, text: Seq<char>, trim_text: bool)
    requires
        m.in_content,
        m.open_regions.len() == 0,
        m.last_state == ParserState::Initial || m.last_state == ParserState::InVerse,
    ensures
        ({
            let run = m.run(word_token(text), trim_text);
            &&& run.failure is None
            &&& run.machine == (InterpreterModel {
                state: ParserState::InVerse,
                last_state: ParserState::InWord,
                ..m
            })
            &&& run.written == if m.last_state == ParserState::Initial {
                as_emitted(text, trim_text)
            } else {
                seq![' '] + as_emitted(text, trim_text)
            }
        }),
{
    reveal(InterpreterModel::step);
    lemma_vocabulary();
    let opening = EventModel::Start(word_name());
    let payload = EventModel::Text(Some(text));
    let closing = EventModel::End(word_name());
    let opened = InterpreterModel { state: ParserState::InWord, ..m };
    let read = InterpreterModel { last_state: ParserState::InWord, ..opened };
    assert(word_token(text) =~= seq![Some(opening)] + (seq![Some(payload)] + seq![Some(closing)]));
    lemma_run_of_one(m, opening, trim_text);
    lemma_run_of_one(opened, payload, trim_text);
    lemma_run_of_one(read, closing, trim_text);
    lemma_run_in_two_parts(opened, seq![Some(payload)], seq![Some(closing)], trim_text);
    lemma_run_in_two_parts(
        m,
        seq![Some(opening)],
        seq![Some(payload)] + seq![Some(closing)],
        trim_text,
    );
}

/// A row of word tokens with blank text between them, met in an open verse
/// before any other text of it, is written as the words with a single space
/// between each two: the first word bare, every further word after one space.
/// Blank is a text that reaches the emission policy empty.
pub proof fn lemma_word_spacing(
    m: InterpreterModel,
    words: Seq<Seq<char>>,
    gap: Seq<char>,
    trim_text: bool,
)
    requires
        words.len() > 0,
        m.in_content,
        m.open_regions.len() == 0,
        m.last_state == ParserState::Initial,
        as_emitted(gap, trim_text) == Seq::<char>::empty(),
    ensures
        m.run(word_tokens(words, gap), trim_text).written == spaced(words, trim_text),
        m.run(word_tokens(words, gap), trim_text).failure is None,
        m.run(word_tokens(words, gap), trim_text).machine == (InterpreterModel {
            state: ParserState::InVerse,
            last_state: ParserState::InWord,
            ..m
        }),
    decreases words.len(),
{
    if words.len() == 1 {
        lemma_word_token(m, words[0], trim_text);
    } else {
        let earlier = word_tokens(words.drop_last(), gap);
        let blank = EventModel::Text(Some(gap));
        let last = word_token(words.last());
        lemma_word_spacing(m, words.drop_last(), gap, trim_text);
        let after_words = InterpreterModel {
            state: ParserState::InVerse,
            last_state: ParserState::InWord,
            ..m
        };
        let after_gap = InterpreterModel { last_state: ParserState::InVerse, ..after_words };
        assert(after_words.step(blank, trim_text) == (Outcome {
            next: after_gap,
            written: Seq::empty(),
            failed: false,
        })) by {
            reveal(InterpreterModel::step);
        }
        lemma_run_of_one(after_words, blank, trim_text);
        lemma_word_token(after_gap, words.last(), trim_text);
        lemma_run_in_two_parts(after_words, seq![Some(blank)], last, trim_text);
        assert(word_tokens(words, gap) =~= earlier + (seq![Some(blank)] + last));
        lemma_run_in_two_parts(m, earlier, seq![Some(blank)] + last, trim_text);
        let tail = seq![' '] + as_emitted(words.last(), trim_text);
        assert(spaced(words.drop_last(), trim_text) + (Seq::<char>::empty() + tail) =~= spaced(
            words,
            trim_text,
        ));
    }
}

} // verus!
