//! The text emission policy: whether and how a text payload reaches the
//! output, given where the interpreter stands.

use crate::state::ParserState;
use vstd::prelude::*;
use vstd::string::StringExecFns;

verus! {

/// The fragment written for `text`, if any.
///
/// Nothing is written while content is disabled or the state suppresses
/// text. In the verse body the text is written as it is, but a payload that
/// is exactly one newline is written as `^`, so that a record stays on one
/// line. In a word token the text is written bare when the previous text was
/// met in `Initial`, dropped when the previous text was met in a word token
/// too, and preceded by one space otherwise. In every other state nothing is
/// written.
pub open spec fn emitted(
    text: Seq<char>,
    state: ParserState,
    last_state: ParserState,
    content_flag: bool,
) -> Option<Seq<char>> {
    if !content_flag || state.suppresses_text() {
        None
    } else if state == ParserState::InVerse {
        if text =~= seq!['\n'] {
            Some(seq!['^'])
        } else {
            Some(text)
        }
    } else if state == ParserState::InWord {
        if last_state == ParserState::Initial {
            Some(text)
        } else if last_state == ParserState::InWord {
            None
        } else {
            Some(seq![' '] + text)
        }
    } else {
        None
    }
}

/// Whether `text` is exactly one newline character.
pub fn is_newline(text: &str) -> (b: bool)
    ensures
        b == (text@ =~= seq!['\n']),
{
    text.unicode_len() == 1 && text.get_char(0) == '\n'
}

/// Decides what to write for `text`, met in `state`, when the previous text
/// was met in `last_state`.
pub fn emit(text: &str, state: ParserState, last_state: ParserState, content_flag: bool) -> (fragment:
    Option<String>)
    ensures
        match fragment {
            Some(f) => emitted(text@, state, last_state, content_flag) == Some(f@),
            None => emitted(text@, state, last_state, content_flag) is None,
        },
{
    if !content_flag || state.is_suppressing() {
        return None;
    }
    match state {
        ParserState::InVerse => {
            if is_newline(text) {
                proof {
                    reveal_strlit("^");
                }
                let marker = String::from_str("^");
                Some(marker)
            } else {
                Some(String::from_str(text))
            }
        },
        ParserState::InWord => {
            match last_state {
                ParserState::Initial => Some(String::from_str(text)),
                ParserState::InWord => None,
                _ => {
                    proof {
                        reveal_strlit(" ");
                    }
                    let spaced = String::from_str(" ").concat(text);
                    Some(spaced)
                },
            }
        },
        _ => None,
    }
}

} // verus!
