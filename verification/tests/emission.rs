use usfx_to_tsv::emission::{emit, is_newline};
use usfx_to_tsv::ParserState;

const ALL_STATES: [ParserState; 8] = [
    ParserState::Initial,
    ParserState::Book,
    ParserState::InVerse,
    ParserState::InWord,
    ParserState::InSection,
    ParserState::InFootnote,
    ParserState::InCrossReference,
    ParserState::VerseEnd,
];

#[test]
fn nothing_is_emitted_while_content_is_disabled() {
    for state in ALL_STATES {
        for last_state in ALL_STATES {
            assert_eq!(emit("text", state, last_state, false), None);
            assert_eq!(emit("\n", state, last_state, false), None);
        }
    }
}

#[test]
fn nothing_is_emitted_outside_the_verse_body_and_words() {
    for state in ALL_STATES {
        if state == ParserState::InVerse || state == ParserState::InWord {
            continue;
        }
        for last_state in ALL_STATES {
            assert_eq!(emit("text", state, last_state, true), None);
        }
    }
}

#[test]
fn verse_body_text_is_emitted_verbatim() {
    for last_state in ALL_STATES {
        assert_eq!(emit("In the beginning", ParserState::InVerse, last_state, true), Some("In the beginning".to_string()));
        assert_eq!(emit("", ParserState::InVerse, last_state, true), Some(String::new()));
        assert_eq!(emit(" \n", ParserState::InVerse, last_state, true), Some(" \n".to_string()));
        assert_eq!(emit("\n\n", ParserState::InVerse, last_state, true), Some("\n\n".to_string()));
        assert_eq!(emit("\r\n", ParserState::InVerse, last_state, true), Some("\r\n".to_string()));
    }
}

#[test]
fn lone_newline_in_the_verse_body_is_emitted_as_a_marker() {
    for last_state in ALL_STATES {
        assert_eq!(emit("\n", ParserState::InVerse, last_state, true), Some("^".to_string()));
    }
}

#[test]
fn word_after_text_in_initial_is_emitted_bare() {
    assert_eq!(emit("In", ParserState::InWord, ParserState::Initial, true), Some("In".to_string()));
    assert_eq!(emit("\n", ParserState::InWord, ParserState::Initial, true), Some("\n".to_string()));
}

#[test]
fn word_after_text_in_a_word_is_dropped() {
    assert_eq!(emit("In", ParserState::InWord, ParserState::InWord, true), None);
}

#[test]
fn word_after_any_other_text_is_emitted_with_one_space() {
    for last_state in ALL_STATES {
        if last_state == ParserState::Initial || last_state == ParserState::InWord {
            continue;
        }
        assert_eq!(emit("the", ParserState::InWord, last_state, true), Some(" the".to_string()));
        assert_eq!(emit("", ParserState::InWord, last_state, true), Some(" ".to_string()));
    }
}

#[test]
fn newline_is_recognised_exactly() {
    assert!(is_newline("\n"));
    assert!(!is_newline(""));
    assert!(!is_newline("\n\n"));
    assert!(!is_newline("\r"));
    assert!(!is_newline("\r\n"));
    assert!(!is_newline(" "));
    assert!(!is_newline("\u{2028}"));
}
