//! The semantic states of the tag interpreter.

use vstd::prelude::*;

verus! {

/// Where in the document the interpreter stands. Exactly one state is active
/// at a time.
#[derive(Debug, Clone, Copy, PartialEq, Eq, Structural)]
pub enum ParserState {
    /// Outside every tracked element.
    Initial,
    /// Inside a book element, before any verse content.
    Book,
    /// In the body of a verse, outside a word token.
    InVerse,
    /// Inside a word token.
    InWord,
    /// Inside a section heading.
    InSection,
    /// Inside a footnote.
    InFootnote,
    /// Inside a cross-reference.
    InCrossReference,
    /// Inside the paired form of a verse-end element.
    VerseEnd,
}

impl ParserState {
    /// Whether text met in this state is discarded without being looked at:
    /// the three suppressible regions and the book wrapper.
    pub open spec fn suppresses_text(self) -> bool {
        self == ParserState::InFootnote || self == ParserState::InCrossReference || self
            == ParserState::InSection || self == ParserState::Book
    }

    /// Executable form of [`ParserState::suppresses_text`].
    pub fn is_suppressing(self) -> (b: bool)
        ensures
            b == self.suppresses_text(),
    {
        match self {
            ParserState::InFootnote
            | ParserState::InCrossReference
            | ParserState::InSection
            | ParserState::Book => true,
            _ => false,
        }
    }
}

} // verus!
