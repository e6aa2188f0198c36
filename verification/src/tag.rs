//! The element vocabulary that the interpreter reacts to.

use vstd::prelude::*;

verus! {

/// An element name, reduced to what the interpreter distinguishes.
#[derive(Debug, Clone, Copy, PartialEq, Eq, Structural)]
pub enum Tag {
    /// `book`: wraps a whole book.
    Book,
    /// `s`: a section heading.
    Section,
    /// `w`: a single word token.
    Word,
    /// `v`: a verse marker.
    Verse,
    /// `f`: a footnote.
    Footnote,
    /// `x`: a cross-reference.
    CrossReference,
    /// `ve`: a verse-end marker.
    VerseEnd,
    /// Any other name; the interpreter ignores it.
    Other,
}

impl Tag {
    /// Whether the element is a suppressible region: a section heading, a
    /// footnote or a cross-reference.
    pub open spec fn is_region(self) -> bool {
        self == Tag::Section || self == Tag::Footnote || self == Tag::CrossReference
    }
}

/// The tag that the raw bytes of an element name stand for. Names are
/// compared byte for byte with the ASCII spelling of each tag (`book` is
/// `62 6f 6f 6b`, `ve` is `76 65`), so `V` or ` v` are `Other`.
pub open spec fn tag_of(name: Seq<u8>) -> Tag {
    if name =~= seq![0x62u8, 0x6fu8, 0x6fu8, 0x6bu8] {
        Tag::Book
    } else if name =~= seq![0x73u8] {
        Tag::Section
    } else if name =~= seq![0x77u8] {
        Tag::Word
    } else if name =~= seq![0x76u8] {
        Tag::Verse
    } else if name =~= seq![0x66u8] {
        Tag::Footnote
    } else if name =~= seq![0x78u8] {
        Tag::CrossReference
    } else if name =~= seq![0x76u8, 0x65u8] {
        Tag::VerseEnd
    } else {
        Tag::Other
    }
}

/// The seven names of the vocabulary, each with the tag that it stands for.
pub proof fn lemma_vocabulary()
    ensures
        tag_of(seq![0x62u8, 0x6fu8, 0x6fu8, 0x6bu8]) == Tag::Book,
        tag_of(seq![0x73u8]) == Tag::Section,
        tag_of(seq![0x77u8]) == Tag::Word,
        tag_of(seq![0x76u8]) == Tag::Verse,
        tag_of(seq![0x66u8]) == Tag::Footnote,
        tag_of(seq![0x78u8]) == Tag::CrossReference,
        tag_of(seq![0x76u8, 0x65u8]) == Tag::VerseEnd,
{
    assert(seq![0x62u8, 0x6fu8, 0x6fu8, 0x6bu8].len() == 4);
    assert(seq![0x73u8][0] == 0x73u8);
    assert(seq![0x77u8][0] == 0x77u8);
    assert(seq![0x76u8][0] == 0x76u8);
    assert(seq![0x66u8][0] == 0x66u8);
    assert(seq![0x78u8][0] == 0x78u8);
    assert(seq![0x76u8, 0x65u8].len() == 2);
}

/// Classifies the raw bytes of an element name.
pub fn classify(name: &[u8]) -> (tag: Tag)
    ensures
        tag == tag_of(name@),
{
    let n: usize = name.len();
    if n == 1 {
        let c: u8 = name[0];
        if c == 0x73u8 {
            Tag::Section
        } else if c == 0x77u8 {
            Tag::Word
        } else if c == 0x76u8 {
            Tag::Verse
        } else if c == 0x66u8 {
            Tag::Footnote
        } else if c == 0x78u8 {
            Tag::CrossReference
        } else {
            Tag::Other
        }
    } else if n == 2 {
        if name[0] == 0x76u8 && name[1] == 0x65u8 {
            Tag::VerseEnd
        } else {
            Tag::Other
        }
    } else if n == 4 {
        if name[0] == 0x62u8 && name[1] == 0x6fu8 && name[2] == 0x6fu8 && name[3] == 0x6bu8 {
            Tag::Book
        } else {
            Tag::Other
        }
    } else {
        Tag::Other
    }
}

} // verus!
