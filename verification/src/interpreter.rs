//! The tag event interpreter: one current state, a content flag, the state
//! of the previous text event and the suppressible regions that are open,
//! advanced by one markup event at a time.
//!
//! Opening and closing tags move the current state as a table says; the
//! table knows no nesting, so the end of any region leads to `Initial`.
//! Whether text may be written is kept apart from the state: the content
//! flag is set by a well-formed verse-start marker and cleared by a
//! verse-end marker or a section heading, and every open section, footnote
//! or cross-reference is counted, so that text stays suppressed until the
//! outermost of them has ended, also where a word or a verse body opens
//! inside it.
//!
//! Whether a record is open is kept apart from the content flag, which a
//! section heading clears in the middle of a verse: a well-formed
//! verse-start marker opens a record, a verse-end marker closes it, and only
//! a verse-end marker that closes a record writes the line terminator. So a
//! verse whose reference is malformed leaves no line at all.
//!
//! [`InterpreterModel`] is the machine as mathematics, [`Interpreter`] the
//! same machine at run time; every method of the second is proved to do
//! what the first says.

use crate::emission::{emit, emitted};
use crate::error::ParserError;
use crate::event::{attribute_entries, Attribute, AttributeModel, EventModel, XmlEvent};
use crate::reference::{record_prefix, split_on, VerseReference};
use crate::state::ParserState;
use crate::tag::{classify, tag_of, Tag};
use crate::text::{trim, trimmed};
use crate::utf8::utf8_text;
use vstd::prelude::*;
use vstd::string::StringExecFns;
use vstd::utf8::{decode_utf8, valid_utf8};

verus! {

/// The mathematical content of an [`Interpreter`].
pub struct InterpreterModel {
    /// The current state.
    pub state: ParserState,
    /// The content flag: true from a well-formed verse-start marker to the
    /// next verse-end marker or section heading.
    pub in_content: bool,
    /// Whether a record is open: true from a well-formed verse-start marker
    /// to the next verse-end marker.
    pub record_open: bool,
    /// The state in which the previous text event was met.
    pub last_state: ParserState,
    /// The suppressible regions that are open, innermost last.
    pub open_regions: Seq<Tag>,
}

/// What one event does: the interpreter after it, the characters written
/// for it, and whether it could not be decoded. Where `failed` holds, `next`
/// and `written` are what was reached before the failure.
pub struct Outcome {
    pub next: InterpreterModel,
    pub written: Seq<char>,
    pub failed: bool,
}

/// Why a run over a document stopped early.
pub enum Failure {
    /// The tokenizer met malformed markup.
    Markup,
    /// A text payload or an attribute could not be decoded.
    Encoding,
}

/// What a run over a sequence of events does: the interpreter at its end,
/// all that was written, and the failure that stopped it, if one did.
pub struct Run {
    pub machine: InterpreterModel,
    pub written: Seq<char>,
    pub failure: Option<Failure>,
}

/// The attribute name `bcv`, which carries the verse reference.
pub open spec fn reference_key() -> Seq<u8> {
    seq![0x62u8, 0x63u8, 0x76u8]
}

/// A text payload as it reaches the emission policy: trimmed if `trim_text`
/// holds, as it is if not.
pub open spec fn as_emitted(text: Seq<char>, trim_text: bool) -> Seq<char> {
    if trim_text {
        trimmed(text)
    } else {
        text
    }
}

/// The line terminator that closes a record.
pub open spec fn terminator() -> Seq<char> {
    seq!['\n']
}

impl InterpreterModel {
    /// The interpreter before the first event.
    pub open spec fn initial() -> InterpreterModel {
        InterpreterModel {
            state: ParserState::Initial,
            in_content: false,
            record_open: false,
            last_state: ParserState::Initial,
            open_regions: Seq::empty(),
        }
    }

    /// Whether the flags agree: content is enabled only while a record is
    /// open. It is so before the first event, and every event keeps it so.
    pub open spec fn consistent(self) -> bool {
        self.in_content ==> self.record_open
    }

    /// The event leaves the interpreter as it is and writes nothing.
    pub open spec fn unchanged(self) -> Outcome {
        Outcome { next: self, written: Seq::empty(), failed: false }
    }

    /// The event cannot be decoded.
    pub open spec fn failure(self) -> Outcome {
        Outcome { next: self, written: Seq::empty(), failed: true }
    }

    /// Whether a text payload is looked at: content is enabled, no
    /// suppressible region is open, and the state does not suppress text.
    pub open spec fn accepts_text(self) -> bool {
        self.in_content && self.open_regions.len() == 0 && !self.state.suppresses_text()
    }

    /// The interpreter after an opening tag.
    ///
    /// A book, a verse-end and the three regions set their state; a region
    /// is also recorded as open, and a section heading disables content. A
    /// word or a paired verse sets its state only while content is enabled.
    /// Any other tag changes nothing.
    pub open spec fn after_start(self, tag: Tag) -> InterpreterModel {
        match tag {
            Tag::Book => InterpreterModel { state: ParserState::Book, ..self },
            Tag::VerseEnd => InterpreterModel { state: ParserState::VerseEnd, ..self },
            Tag::Word => if self.in_content {
                InterpreterModel { state: ParserState::InWord, ..self }
            } else {
                self
            },
            Tag::Verse => if self.in_content {
                InterpreterModel { state: ParserState::InVerse, ..self }
            } else {
                self
            },
            Tag::Section => InterpreterModel {
                state: ParserState::InSection,
                in_content: false,
                open_regions: self.open_regions.push(tag),
                ..self
            },
            Tag::Footnote => InterpreterModel {
                state: ParserState::InFootnote,
                open_regions: self.open_regions.push(tag),
                ..self
            },
            Tag::CrossReference => InterpreterModel {
                state: ParserState::InCrossReference,
                open_regions: self.open_regions.push(tag),
                ..self
            },
            Tag::Other => self,
        }
    }

    /// The interpreter after a closing tag.
    ///
    /// The end of a word or of a paired verse leads to the verse body. The
    /// end of a verse-end or of a region leads to `Initial`; the end of a
    /// region also closes the innermost open region, if one is open. Any
    /// other tag changes nothing.
    pub open spec fn after_end(self, tag: Tag) -> InterpreterModel {
        match tag {
            Tag::VerseEnd => InterpreterModel { state: ParserState::Initial, ..self },
            Tag::Word | Tag::Verse => InterpreterModel { state: ParserState::InVerse, ..self },
            Tag::Section | Tag::Footnote | Tag::CrossReference => InterpreterModel {
                state: ParserState::Initial,
                open_regions: if self.open_regions.len() > 0 {
                    self.open_regions.drop_last()
                } else {
                    self.open_regions
                },
                ..self
            },
            Tag::Book | Tag::Other => self,
        }
    }

    /// What a text event does. A payload that is looked at and cannot be
    /// decoded fails; otherwise the payload, trimmed if `trim_text` holds,
    /// goes through the emission policy. Every text event that does not fail
    /// records the current state as the state of the previous text.
    pub open spec fn on_text(self, payload: Option<Seq<char>>, trim_text: bool) -> Outcome {
        let next = InterpreterModel { last_state: self.state, ..self };
        if !self.accepts_text() {
            Outcome { next, written: Seq::empty(), failed: false }
        } else {
            match payload {
                None => self.failure(),
                Some(text) => {
                    let text = as_emitted(text, trim_text);
                    match emitted(text, self.state, self.last_state, self.in_content) {
                        Some(fragment) => Outcome { next, written: fragment, failed: false },
                        None => Outcome { next, written: Seq::empty(), failed: false },
                    }
                },
            }
        }
    }

    /// What one attribute of a self-closing verse marker does.
    ///
    /// A malformed attribute fails. An attribute named `bcv` fails if its
    /// value is not UTF-8; if the value splits on `.` into exactly three
    /// components, the record prefix is written, a record is open and
    /// content is enabled, which makes the text that follows eligible; if
    /// not, nothing happens.
    /// The state stays as it is either way. Any other attribute fails if its
    /// name is not UTF-8 and does nothing otherwise.
    pub open spec fn on_attribute(self, entry: Option<AttributeModel>) -> Outcome {
        match entry {
            None => self.failure(),
            Some(attribute) => {
                if attribute.key =~= reference_key() {
                    if !valid_utf8(attribute.value) {
                        self.failure()
                    } else {
                        let parts = split_on(decode_utf8(attribute.value), '.');
                        if parts.len() == 3 {
                            Outcome {
                                next: InterpreterModel {
                                    in_content: true,
                                    record_open: true,
                                    ..self
                                },
                                written: record_prefix(parts),
                                failed: false,
                            }
                        } else {
                            self.unchanged()
                        }
                    }
                } else if !valid_utf8(attribute.key) {
                    self.failure()
                } else {
                    self.unchanged()
                }
            },
        }
    }

    /// What the attributes of a self-closing verse marker do, taken in
    /// document order up to the first that fails.
    pub open spec fn on_attributes(self, entries: Seq<Option<AttributeModel>>) -> Outcome
        decreases entries.len(),
    {
        if entries.len() == 0 {
            self.unchanged()
        } else {
            let first = self.on_attribute(entries[0]);
            if first.failed {
                first
            } else {
                let rest = first.next.on_attributes(entries.skip(1));
                Outcome {
                    next: rest.next,
                    written: first.written + rest.written,
                    failed: rest.failed,
                }
            }
        }
    }

    /// What a self-closing tag does. A verse-end marker returns to
    /// `Initial`, disables content and closes the record; it writes the line
    /// terminator if a record was open and nothing if none was. A verse
    /// marker is read attribute by attribute. Any other tag does nothing.
    pub open spec fn on_empty(self, tag: Tag, entries: Seq<Option<AttributeModel>>) -> Outcome {
        match tag {
            Tag::VerseEnd => Outcome {
                next: InterpreterModel {
                    state: ParserState::Initial,
                    in_content: false,
                    record_open: false,
                    ..self
                },
                written: if self.record_open {
                    terminator()
                } else {
                    Seq::empty()
                },
                failed: false,
            },
            Tag::Verse => self.on_attributes(entries),
            _ => self.unchanged(),
        }
    }

    /// What one event does: an opening or a closing tag moves the state, a
    /// self-closing tag may start or end a record, text goes through the
    /// emission policy, and anything else is ignored.
    ///
    /// The definition is opaque, so that proofs about runs of many events
    /// need not look into every event; `reveal(InterpreterModel::step)` shows
    /// it where a proof is about one event.
    #[verifier::opaque]
    pub open spec fn step(self, event: EventModel, trim_text: bool) -> Outcome {
        match event {
            EventModel::Start(name) => Outcome {
                next: self.after_start(tag_of(name)),
                written: Seq::empty(),
                failed: false,
            },
            EventModel::End(name) => Outcome {
                next: self.after_end(tag_of(name)),
                written: Seq::empty(),
                failed: false,
            },
            EventModel::Empty(name, entries) => self.on_empty(tag_of(name), entries),
            EventModel::Text(payload) => self.on_text(payload, trim_text),
            EventModel::Other => self.unchanged(),
        }
    }

    /// What a sequence of tokenizer outcomes does, taken in order. An entry
    /// is an event, or `None` where the tokenizer met malformed markup; the
    /// run stops at the first such entry and at the first event that fails.
    pub open spec fn run(self, tokens: Seq<Option<EventModel>>, trim_text: bool) -> Run
        decreases tokens.len(),
    {
        if tokens.len() == 0 {
            Run { machine: self, written: Seq::empty(), failure: None }
        } else {
            match tokens[0] {
                None => Run {
                    machine: self,
                    written: Seq::empty(),
                    failure: Some(Failure::Markup),
                },
                Some(event) => {
                    let first = self.step(event, trim_text);
                    if first.failed {
                        Run {
                            machine: first.next,
                            written: first.written,
                            failure: Some(Failure::Encoding),
                        }
                    } else {
                        let rest = first.next.run(tokens.skip(1), trim_text);
                        Run {
                            machine: rest.machine,
                            written: first.written + rest.written,
                            failure: rest.failure,
                        }
                    }
                },
            }
        }
    }
}

/// The interpreter's state, as it is held at run time.
#[derive(Debug, Clone, PartialEq, Eq)]
pub struct Interpreter {
    /// The current state.
    pub state: ParserState,
    /// The content flag.
    pub in_content: bool,
    /// Whether a record is open.
    pub record_open: bool,
    /// The state in which the previous text event was met.
    pub last_state: ParserState,
    /// The suppressible regions that are open, innermost last.
    pub open_regions: Vec<Tag>,
}

impl View for Interpreter {
    type V = InterpreterModel;

    open spec fn view(&self) -> InterpreterModel {
        InterpreterModel {
            state: self.state,
            in_content: self.in_content,
            record_open: self.record_open,
            last_state: self.last_state,
            open_regions: self.open_regions@,
        }
    }
}

impl Interpreter {
    /// An interpreter before the first event: in `Initial`, with content
    /// disabled, no record open and no region open.
    pub fn new() -> (interpreter: Interpreter)
        ensures
            interpreter@ == InterpreterModel::initial(),
    {
        Interpreter {
            state: ParserState::Initial,
            in_content: false,
            record_open: false,
            last_state: ParserState::Initial,
            open_regions: Vec::new(),
        }
    }

    /// Whether a text payload is looked at in the present state.
    pub fn accepts_text(&self) -> (b: bool)
        ensures
            b == self@.accepts_text(),
    {
        self.in_content && self.open_regions.len() == 0 && !self.state.is_suppressing()
    }

    /// Takes an opening tag with the given name.
    pub fn apply_start(&mut self, name: &[u8])
        ensures
            final(self)@ == old(self)@.after_start(tag_of(name@)),
    {
        let tag = classify(name);
        match tag {
            Tag::Book => {
                self.state = ParserState::Book;
            },
            Tag::VerseEnd => {
                self.state = ParserState::VerseEnd;
            },
            Tag::Word => {
                if self.in_content {
                    self.state = ParserState::InWord;
                }
            },
            Tag::Verse => {
                if self.in_content {
                    self.state = ParserState::InVerse;
                }
            },
            Tag::Section => {
                self.state = ParserState::InSection;
                self.in_content = false;
                self.open_regions.push(tag);
            },
            Tag::Footnote => {
                self.state = ParserState::InFootnote;
                self.open_regions.push(tag);
            },
            Tag::CrossReference => {
                self.state = ParserState::InCrossReference;
                self.open_regions.push(tag);
            },
            Tag::Other => {},
        }
    }

    /// Takes a closing tag with the given name.
    pub fn apply_end(&mut self, name: &[u8])
        ensures
            final(self)@ == old(self)@.after_end(tag_of(name@)),
    {
        match classify(name) {
            Tag::VerseEnd => {
                self.state = ParserState::Initial;
            },
            Tag::Word | Tag::Verse => {
                self.state = ParserState::InVerse;
            },
            Tag::Section | Tag::Footnote | Tag::CrossReference => {
                self.state = ParserState::Initial;
                if self.open_regions.len() > 0 {
                    self.open_regions.pop();
                }
            },
            Tag::Book | Tag::Other => {},
        }
    }

    /// Takes a text event and appends what it writes to `out`.
    pub fn apply_text(&mut self, payload: &Option<String>, trim_text: bool, out: &mut String) -> (res:
        Result<(), ParserError>)
        ensures
            ({
                let outcome = old(self)@.on_text(crate::event::payload_text(*payload), trim_text);
                &&& final(self)@ == outcome.next
                &&& final(out)@ == old(out)@ + outcome.written
                &&& res is Ok <==> !outcome.failed
                &&& res matches Err(e) ==> e is ParseError
            }),
    {
        if self.accepts_text() {
            match payload {
                None => {
                    return Err(ParserError::ParseError(String::from_str("Failed to unescape text")));
                },
                Some(text) => {
                    let text: &str = if trim_text {
                        trim(text.as_str())
                    } else {
                        text.as_str()
                    };
                    match emit(text, self.state, self.last_state, self.in_content) {
                        Some(fragment) => {
                            out.append(fragment.as_str());
                        },
                        None => {},
                    }
                },
            }
        }
        self.last_state = self.state;
        Ok(())
    }

    /// Takes one attribute of a self-closing verse marker and appends what
    /// it writes to `out`.
    pub fn apply_attribute(&mut self, entry: &Option<Attribute>, out: &mut String) -> (res: Result<
        (),
        ParserError,
    >)
        ensures
            ({
                let outcome = old(self)@.on_attribute(crate::event::attribute_entry(*entry));
                &&& final(self)@ == outcome.next
                &&& final(out)@ == old(out)@ + outcome.written
                &&& res is Ok <==> !outcome.failed
                &&& res matches Err(e) ==> e is ParseError
            }),
    {
        match entry {
            None => Err(ParserError::ParseError(String::from_str("Malformed attribute"))),
            Some(attribute) => {
                if is_reference_key(attribute.key.as_slice()) {
                    match utf8_text(attribute.value.as_slice()) {
                        None => Err(
                            ParserError::ParseError(
                                String::from_str("Attribute value is not valid UTF-8"),
                            ),
                        ),
                        Some(value) => {
                            match VerseReference::parse(value) {
                                Some(reference) => {
                                    let prefix = reference.prefix();
                                    out.append(prefix.as_str());
                                    self.in_content = true;
                                    self.record_open = true;
                                    Ok(())
                                },
                                None => Ok(()),
                            }
                        },
                    }
                } else {
                    match utf8_text(attribute.key.as_slice()) {
                        None => Err(
                            ParserError::ParseError(
                                String::from_str("Attribute name is not valid UTF-8"),
                            ),
                        ),
                        Some(_) => Ok(()),
                    }
                }
            },
        }
    }

    /// Takes one event and appends what it writes to `out`.
    ///
    /// On a failure the interpreter and `out` stay as they were when the
    /// failure was met: what an earlier attribute of the same marker wrote
    /// stays written.
    pub fn step(&mut self, event: &XmlEvent, trim_text: bool, out: &mut String) -> (res: Result<
        (),
        ParserError,
    >)
        ensures
            ({
                let outcome = old(self)@.step(event@, trim_text);
                &&& final(self)@ == outcome.next
                &&& final(out)@ == old(out)@ + outcome.written
                &&& res is Ok <==> !outcome.failed
                &&& res matches Err(e) ==> e is ParseError
            }),
    {
        proof {
            reveal(InterpreterModel::step);
        }
        match event {
            XmlEvent::Start(name) => {
                self.apply_start(name.as_slice());
                Ok(())
            },
            XmlEvent::End(name) => {
                self.apply_end(name.as_slice());
                Ok(())
            },
            XmlEvent::Empty(name, attributes) => {
                match classify(name.as_slice()) {
                    Tag::VerseEnd => {
                        if self.record_open {
                            proof {
                                reveal_strlit("\n");
                            }
                            out.append("\n");
                            assert("\n"@ =~= terminator());
                        }
                        self.state = ParserState::Initial;
                        self.in_content = false;
                        self.record_open = false;
                        Ok(())
                    },
                    Tag::Verse => self.apply_attributes(attributes, out),
                    _ => Ok(()),
                }
            },
            XmlEvent::Text(payload) => self.apply_text(payload, trim_text, out),
            XmlEvent::Other => Ok(()),
        }
    }

    /// Takes the attributes of a self-closing verse marker in order, up to
    /// the first that fails, and appends what they write to `out`.
    pub fn apply_attributes(&mut self, entries: &Vec<Option<Attribute>>, out: &mut String) -> (res:
        Result<(), ParserError>)
        ensures
            ({
                let outcome = old(self)@.on_attributes(attribute_entries(entries@));
                &&& final(self)@ == outcome.next
                &&& final(out)@ == old(out)@ + outcome.written
                &&& res is Ok <==> !outcome.failed
                &&& res matches Err(e) ==> e is ParseError
            }),
    {
        let ghost all = attribute_entries(entries@);
        let ghost start = self@;
        let ghost before = out@;
        let mut i: usize = 0;
        assert(all.skip(0) =~= all);
        while i < entries.len()
            invariant
                i <= entries.len(),
                all == attribute_entries(entries@),
                start == old(self)@,
                before == old(out)@,
                start.on_attributes(all).next == self@.on_attributes(all.skip(i as int)).next,
                before + start.on_attributes(all).written == out@ + self@.on_attributes(
                    all.skip(i as int),
                ).written,
                start.on_attributes(all).failed == self@.on_attributes(all.skip(i as int)).failed,
            decreases entries.len() - i,
        {
            let ghost here = self@;
            let ghost written = out@;
            let ghost rest = all.skip(i as int);
            assert(rest.skip(1) =~= all.skip(i + 1));
            match self.apply_attribute(&entries[i], out) {
                Err(e) => {
                    return Err(e);
                },
                Ok(()) => {
                    assert(out@ + self@.on_attributes(all.skip(i + 1)).written =~= written
                        + here.on_attributes(rest).written);
                },
            }
            i = i + 1;
        }
        Ok(())
    }
}

/// Whether `key` is the attribute name `bcv`.
pub fn is_reference_key(key: &[u8]) -> (b: bool)
    ensures
        b == (key@ =~= reference_key()),
{
    key.len() == 3 && key[0] == 0x62u8 && key[1] == 0x63u8 && key[2] == 0x76u8
}

} // verus!
