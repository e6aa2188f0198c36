//! The parser: a tokenizer over one document, the interpreter that its
//! events drive, and the records written so far.

use crate::config::UsfxConfig;
use crate::error::ParserError;
use crate::event::EventModel;
use crate::interpreter::{Failure, Interpreter, InterpreterModel, Run};
use crate::tokenizer::{document_events, next_event, open_reader, unread};
use quick_xml::reader::Reader;
use vstd::prelude::*;

verus! {

/// What converting a whole document does: the run of a fresh interpreter
/// over the events of `input`.
pub open spec fn conversion(input: Seq<u8>, trim_text: bool) -> Run {
    InterpreterModel::initial().run(document_events(input), trim_text)
}

/// Converts one document into tab-separated verse records.
pub struct UsfxParser<'a> {
    reader: Reader<&'a [u8]>,
    interpreter: Interpreter,
    output: String,
    config: UsfxConfig,
}

impl<'a> UsfxParser<'a> {
    /// The tokenizer outcomes that have not been taken yet.
    pub closed spec fn pending(&self) -> Seq<Option<EventModel>> {
        unread(self.reader)
    }

    /// The interpreter as it stands.
    pub closed spec fn interpreter(&self) -> InterpreterModel {
        self.interpreter@
    }

    /// All that has been written so far.
    pub closed spec fn written(&self) -> Seq<char> {
        self.output@
    }

    /// The options that the parser was made with.
    pub closed spec fn options(&self) -> UsfxConfig {
        self.config
    }

    /// A parser at the start of `input`, with a fresh interpreter and
    /// nothing written.
    pub fn new(input: &'a [u8], config: UsfxConfig) -> (parser: Self)
        ensures
            parser.pending() == document_events(input@),
            parser.interpreter() == InterpreterModel::initial(),
            parser.written() == Seq::<char>::empty(),
            parser.options() == config,
    {
        UsfxParser {
            reader: open_reader(input),
            interpreter: Interpreter::new(),
            output: String::new(),
            config,
        }
    }

    /// Takes the next pending event, if there is one, and appends what it
    /// writes to what has been written.
    ///
    /// Returns `Ok(false)` at the end of the input, where nothing is pending
    /// and nothing changes, and `Ok(true)` after an event that could be
    /// decoded. It stops with `XmlError` at malformed markup, which changes
    /// nothing, and with `ParseError` at an event that cannot be decoded,
    /// which leaves what the event did before it failed.
    pub fn parse_next(&mut self) -> (res: Result<bool, ParserError>)
        ensures
            final(self).options() == old(self).options(),
            old(self).pending().len() == 0 ==> {
                &&& res == Ok::<bool, ParserError>(false)
                &&& final(self).pending().len() == 0
                &&& final(self).interpreter() == old(self).interpreter()
                &&& final(self).written() == old(self).written()
            },
            old(self).pending().len() > 0 ==> match old(self).pending()[0] {
                None => {
                    &&& (res matches Err(e) && e is XmlError)
                    &&& final(self).interpreter() == old(self).interpreter()
                    &&& final(self).written() == old(self).written()
                },
                Some(event) => {
                    let outcome = old(self).interpreter().step(
                        event,
                        old(self).options().trim_text,
                    );
                    &&& final(self).interpreter() == outcome.next
                    &&& final(self).written() == old(self).written() + outcome.written
                    &&& outcome.failed ==> (res matches Err(e) && e is ParseError)
                    &&& !outcome.failed ==> res == Ok::<bool, ParserError>(true)
                        && final(self).pending() == old(self).pending().skip(1)
                },
            },
    {
        match next_event(&mut self.reader) {
            Err(e) => Err(ParserError::XmlError(e)),
            Ok(None) => Ok(false),
            Ok(Some(event)) => {
                match self.interpreter.step(&event, self.config.trim_text, &mut self.output) {
                    Err(e) => Err(e),
                    Ok(()) => Ok(true),
                }
            },
        }
    }

    /// Takes every pending event in order and appends the records to what
    /// has been written.
    ///
    /// The parse succeeds when the tokenizer reaches the end of the input
    /// and every event could be decoded; nothing is pending then. It stops
    /// with `XmlError` at malformed markup and with `ParseError` at a text
    /// payload or an attribute that cannot be decoded. What was written
    /// before a failure stays written.
    pub fn parse(&mut self) -> (res: Result<(), ParserError>)
        ensures
            ({
                let run = old(self).interpreter().run(
                    old(self).pending(),
                    old(self).options().trim_text,
                );
                &&& final(self).written() == old(self).written() + run.written
                &&& final(self).interpreter() == run.machine
                &&& final(self).options() == old(self).options()
                &&& res is Ok <==> run.failure is None
                &&& res is Ok ==> final(self).pending().len() == 0
                &&& res matches Err(e) ==> (e is XmlError <==> run.failure == Some(Failure::Markup))
                    && (e is ParseError <==> run.failure == Some(Failure::Encoding))
            }),
    {
        let ghost trim_text = self.config.trim_text;
        let ghost total = self.interpreter@.run(unread(self.reader), trim_text);
        let ghost before = self.output@;
        assert(before + total.written =~= self.output@ + self.interpreter@.run(
            unread(self.reader),
            trim_text,
        ).written);
        loop
            invariant
                before == old(self).output@,
                self.config == old(self).config,
                trim_text == self.config.trim_text,
                total == old(self).interpreter@.run(unread(old(self).reader), trim_text),
                total.machine == self.interpreter@.run(unread(self.reader), trim_text).machine,
                total.failure == self.interpreter@.run(unread(self.reader), trim_text).failure,
                before + total.written == self.output@ + self.interpreter@.run(
                    unread(self.reader),
                    trim_text,
                ).written,
            decreases unread(self.reader).len(),
        {
            let ghost here = self.interpreter@;
            let ghost rest = unread(self.reader);
            let ghost written = self.output@;
            match self.parse_next() {
                Err(e) => {
                    return Err(e);
                },
                Ok(more) => {
                    if !more {
                        return Ok(());
                    }
                    assert(self.output@ + self.interpreter@.run(rest.skip(1), trim_text).written
                        =~= written + here.run(rest, trim_text).written);
                },
            }
        }
    }

    /// Hands over all that has been written so far and starts afresh with
    /// nothing written, so that a caller can pass the records on while the
    /// parse goes on.
    pub fn take_output(&mut self) -> (out: String)
        ensures
            out@ == old(self).written(),
            final(self).written() == Seq::<char>::empty(),
            final(self).pending() == old(self).pending(),
            final(self).interpreter() == old(self).interpreter(),
            final(self).options() == old(self).options(),
    {
        let mut out = String::new();
        std::mem::swap(&mut out, &mut self.output);
        out
    }

    /// All that has been written so far.
    pub fn output(&self) -> (out: &str)
        ensures
            out@ == self.written(),
    {
        self.output.as_str()
    }

    /// Gives up the parser for all that it has written.
    pub fn into_output(self) -> (out: String)
        ensures
            out@ == self.written(),
    {
        self.output
    }
}

/// Converts a whole document in one call: the outcome of the parse and all
/// that was written, which is everything up to the failure where the parse
/// fails. Both are functions of the bytes of `input` and of the trim option
/// alone.
pub fn convert(input: &[u8], config: UsfxConfig) -> (result: (Result<(), ParserError>, String))
    ensures
        result.1@ == conversion(input@, config.trim_text).written,
        result.0 is Ok <==> conversion(input@, config.trim_text).failure is None,
        result.0 matches Err(e) ==> (e is XmlError <==> conversion(
            input@,
            config.trim_text,
        ).failure == Some(Failure::Markup)) && (e is ParseError <==> conversion(
            input@,
            config.trim_text,
        ).failure == Some(Failure::Encoding)),
{
    let mut parser = UsfxParser::new(input, config);
    let outcome = parser.parse();
    assert(Seq::<char>::empty() + conversion(input@, config.trim_text).written =~= conversion(
        input@,
        config.trim_text,
    ).written);
    (outcome, parser.into_output())
}

} // verus!
