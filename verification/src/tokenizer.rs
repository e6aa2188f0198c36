//! The streaming tokenizer: `quick_xml`'s reader over a document held in
//! memory, seen as the sequence of events that it has yet to yield.
//!
//! Nothing here is proved. The reader is an opaque value; what is trusted of
//! it is that its reads are a function of the document alone and come out
//! one after the other. What an event holds is not stated: the interpreter
//! is proved for every event.

use crate::event::{Attribute, EventModel, XmlEvent};
use quick_xml::events::Event;
use quick_xml::reader::Reader;
use vstd::prelude::*;

verus! {

/// `quick_xml::reader::Reader`, carried through as an opaque value.
#[verifier::external_type_specification]
#[verifier::external_body]
#[verifier::reject_recursive_types(R)]
pub struct ExReader<R>(Reader<R>);

/// What a reader has yet to yield: the outcomes of its next reads, in order,
/// up to the end of its input. An entry is the event that a read returns,
/// or `None` for a read that fails on malformed markup; nothing stands
/// behind a `None`.
pub uninterp spec fn unread(reader: Reader<&[u8]>) -> Seq<Option<EventModel>>;

/// What a fresh reader has yet to yield on a document: the events of
/// `input` as `quick_xml` tokenizes it with its default configuration.
pub uninterp spec fn document_events(input: Seq<u8>) -> Seq<Option<EventModel>>;

/// `Reader::from_reader` on a byte slice: a reader at the start of `input`.
///
/// Trusted: that what the reader will yield depends on the bytes of `input`
/// alone.
#[verifier::external_body]
pub(crate) fn open_reader<'a>(input: &'a [u8]) -> (reader: Reader<&'a [u8]>)
    ensures
        unread(reader) == document_events(input@),
{
    Reader::from_reader(input)
}

/// `Reader::read_event` on a byte slice, with the event brought into plain
/// values: the name of a tag as raw bytes (`BytesStart::name`,
/// `BytesEnd::name`), the attributes of a self-closing tag as raw bytes, one
/// entry for each item of `BytesStart::attributes`, and text unescaped by
/// `BytesText::unescape`.
///
/// Trusted: that the reads of one reader return the entries of [`unread`]
/// one after the other. `Ok(None)` is the end of the input, after which
/// nothing is left; an `Err` is a read that failed.
#[verifier::external_body]
pub(crate) fn next_event(reader: &mut Reader<&[u8]>) -> (res: Result<
    Option<XmlEvent>,
    quick_xml::Error,
>)
    ensures
        match res {
            Ok(Some(event)) => unread(*old(reader)).len() > 0 && unread(*old(reader))[0] == Some(
                event@,
            ) && unread(*final(reader)) == unread(*old(reader)).skip(1),
            Ok(None) => unread(*old(reader)).len() == 0 && unread(*final(reader)).len() == 0,
            Err(_) => unread(*old(reader)).len() > 0 && unread(*old(reader))[0] is None,
        },
{
    Ok(match reader.read_event()? {
        Event::Start(e) => Some(XmlEvent::Start(e.name().0.to_vec())),
        Event::End(e) => Some(XmlEvent::End(e.name().0.to_vec())),
        Event::Empty(e) => Some(XmlEvent::Empty(
            e.name().0.to_vec(),
            e.attributes().map(|a| a.ok().map(|a| Attribute::new(a.key.0, &a.value))).collect(),
        )),
        Event::Text(e) => Some(XmlEvent::Text(e.unescape().ok().map(String::from))),
        Event::Eof => None,
        _ => Some(XmlEvent::Other),
    })
}

} // verus!
