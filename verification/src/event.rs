//! The markup events that the interpreter consumes, as plain values.

use vstd::prelude::*;
use vstd::slice::slice_to_vec;

verus! {

/// One attribute of an element: its name and its value, both as the raw
/// bytes of the document. The value is not unescaped.
#[derive(Debug, Clone, PartialEq, Eq)]
pub struct Attribute {
    pub key: Vec<u8>,
    pub value: Vec<u8>,
}

/// The mathematical content of an [`Attribute`].
pub struct AttributeModel {
    pub key: Seq<u8>,
    pub value: Seq<u8>,
}

impl View for Attribute {
    type V = AttributeModel;

    open spec fn view(&self) -> AttributeModel {
        AttributeModel { key: self.key@, value: self.value@ }
    }
}

impl Attribute {
    /// An attribute with the given name and value.
    pub fn new(key: &[u8], value: &[u8]) -> (attribute: Attribute)
        ensures
            attribute@ == (AttributeModel { key: key@, value: value@ }),
    {
        Attribute { key: slice_to_vec(key), value: slice_to_vec(value) }
    }
}

/// One event of the markup stream.
#[derive(Debug, Clone, PartialEq, Eq)]
pub enum XmlEvent {
    /// An opening tag, with the raw bytes of its name.
    Start(Vec<u8>),
    /// A closing tag, with the raw bytes of its name.
    End(Vec<u8>),
    /// A self-closing tag, with the raw bytes of its name and its attributes
    /// in document order. An entry is `None` where the attribute syntax is
    /// malformed at that place.
    Empty(Vec<u8>, Vec<Option<Attribute>>),
    /// Character data between tags: the payload with its escapes resolved,
    /// or `None` where the payload cannot be decoded.
    Text(Option<String>),
    /// Anything else: a comment, a declaration, a processing instruction, a
    /// document type or a CDATA section.
    Other,
}

/// The mathematical content of an [`XmlEvent`].
pub enum EventModel {
    Start(Seq<u8>),
    End(Seq<u8>),
    Empty(Seq<u8>, Seq<Option<AttributeModel>>),
    Text(Option<Seq<char>>),
    Other,
}

/// The content of one entry of an attribute list.
pub open spec fn attribute_entry(entry: Option<Attribute>) -> Option<AttributeModel> {
    match entry {
        Some(attribute) => Some(attribute@),
        None => None,
    }
}

/// The content of an attribute list.
pub open spec fn attribute_entries(entries: Seq<Option<Attribute>>) -> Seq<
    Option<AttributeModel>,
> {
    Seq::new(entries.len(), |i: int| attribute_entry(entries[i]))
}

/// The content of a text payload.
pub open spec fn payload_text(payload: Option<String>) -> Option<Seq<char>> {
    match payload {
        Some(text) => Some(text@),
        None => None,
    }
}

impl View for XmlEvent {
    type V = EventModel;

    open spec fn view(&self) -> EventModel {
        match *self {
            XmlEvent::Start(name) => EventModel::Start(name@),
            XmlEvent::End(name) => EventModel::End(name@),
            XmlEvent::Empty(name, attributes) => EventModel::Empty(
                name@,
                attribute_entries(attributes@),
            ),
            XmlEvent::Text(payload) => EventModel::Text(payload_text(payload)),
            XmlEvent::Other => EventModel::Other,
        }
    }
}

} // verus!
