//! The ways in which a parse fails.

use vstd::prelude::*;

verus! {

/// `std::io::Error`, carried through as an opaque value.
#[verifier::external_type_specification]
#[verifier::external_body]
pub struct ExIoError(std::io::Error);

/// `quick_xml::Error`, carried through as an opaque value.
#[verifier::external_type_specification]
#[verifier::external_body]
pub struct ExXmlError(quick_xml::Error);

/// Why a parse stopped. Every failure ends the parse at once; what was
/// written before it stays written.
#[derive(Debug)]
pub enum ParserError {
    /// The source could not be opened or read.
    FileError(std::io::Error),
    /// The tokenizer met malformed markup.
    XmlError(quick_xml::Error),
    /// A text payload or an attribute could not be decoded.
    ParseError(String),
}

} // verus!
