//! Converts verse-tagged scripture markup (USFX) into tab-separated verse
//! records: one line per verse, `book\tchapter\tverse\t` followed by the
//! text of the verse.
//!
//! The conversion is a state machine over the events of a streaming XML
//! tokenizer. [`interpreter`] holds the machine: what every event does to
//! the current state and what it writes, as a mathematical model and as the
//! executable code that is proved to follow it. [`emission`] decides how a
//! text payload reaches the output, [`reference`] reads the three-part verse
//! reference of a verse marker, and [`text`] trims payloads. [`tokenizer`]
//! is the boundary to `quick_xml`, whose reader supplies the events;
//! [`parser`] drives the machine with them. [`laws`] states what holds of
//! the machine on every input.

pub mod config;
pub mod emission;
pub mod error;
pub mod event;
pub mod interpreter;
pub mod laws;
pub mod parser;
pub mod reference;
pub mod state;
pub mod tag;
pub mod text;
pub mod tokenizer;
pub mod utf8;

pub use config::{UsfxConfig, UsfxConfigBuilder};
pub use error::ParserError;
pub use event::{Attribute, XmlEvent};
pub use interpreter::Interpreter;
pub use parser::UsfxParser;
pub use reference::VerseReference;
pub use state::ParserState;
pub use tag::Tag;
