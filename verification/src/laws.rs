//! What holds of the interpreter on every input.

pub mod lines;
pub mod markers;
pub mod markup;
pub mod records;
pub mod sequencing;
pub mod suppression;
pub mod text;
