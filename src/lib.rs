//! Lexical neutralisation of prompt-injection patterns in text meant for a
//! language model.
//!
//! The pipeline runs ten ordered categories of case-insensitive regular
//! expressions over the text, each fed the output of the previous one, and
//! puts a fixed marker in place of every match.
pub mod engine;
pub mod sanitizer;
pub mod trim;
