//! Redaction of sensitive text inside nested values.
//!
//! A [`FilterSet`](filter::FilterSet) is validated once from a list of filter
//! descriptions. A [`RedactionEngine`](engine::RedactionEngine) then rewrites
//! every string of a value tree: each filter, in order, replaces what it
//! matches by the marker of the [`Redactor`](redactor::Redactor). Numbers,
//! booleans and null are kept, and so are the shape of sequences and the keys
//! of mappings.
//!
//! Every function states what it returns over a model of its arguments; the
//! module [`laws`] holds what follows from these statements.

pub mod compiled;
pub mod config;
pub mod engine;
pub mod filter;
pub mod function;
pub mod laws;
pub mod redactor;
pub mod text;
pub mod value;
