//! Parser for ECMAScript regular-expression pattern text.
//!
//! The parser turns the body of a regular expression (the part between the
//! slashes) into a typed syntax tree, following the ECMA-262 pattern grammar,
//! its Annex B web-compatibility extensions, and the stricter unicode-mode
//! variants selected by the `u` and `v` flags.

pub mod ast;
pub mod error;
pub mod minifier;
pub mod options;
pub mod parser;
pub mod reader;
pub mod span;
pub mod text;
pub mod unicode;
pub mod unicode_property;
