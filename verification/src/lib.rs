//! Decoder for a binary module format (the WebAssembly binary encoding):
//! a byte cursor, an LEB128 variable-length integer codec, per-section
//! decoders that build a typed module representation, and a structural
//! validator for the decoded result.

pub mod parser;
pub mod validator;
