//! Presentation of raw bytes and the protocol parsers.
pub mod format;
pub mod parser;
