//! A small command-line HTTP client: the parsing of its arguments, the
//! request body built from `key=value` pairs, and the layout of a response
//! on the terminal.

pub mod error;
pub mod kv;
pub mod url;
pub mod body;
pub mod render;
pub mod request;
