//! Conversion between JSON text and graphs of host-runtime objects.
//!
//! The encoder walks a [`host::HostObject`] graph, builds the JSON tree that
//! stands for it and renders that tree as compact text; the decoder parses
//! text and materialises the tree as a host graph. Both directions are stated
//! over two mathematical trees, [`value::JsonValue`] and [`host::HostValue`].
pub mod error;
pub mod value;
pub mod host;
pub mod json;
pub mod encoder;
pub mod decoder;
pub mod pretty;
pub mod boundary;
pub mod laws;
