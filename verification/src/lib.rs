//! A small Bible-content gateway library.
//!
//! The heart of the library is the normalization of upstream JSON payloads:
//! a shape-tolerant resolver that accepts both bare arrays and enveloped
//! objects, and a flattener that turns a chapter's nested content tree into
//! a flat, ordered verse list. Both are specified and verified over a plain
//! JSON value model; the surrounding HTTP plumbing lives outside the library.

pub mod json;
pub mod helloao;
pub mod resolve;
pub mod fields;
pub mod flatten;
pub mod numeric;
pub mod error;
pub mod config;
pub mod handlers;
pub mod bible_brain;
pub mod codec;
