//! A small zoo-lookup library: a case-insensitive lookup of an animal in a
//! fixed reference table, and the rendering of the reply payloads it feeds to
//! a tool-serving runtime.

pub mod json;
pub mod text;
pub mod zoo;
