//! Client-side building blocks for a desktop IPC bus protocol.
//!
//! The crate has two halves. The wire type model ([`wire`] and [`basic`])
//! maps each primitive value kind to its one-character type signature and to
//! the byte alignment it needs under each of the two wire formats. The
//! interface compiler ([`compiler`] and [`proxy`]) turns a declarative
//! description of a remote interface into a proxy definition: resolved
//! naming, one member per declared method or property, and the transport
//! action each member issues when called.

pub mod basic;
pub mod compiler;
pub mod decl;
pub mod proxy;
pub mod utils;
pub mod wire;
