//! Callables with named arguments, as a crate that offers them writes them.

pub mod doc_test;
pub mod module;
