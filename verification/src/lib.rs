//! A brute-force program synthesizer for small 8-bit CPU instruction sets.
//!
//! Given an architecture's instruction repertoire, a schema mapping abstract
//! test-vector slots onto machine registers, and a set of input/output test
//! cases, the search engine enumerates candidate instruction sequences of
//! increasing length until one reproduces the required behaviour on every
//! test case.

pub mod machine;
pub mod search;
