//! Turns the grammar layer's generic parse tree for a GraphQL query document
//! into a fully typed, source-position-annotated AST.
//!
//! `grammar` holds the input tree, one node kind per grammar production;
//! `ast` the typed node schema; `builder` the recursive builder, whose
//! contracts pin every node of the output to the input production it came
//! from; `order` the name ordering used for object literals.

pub mod ast;
pub mod builder;
pub mod grammar;
pub mod order;
