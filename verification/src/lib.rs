//! Compilation of logical record filters into backend-neutral SQL condition
//! trees.
//!
//! A [`filter::Filter`] is a logical expression over the fields and relations
//! of one model of a [`schema::Schema`]: conjunctions, disjunctions and
//! negations of comparisons on scalar fields, containment tests on list
//! fields, and quantified predicates over related records. Compiling it
//! against a model gives an [`ast::ConditionTree`], with a correlated
//! sub-select over the relation's join table for each relation filter.
//!
//! - [`prisma_value`]: the scalar values, and the parameters they are bound as
//! - [`schema`]: the catalog of models, fields and relations
//! - [`filter`]: the filter expression tree
//! - [`ast`]: condition trees, predicates, columns and sub-selects
//! - [`query_arguments`]: the compiler
//! - [`laws`]: what holds of every compilation
//! - [`semantics`]: what a tree means over rows, and what quantifiers say
//! - [`protobuf`]: the wire messages and their decoding into filters
//! - [`data_resolvers`]: reading values out of database cells
//! - [`error`]: the errors of decoding and compiling

pub mod ast;
pub mod data_resolvers;
pub mod error;
pub mod filter;
pub mod laws;
pub mod prelude;
pub mod prisma_value;
pub mod protobuf;
pub mod query_arguments;
pub mod schema;
pub mod semantics;
