//! What holds of every compilation.

pub mod catalog;
pub mod combinators;
pub mod failure;
pub mod joins;
pub mod null_checks;
pub mod relations;
