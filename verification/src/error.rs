//! Errors reported while decoding and compiling filters.

use vstd::prelude::*;

verus! {

/// Where in a filter tree a node sits, read from the root downwards.
#[derive(Debug, PartialEq, Eq)]
pub enum FilterPath {
    /// The node itself.
    Here,
    /// Below the child at the given position of an `And`, `Or` or `Not`.
    Child(usize, Box<FilterPath>),
    /// Below the nested filter of a relation filter.
    Nested(Box<FilterPath>),
}

/// Why a filter could not be decoded or compiled.
#[derive(Debug, PartialEq, Eq)]
pub enum FilterError {
    /// A filter names a field that the model in scope does not have.
    UnknownField { name: String },
    /// A leaf without any condition-tree form was reached, at `path`.
    UnsupportedFilter { path: FilterPath },
    /// A message lacks a part that the protocol mandates, or carries an
    /// operand that no value can hold.
    MalformedCondition,
}

impl FilterError {
    /// The same error, seen from the parent of child `index`.
    pub open spec fn below_child(self, index: usize) -> FilterError {
        match self {
            FilterError::UnsupportedFilter { path } => FilterError::UnsupportedFilter {
                path: FilterPath::Child(index, Box::new(path)),
            },
            other => other,
        }
    }

    /// The same error, seen from the relation filter that nests its origin.
    pub open spec fn below_relation(self) -> FilterError {
        match self {
            FilterError::UnsupportedFilter { path } => FilterError::UnsupportedFilter {
                path: FilterPath::Nested(Box::new(path)),
            },
            other => other,
        }
    }

    /// Prefixes the path of an unsupported leaf with a child position.
    pub fn at_child(self, index: usize) -> (error: FilterError)
        ensures
            error == self.below_child(index),
    {
        match self {
            FilterError::UnsupportedFilter { path } => FilterError::UnsupportedFilter {
                path: FilterPath::Child(index, Box::new(path)),
            },
            other => other,
        }
    }

    /// Prefixes the path of an unsupported leaf with a relation step.
    pub fn at_nested(self) -> (error: FilterError)
        ensures
            error == self.below_relation(),
    {
        match self {
            FilterError::UnsupportedFilter { path } => FilterError::UnsupportedFilter {
                path: FilterPath::Nested(Box::new(path)),
            },
            other => other,
        }
    }

    /// A short description of the error kind.
    pub fn kind(&self) -> (text: &'static str)
        ensures
            text@ == match *self {
                FilterError::UnknownField { .. } => "unknown field"@,
                FilterError::UnsupportedFilter { .. } => "unsupported filter"@,
                FilterError::MalformedCondition => "malformed condition"@,
            },
    {
        match self {
            FilterError::UnknownField { .. } => "unknown field",
            FilterError::UnsupportedFilter { .. } => "unsupported filter",
            FilterError::MalformedCondition => "malformed condition",
        }
    }
}

} // verus!
