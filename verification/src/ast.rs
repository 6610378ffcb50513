//! The backend-neutral condition tree that filters compile to, with the
//! columns, comparisons and correlated sub-selects at its leaves.

use crate::prisma_value::PrismaValue;
use vstd::prelude::*;

verus! {

/// A table of a database.
#[derive(Debug, PartialEq, Eq)]
pub struct Table {
    pub database: String,
    pub name: String,
}

/// A column of a table.
#[derive(Debug, PartialEq, Eq)]
pub struct Column {
    pub table: Table,
    pub name: String,
}

/// `INNER JOIN table ON left = right`.
#[derive(Debug, PartialEq, Eq)]
pub struct Join {
    pub table: Table,
    pub left: Column,
    pub right: Column,
}

/// `SELECT column FROM table [join] WHERE conditions`.
#[derive(Debug, PartialEq, Eq)]
pub struct Select {
    pub table: Table,
    pub column: Column,
    pub join: Option<Join>,
    pub conditions: ConditionTree,
}

/// A predicate on one column.
#[derive(Debug, PartialEq, Eq)]
pub enum Compare {
    /// `column = value`
    Equals(Column, PrismaValue),
    /// `column <> value`
    NotEquals(Column, PrismaValue),
    /// `column < value`
    LessThan(Column, PrismaValue),
    /// `column <= value`
    LessThanOrEquals(Column, PrismaValue),
    /// `column > value`
    GreaterThan(Column, PrismaValue),
    /// `column >= value`
    GreaterThanOrEquals(Column, PrismaValue),
    /// `column IN (values)`, the values in the order given
    In(Column, Vec<PrismaValue>),
    /// `column NOT IN (values)`, the values in the order given
    NotIn(Column, Vec<PrismaValue>),
    /// `column IN (sub-select)`
    InSelection(Column, Box<Select>),
    /// `column NOT IN (sub-select)`
    NotInSelection(Column, Box<Select>),
    /// `column LIKE %value%`
    Like(Column, PrismaValue),
    /// `column NOT LIKE %value%`
    NotLike(Column, PrismaValue),
    /// `column LIKE value%`
    BeginsWith(Column, PrismaValue),
    /// `column NOT LIKE value%`
    NotBeginsWith(Column, PrismaValue),
    /// `column LIKE %value`
    EndsInto(Column, PrismaValue),
    /// `column NOT LIKE %value`
    NotEndsInto(Column, PrismaValue),
    /// `column IS NULL`
    Null(Column),
    /// `column IS NOT NULL`
    NotNull(Column),
    /// The list stored in `column` holds the value.
    ListContains(Column, PrismaValue),
    /// The list stored in `column` holds every one of the values.
    ListContainsEvery(Column, Vec<PrismaValue>),
    /// The list stored in `column` holds at least one of the values.
    ListContainsSome(Column, Vec<PrismaValue>),
}

/// A boolean combination of predicates.
#[derive(Debug, PartialEq, Eq)]
pub enum ConditionTree {
    /// `(left AND right)`
    And(Box<ConditionTree>, Box<ConditionTree>),
    /// `(left OR right)`
    Or(Box<ConditionTree>, Box<ConditionTree>),
    /// `(NOT tree)`
    Not(Box<ConditionTree>),
    /// A single predicate.
    Single(Box<Compare>),
    /// The tautology, `1=1`.
    NoCondition,
    /// The contradiction, `1=0`.
    NegativeCondition,
}

/// The direction rows are sorted in.
#[derive(Clone, Copy, Debug, PartialEq, Eq)]
pub enum Order {
    Asc,
    Desc,
}

impl Clone for Table {
    fn clone(&self) -> (copy: Table)
        ensures
            copy == *self,
    {
        Table { database: self.database.clone(), name: self.name.clone() }
    }
}

impl Clone for Column {
    fn clone(&self) -> (copy: Column)
        ensures
            copy == *self,
    {
        Column { table: self.table.clone(), name: self.name.clone() }
    }
}

impl Select {
    /// The number of joins in the select and in every sub-select below it.
    pub open spec fn join_count(self) -> nat
        decreases self,
    {
        (if self.join is Some {
            1nat
        } else {
            0nat
        }) + self.conditions.join_count()
    }
}

impl Compare {
    /// The number of joins in the sub-selects of the predicate.
    pub open spec fn join_count(self) -> nat
        decreases self,
    {
        match self {
            Compare::InSelection(_, select) => select.join_count(),
            Compare::NotInSelection(_, select) => select.join_count(),
            _ => 0,
        }
    }
}

impl ConditionTree {
    /// The truth value of the tree under an assignment of truth values to
    /// its predicates.
    pub open spec fn holds(self, leaf: spec_fn(Compare) -> bool) -> bool
        decreases self,
    {
        match self {
            ConditionTree::And(left, right) => left.holds(leaf) && right.holds(leaf),
            ConditionTree::Or(left, right) => left.holds(leaf) || right.holds(leaf),
            ConditionTree::Not(tree) => !tree.holds(leaf),
            ConditionTree::Single(compare) => leaf(*compare),
            ConditionTree::NoCondition => true,
            ConditionTree::NegativeCondition => false,
        }
    }

    /// Two trees are equivalent when no assignment tells them apart.
    pub open spec fn equivalent(self, other: ConditionTree) -> bool {
        forall|leaf: spec_fn(Compare) -> bool| #[trigger] self.holds(leaf) == other.holds(leaf)
    }

    /// The number of joins in the sub-selects of the tree.
    pub open spec fn join_count(self) -> nat
        decreases self,
    {
        match self {
            ConditionTree::And(left, right) => left.join_count() + right.join_count(),
            ConditionTree::Or(left, right) => left.join_count() + right.join_count(),
            ConditionTree::Not(tree) => tree.join_count(),
            ConditionTree::Single(compare) => compare.join_count(),
            ConditionTree::NoCondition => 0,
            ConditionTree::NegativeCondition => 0,
        }
    }

    /// The tree negated when `invert` is set, unchanged otherwise.
    pub open spec fn inverted_if(self, invert: bool) -> ConditionTree {
        if invert {
            ConditionTree::Not(Box::new(self))
        } else {
            self
        }
    }

    /// `(left AND right)`.
    pub fn and(left: ConditionTree, right: ConditionTree) -> (tree: ConditionTree)
        ensures
            tree == ConditionTree::And(Box::new(left), Box::new(right)),
    {
        ConditionTree::And(Box::new(left), Box::new(right))
    }

    /// `(left OR right)`.
    pub fn or(left: ConditionTree, right: ConditionTree) -> (tree: ConditionTree)
        ensures
            tree == ConditionTree::Or(Box::new(left), Box::new(right)),
    {
        ConditionTree::Or(Box::new(left), Box::new(right))
    }

    /// `(NOT tree)`.
    pub fn not(tree: ConditionTree) -> (negated: ConditionTree)
        ensures
            negated == ConditionTree::Not(Box::new(tree)),
    {
        ConditionTree::Not(Box::new(tree))
    }

    /// A tree of one predicate.
    pub fn single(compare: Compare) -> (tree: ConditionTree)
        ensures
            tree == ConditionTree::Single(Box::new(compare)),
    {
        ConditionTree::Single(Box::new(compare))
    }

    /// Negates the whole tree if `invert` is set.
    pub fn invert_if(self, invert: bool) -> (tree: ConditionTree)
        ensures
            tree == self.inverted_if(invert),
    {
        if invert {
            ConditionTree::not(self)
        } else {
            self
        }
    }
}

} // verus!
