//! The filter expression tree: combinators, scalar comparisons, list
//! containment tests and quantified predicates over related records.

use crate::prisma_value::PrismaValue;
use crate::schema::{RelationField, ScalarField};
use std::sync::Arc;
use vstd::prelude::*;

verus! {

/// A logical expression over the fields and relations of one model.
#[derive(Debug, PartialEq, Eq)]
pub enum Filter {
    And(Vec<Box<Filter>>),
    Or(Vec<Box<Filter>>),
    Not(Vec<Box<Filter>>),
    Scalar(ScalarFilter),
    ScalarList(ScalarListFilter),
    OneRelationIsNull(OneRelationIsNullFilter),
    Relation(RelationFilter),
    NodeSubscription,
    BoolFilter(bool),
}

/// What a scalar field is compared against.
#[derive(Debug, PartialEq, Eq)]
pub enum ScalarCondition {
    Equals(PrismaValue),
    NotEquals(PrismaValue),
    Contains(PrismaValue),
    NotContains(PrismaValue),
    StartsWith(PrismaValue),
    NotStartsWith(PrismaValue),
    EndsWith(PrismaValue),
    NotEndsWith(PrismaValue),
    LessThan(PrismaValue),
    LessThanOrEquals(PrismaValue),
    GreaterThan(PrismaValue),
    GreaterThanOrEquals(PrismaValue),
    In(Vec<PrismaValue>),
    NotIn(Vec<PrismaValue>),
}

/// What a list-valued field is tested for.
#[derive(Debug, PartialEq, Eq)]
pub enum ScalarListCondition {
    Contains(PrismaValue),
    ContainsEvery(Vec<PrismaValue>),
    ContainsSome(Vec<PrismaValue>),
}

/// True when the record has no related record across a to-one relation.
#[derive(Debug, PartialEq, Eq)]
pub struct OneRelationIsNullFilter {
    pub field: Arc<RelationField>,
}

/// A containment test on a list-valued field.
#[derive(Debug, PartialEq, Eq)]
pub struct ScalarListFilter {
    pub field: Arc<ScalarField>,
    pub condition: ScalarListCondition,
}

/// A comparison on a scalar field.
#[derive(Debug, PartialEq, Eq)]
pub struct ScalarFilter {
    pub field: Arc<ScalarField>,
    pub condition: ScalarCondition,
}

/// A quantified predicate over the records related through `field`.
#[derive(Debug, PartialEq, Eq)]
pub struct RelationFilter {
    pub field: Arc<RelationField>,
    pub nested_filter: Box<Filter>,
    pub condition: RelationCondition,
}

/// How a relation filter quantifies over the related records.
#[derive(Clone, Copy, Debug, PartialEq, Eq, Hash, PartialOrd, Ord)]
pub enum RelationCondition {
    EveryRelatedNode,
    AtLeastOneRelatedNode,
    NoRelatedNode,
    ToOneRelatedNode,
}

/// The membership operator between a column and a sub-select.
#[derive(Clone, Copy, Debug, PartialEq, Eq)]
pub enum Membership {
    In,
    NotIn,
}

impl RelationCondition {
    /// Whether the condition inside the sub-select is negated: only for
    /// "every related record matches", which is compiled as "no related
    /// record fails to match".
    pub open spec fn inverts_sub_select(self) -> bool {
        self is EveryRelatedNode
    }

    /// The operator between the outer column and the sub-select.
    pub open spec fn membership_of(self) -> Membership {
        match self {
            RelationCondition::EveryRelatedNode => Membership::NotIn,
            RelationCondition::NoRelatedNode => Membership::NotIn,
            RelationCondition::AtLeastOneRelatedNode => Membership::In,
            RelationCondition::ToOneRelatedNode => Membership::In,
        }
    }

    /// How the quantifier is compiled: whether the sub-select's condition
    /// is negated, and the operator of the outer membership test. The two
    /// belong together: "every" is `NOT IN` over the rows that fail.
    pub fn plan(self) -> (plan: (bool, Membership))
        ensures
            plan.0 == self.inverts_sub_select(),
            plan.1 == self.membership_of(),
    {
        match self {
            RelationCondition::EveryRelatedNode => (true, Membership::NotIn),
            RelationCondition::NoRelatedNode => (false, Membership::NotIn),
            RelationCondition::AtLeastOneRelatedNode => (false, Membership::In),
            RelationCondition::ToOneRelatedNode => (false, Membership::In),
        }
    }

    /// Whether the sub-select's condition must be negated before it is
    /// attached.
    pub fn invert_of_subselect(self) -> (invert: bool)
        ensures
            invert == self.inverts_sub_select(),
    {
        self.plan().0
    }

    /// The operator that the outer membership test uses.
    pub fn membership(self) -> (operator: Membership)
        ensures
            operator == self.membership_of(),
    {
        self.plan().1
    }
}

} // verus!
