//! The laws of comparisons with null.

use crate::ast::{Column, Compare};
use crate::filter::{ScalarCondition, ScalarFilter};
use crate::prisma_value::PrismaValue;
use crate::schema::{ModelRef, Schema};
use vstd::prelude::*;

verus! {

/// Membership in the list of null alone is the null check that equality
/// with null is, and likewise for their negations.
pub proof fn law_in_null_is_null_check(values: Vec<PrismaValue>, column: Column)
    requires
        values@ == seq![PrismaValue::Null],
    ensures
        ScalarCondition::In(values).predicate(column) == Compare::Null(column),
        ScalarCondition::Equals(PrismaValue::Null).predicate(column) == Compare::Null(column),
        ScalarCondition::NotIn(values).predicate(column) == Compare::NotNull(column),
        ScalarCondition::NotEquals(PrismaValue::Null).predicate(column) == Compare::NotNull(
            column,
        ),
{
}

/// Membership in any other list stays a membership test over the list as
/// given, nulls included.
pub proof fn law_in_list_is_membership(values: Vec<PrismaValue>, column: Column)
    requires
        values@.len() != 1 || !(values@[0] is Null),
    ensures
        ScalarCondition::In(values).predicate(column) == Compare::In(column, values),
        ScalarCondition::NotIn(values).predicate(column) == Compare::NotIn(column, values),
{
}

/// Scalar filters on one field that test for membership in the list of null
/// alone and for equality with null compile to the same result.
pub proof fn law_in_null_compiles_as_equals_null(
    a: ScalarFilter,
    b: ScalarFilter,
    schema: &Schema,
    model: ModelRef,
)
    requires
        a.field == b.field,
        a.condition matches ScalarCondition::In(values) && values@ == seq![PrismaValue::Null],
        b.condition == ScalarCondition::Equals(PrismaValue::Null),
    ensures
        a.condition_tree(schema, model) == b.condition_tree(schema, model),
{
}

} // verus!
