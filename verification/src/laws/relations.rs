//! The shape of what a relation filter compiles to.

use crate::ast::{Compare, ConditionTree};
use crate::filter::{RelationCondition, RelationFilter};
use crate::schema::{ModelRef, Schema};
use vstd::prelude::*;

verus! {

/// A relation filter that compiles gives one predicate: the relation's join
/// column of the model's own end, tested against the filter's sub-select,
/// with `NOT IN` for "every" and "none" and `IN` for "at least one" and "to
/// one". The test itself is never negated.
pub proof fn law_relation_filter_is_a_membership_test(
    filter: RelationFilter,
    schema: &Schema,
    model: ModelRef,
)
    ensures
        filter.condition_tree(schema, model) matches Ok(tree) ==> {
            let field = schema.models@[model as int].relation_named(filter.field.name@)->Some_0;
            let column = schema.join_column_of(*field, field.relation_side);
            let select = filter.sub_select(schema, model)->Ok_0;
            &&& schema.models@[model as int].relation_named(filter.field.name@) is Some
            &&& filter.sub_select(schema, model) is Ok
            &&& column == select.column
            &&& tree == match filter.condition {
                RelationCondition::EveryRelatedNode => ConditionTree::Single(
                    Box::new(Compare::NotInSelection(column, Box::new(select))),
                ),
                RelationCondition::NoRelatedNode => ConditionTree::Single(
                    Box::new(Compare::NotInSelection(column, Box::new(select))),
                ),
                RelationCondition::AtLeastOneRelatedNode => ConditionTree::Single(
                    Box::new(Compare::InSelection(column, Box::new(select))),
                ),
                RelationCondition::ToOneRelatedNode => ConditionTree::Single(
                    Box::new(Compare::InSelection(column, Box::new(select))),
                ),
            }
        },
{
}

} // verus!
