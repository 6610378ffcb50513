//! Where compiled trees join the tables of related models.

use crate::ast::{Compare, ConditionTree, Select};
use crate::filter::{Filter, RelationFilter};
use crate::query_arguments::{combined, folded, joined};
use crate::schema::{ModelRef, Schema};
use vstd::prelude::*;

verus! {

impl Filter {
    /// The number of relation filters in the filter whose nested filter is
    /// not a relation filter again: the ends of its relation chains.
    pub open spec fn terminal_relations(self) -> nat
        decreases self, 0nat,
    {
        match self {
            Filter::And(filters) => terminal_relations_in(filters@, filters@.len()),
            Filter::Or(filters) => terminal_relations_in(filters@, filters@.len()),
            Filter::Not(filters) => terminal_relations_in(filters@, filters@.len()),
            Filter::Relation(filter) => match *filter.nested_filter {
                Filter::Relation(_) => filter.nested_filter.terminal_relations(),
                _ => 1 + filter.nested_filter.terminal_relations(),
            },
            _ => 0,
        }
    }
}

/// The ends of relation chains in the first `n` of `filters`.
pub open spec fn terminal_relations_in(filters: Seq<Box<Filter>>, n: nat) -> nat
    decreases filters, n,
{
    if n == 0 || n > filters.len() {
        0
    } else {
        terminal_relations_in(filters, (n - 1) as nat) + filters[n - 1].terminal_relations()
    }
}

/// A fold adds to the joins of its accumulator one join for each end of a
/// relation chain in the children it folds.
proof fn lemma_folded_joins(
    filters: Seq<Box<Filter>>,
    n: nat,
    acc: ConditionTree,
    or: bool,
    schema: &Schema,
    model: ModelRef,
)
    requires
        n <= filters.len(),
    ensures
        folded(filters, n, acc, or, schema, model) matches Ok(tree) ==> tree.join_count()
            == acc.join_count() + terminal_relations_in(filters, n),
    decreases filters, n,
{
    if n > 0 {
        if let Ok(left) = filters[n - 1].condition_tree(schema, model) {
            law_joins_only_at_chain_ends(*filters[n - 1], schema, model);
            lemma_folded_joins(filters, (n - 1) as nat, joined(left, acc, or), or, schema, model);
        }
    }
}

/// A conjunction or disjunction has one join for each end of a relation
/// chain in its children.
proof fn lemma_combined_joins(
    filters: Seq<Box<Filter>>,
    or: bool,
    schema: &Schema,
    model: ModelRef,
)
    ensures
        combined(filters, or, schema, model) matches Ok(tree) ==> tree.join_count()
            == terminal_relations_in(filters, filters.len()),
    decreases filters, filters.len() + 1,
{
    if filters.len() > 0 {
        if let Ok(right) = filters.last().condition_tree(schema, model) {
            law_joins_only_at_chain_ends(*filters.last(), schema, model);
            lemma_folded_joins(filters, (filters.len() - 1) as nat, right, or, schema, model);
        }
    }
}

/// The sub-select of a relation filter has one join for each end of a
/// relation chain in the filter.
proof fn lemma_sub_select_joins(filter: RelationFilter, schema: &Schema, model: ModelRef)
    ensures
        filter.sub_select(schema, model) matches Ok(select) ==> select.join_count()
            == Filter::Relation(filter).terminal_relations(),
    decreases filter, 0nat,
{
    reveal_with_fuel(ConditionTree::join_count, 3);
    reveal_with_fuel(Compare::join_count, 2);
    reveal_with_fuel(Select::join_count, 2);
    if schema.models@[model as int].relation_named(filter.field.name@) is Some {
        let related = schema.related_through(model, filter.field.name@);
        match *filter.nested_filter {
            Filter::Relation(nested) => {
                lemma_sub_select_joins(nested, schema, related);
            },
            nested => {
                law_joins_only_at_chain_ends(nested, schema, related);
            },
        }
    }
}

/// A compiled tree joins a related model's table exactly once for each
/// relation filter whose nested filter is not a relation filter again:
/// a chain of relation filters costs one join where it ends, however deep it
/// is.
pub proof fn law_joins_only_at_chain_ends(filter: Filter, schema: &Schema, model: ModelRef)
    ensures
        filter.condition_tree(schema, model) matches Ok(tree) ==> tree.join_count()
            == filter.terminal_relations(),
    decreases filter, 0nat,
{
    reveal_with_fuel(ConditionTree::join_count, 3);
    reveal_with_fuel(Compare::join_count, 2);
    reveal_with_fuel(Select::join_count, 2);
    match filter {
        Filter::And(filters) => {
            lemma_combined_joins(filters@, false, schema, model);
        },
        Filter::Or(filters) => {
            lemma_combined_joins(filters@, true, schema, model);
        },
        Filter::Not(filters) => {
            lemma_combined_joins(filters@, false, schema, model);
        },
        Filter::Relation(relation) => {
            lemma_sub_select_joins(relation, schema, model);
        },
        _ => {},
    }
}

} // verus!
