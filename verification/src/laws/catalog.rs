//! Compiled trees refer to tables and columns of the catalog only.

use crate::ast::{Column, Compare, ConditionTree, Select, Table};
use crate::filter::{Filter, RelationFilter};
use crate::query_arguments::{combined, folded, joined};
use crate::schema::{
    lemma_first_relation_named, lemma_first_scalar_named, ModelRef, Schema,
};
use vstd::prelude::*;

verus! {

impl Schema {
    /// Whether `column` is a column of the table of model `m`: its
    /// identifier column, the column of one of its scalar fields, or the
    /// column named after one of its relation fields.
    pub open spec fn has_model_column(self, m: int, column: Column) -> bool {
        let model = self.models@[m];
        &&& 0 <= m < self.models@.len()
        &&& column.table == self.table_of(m as usize)
        &&& {
            ||| column.name == model.id_column
            ||| exists|f: int|
                0 <= f < model.scalar_fields@.len() && (#[trigger] model.scalar_fields@[f]).db_name
                    == column.name
            ||| exists|f: int|
                0 <= f < model.relation_fields@.len() && (#[trigger] model.relation_fields@[f]).name
                    == column.name
        }
    }

    /// Whether `table` is the join table of relation `r`.
    pub open spec fn has_join_table(self, r: int, table: Table) -> bool {
        &&& 0 <= r < self.relations@.len()
        &&& table == Table { database: self.db_name, name: self.relations@[r].table_name }
    }

    /// Whether `column` is one of the two join columns of relation `r`.
    pub open spec fn has_join_column(self, r: int, column: Column) -> bool {
        &&& self.has_join_table(r, column.table)
        &&& (column.name == self.relations@[r].column_a || column.name
            == self.relations@[r].column_b)
    }

    /// Whether the catalog has the table: as the table of a model or the
    /// join table of a relation.
    pub open spec fn has_table(self, table: Table) -> bool {
        ||| exists|m: int| 0 <= m < self.models@.len() && table == #[trigger] self.table_of(m as usize)
        ||| exists|r: int| #[trigger] self.has_join_table(r, table)
    }

    /// Whether the catalog has the column.
    pub open spec fn has_column(self, column: Column) -> bool {
        ||| exists|m: int| #[trigger] self.has_model_column(m, column)
        ||| exists|r: int| #[trigger] self.has_join_column(r, column)
    }
}

impl Compare {
    /// The column that the predicate is on.
    pub open spec fn column(self) -> Column {
        match self {
            Compare::Equals(c, _) => c,
            Compare::NotEquals(c, _) => c,
            Compare::LessThan(c, _) => c,
            Compare::LessThanOrEquals(c, _) => c,
            Compare::GreaterThan(c, _) => c,
            Compare::GreaterThanOrEquals(c, _) => c,
            Compare::In(c, _) => c,
            Compare::NotIn(c, _) => c,
            Compare::InSelection(c, _) => c,
            Compare::NotInSelection(c, _) => c,
            Compare::Like(c, _) => c,
            Compare::NotLike(c, _) => c,
            Compare::BeginsWith(c, _) => c,
            Compare::NotBeginsWith(c, _) => c,
            Compare::EndsInto(c, _) => c,
            Compare::NotEndsInto(c, _) => c,
            Compare::Null(c) => c,
            Compare::NotNull(c) => c,
            Compare::ListContains(c, _) => c,
            Compare::ListContainsEvery(c, _) => c,
            Compare::ListContainsSome(c, _) => c,
        }
    }

    /// Whether the predicate refers to the catalog only: its column, and
    /// all of its sub-select.
    pub open spec fn within(self, schema: &Schema) -> bool
        decreases self,
    {
        &&& schema.has_column(self.column())
        &&& match self {
            Compare::InSelection(_, select) => select.within(schema),
            Compare::NotInSelection(_, select) => select.within(schema),
            _ => true,
        }
    }
}

impl Select {
    /// Whether the select refers to the catalog only: its table and column,
    /// the table and columns of its join, and all of its condition.
    pub open spec fn within(self, schema: &Schema) -> bool
        decreases self,
    {
        &&& schema.has_table(self.table)
        &&& schema.has_column(self.column)
        &&& self.join matches Some(join) ==> {
            &&& schema.has_table(join.table)
            &&& schema.has_column(join.left)
            &&& schema.has_column(join.right)
        }
        &&& self.conditions.within(schema)
    }
}

impl ConditionTree {
    /// Whether the tree refers to the catalog only: every table and column
    /// in it, sub-selects included, is one that the catalog has.
    pub open spec fn within(self, schema: &Schema) -> bool
        decreases self,
    {
        match self {
            ConditionTree::And(left, right) => left.within(schema) && right.within(schema),
            ConditionTree::Or(left, right) => left.within(schema) && right.within(schema),
            ConditionTree::Not(tree) => tree.within(schema),
            ConditionTree::Single(compare) => compare.within(schema),
            ConditionTree::NoCondition => true,
            ConditionTree::NegativeCondition => true,
        }
    }
}

/// The columns that a model's field names resolve to are columns of the
/// catalog.
proof fn lemma_resolved_columns(schema: &Schema, model: ModelRef, name: Seq<char>)
    requires
        model < schema.models@.len(),
    ensures
        schema.models@[model as int].scalar_named(name) matches Some(field) ==> schema.has_column(
            schema.column_of(model, field.db_name),
        ),
        schema.models@[model as int].relation_named(name) matches Some(field)
            ==> schema.has_column(schema.column_of(model, field.name)),
        schema.has_column(schema.id_column_of(model)),
        schema.has_table(schema.table_of(model)),
{
    let m = schema.models@[model as int];
    lemma_first_scalar_named(m.scalar_fields@, name);
    lemma_first_relation_named(m.relation_fields@, name);
    if let Some(field) = m.scalar_named(name) {
        let k = choose|k: int| 0 <= k < m.scalar_fields@.len() && m.scalar_fields@[k] == field;
        assert(m.scalar_fields@[k].db_name == field.db_name);
        assert(schema.has_model_column(model as int, schema.column_of(model, field.db_name)));
    }
    if let Some(field) = m.relation_named(name) {
        let k = choose|k: int| 0 <= k < m.relation_fields@.len() && m.relation_fields@[k] == field;
        assert(m.relation_fields@[k].name == field.name);
        assert(schema.has_model_column(model as int, schema.column_of(model, field.name)));
    }
    assert(schema.has_model_column(model as int, schema.id_column_of(model)));
}

/// A fold stays within the catalog where its accumulator does.
proof fn lemma_folded_within(
    filters: Seq<Box<Filter>>,
    n: nat,
    acc: ConditionTree,
    or: bool,
    schema: &Schema,
    model: ModelRef,
)
    requires
        schema.wf(),
        model < schema.models@.len(),
        n <= filters.len(),
        acc.within(schema),
    ensures
        folded(filters, n, acc, or, schema, model) matches Ok(tree) ==> tree.within(schema),
    decreases filters, n,
{
    if n > 0 {
        if let Ok(left) = filters[n - 1].condition_tree(schema, model) {
            law_trees_stay_within_catalog(*filters[n - 1], schema, model);
            lemma_folded_within(filters, (n - 1) as nat, joined(left, acc, or), or, schema, model);
        }
    }
}

/// A conjunction or disjunction stays within the catalog.
proof fn lemma_combined_within(
    filters: Seq<Box<Filter>>,
    or: bool,
    schema: &Schema,
    model: ModelRef,
)
    requires
        schema.wf(),
        model < schema.models@.len(),
    ensures
        combined(filters, or, schema, model) matches Ok(tree) ==> tree.within(schema),
    decreases filters, filters.len() + 1,
{
    if filters.len() > 0 {
        if let Ok(right) = filters.last().condition_tree(schema, model) {
            law_trees_stay_within_catalog(*filters.last(), schema, model);
            lemma_folded_within(filters, (filters.len() - 1) as nat, right, or, schema, model);
        }
    }
}

/// The sub-select of a relation filter stays within the catalog.
proof fn lemma_sub_select_within(filter: RelationFilter, schema: &Schema, model: ModelRef)
    requires
        schema.wf(),
        model < schema.models@.len(),
    ensures
        filter.sub_select(schema, model) matches Ok(select) ==> select.within(schema),
    decreases filter, 0nat,
{
    reveal_with_fuel(ConditionTree::within, 3);
    reveal_with_fuel(Compare::within, 2);
    reveal_with_fuel(Select::within, 2);
    let name = filter.field.name@;
    if schema.models@[model as int].relation_named(name) is Some {
        let related = schema.related_through(model, name);
        schema.lemma_resolved_relation(model, name);
        lemma_resolved_columns(schema, model, name);
        lemma_resolved_columns(schema, related, name);
        match *filter.nested_filter {
            Filter::Relation(nested) => {
                lemma_sub_select_within(nested, schema, related);
            },
            nested => {
                law_trees_stay_within_catalog(nested, schema, related);
            },
        }
        if let Ok(select) = filter.sub_select(schema, model) {
            let r = schema.models@[model as int].relation_named(name)->Some_0.relation as int;
            assert(schema.has_join_column(r, select.column));
            if let Some(join) = select.join {
                assert(schema.has_join_column(r, join.right));
            } else {
                let inner = match select.conditions {
                    ConditionTree::Not(tree) => *tree,
                    tree => tree,
                };
                assert(schema.has_join_column(r, inner->Single_0.column()));
            }
        }
    }
}

/// A compiled tree refers to the catalog only: every table and column in
/// it, sub-selects and joins included, is one that the catalog has.
pub proof fn law_trees_stay_within_catalog(filter: Filter, schema: &Schema, model: ModelRef)
    requires
        schema.wf(),
        model < schema.models@.len(),
    ensures
        filter.condition_tree(schema, model) matches Ok(tree) ==> tree.within(schema),
    decreases filter, 0nat,
{
    reveal_with_fuel(ConditionTree::within, 3);
    reveal_with_fuel(Compare::within, 2);
    reveal_with_fuel(Select::within, 2);
    match filter {
        Filter::And(filters) => {
            lemma_combined_within(filters@, false, schema, model);
        },
        Filter::Or(filters) => {
            lemma_combined_within(filters@, true, schema, model);
        },
        Filter::Not(filters) => {
            lemma_combined_within(filters@, false, schema, model);
        },
        Filter::Scalar(scalar) => {
            lemma_resolved_columns(schema, model, scalar.field.name@);
        },
        Filter::ScalarList(list) => {
            lemma_resolved_columns(schema, model, list.field.name@);
        },
        Filter::OneRelationIsNull(relation) => {
            lemma_resolved_columns(schema, model, relation.field.name@);
        },
        Filter::Relation(relation) => {
            lemma_resolved_columns(schema, model, relation.field.name@);
            lemma_sub_select_within(relation, schema, model);
        },
        _ => {},
    }
}

} // verus!
