//! What a condition tree means over the rows of a database, and what the
//! quantifiers of relation filters then say about related rows.
//!
//! The meaning is two-valued: a predicate holds of a row or it does not.

use crate::ast::{Column, Compare, ConditionTree, Select, Table};
use crate::filter::{Membership, RelationCondition, RelationFilter};
use crate::prisma_value::PrismaValue;
use crate::query_arguments::membership_test;
use crate::schema::{ModelRef, Schema};
use vstd::prelude::*;

verus! {

/// A row: the value in each column.
pub type Row = spec_fn(Column) -> PrismaValue;

/// A database: which rows its tables store, and which predicates on columns
/// and constant values hold of a row.
pub struct Database {
    pub stores: spec_fn(Table, Row) -> bool,
    pub truth: spec_fn(Compare, Row) -> bool,
}

/// The row of a join: the columns of `table` from `joined`, all others from
/// `base`.
pub open spec fn merged(base: Row, joined: Row, table: Table) -> Row {
    |column: Column|
        if column.table == table {
            joined(column)
        } else {
            base(column)
        }
}

impl Database {
    /// Whether `table` stores `row`.
    pub open spec fn has(self, table: Table, row: Row) -> bool {
        (self.stores)(table, row)
    }
}

impl Select {
    /// Whether `row` is one of the rows that the select reads, before its
    /// condition is applied: a row of its table, or with a join, a row of its
    /// table merged with a row of the joined table that the join condition
    /// pairs it with.
    pub open spec fn draws(self, db: Database, row: Row) -> bool {
        match self.join {
            None => db.has(self.table, row),
            Some(join) => exists|base: Row, joined: Row|
                {
                    &&& #[trigger] db.has(self.table, base)
                    &&& #[trigger] db.has(join.table, joined)
                    &&& joined(join.left) == base(join.right)
                    &&& row == merged(base, joined, join.table)
                },
        }
    }

    /// Whether `row` is one that the select reads with `key` in its
    /// projected column.
    pub open spec fn reads_for(self, db: Database, key: PrismaValue, row: Row) -> bool {
        self.draws(db, row) && row(self.column) == key
    }

    /// Whether `value` is among the results of the select: some row that it
    /// reads satisfies its condition and has the value in the projected
    /// column.
    pub open spec fn yields(self, db: Database, value: PrismaValue) -> bool
        decreases self,
    {
        exists|row: Row| #[trigger]
            self.reads_for(db, value, row) && self.conditions.satisfied(db, row)
    }
}

impl Compare {
    /// Whether the predicate holds of `row`: a membership test against a
    /// sub-select by the results of the sub-select, any other predicate as
    /// the database has it.
    pub open spec fn satisfied(self, db: Database, row: Row) -> bool
        decreases self,
    {
        match self {
            Compare::InSelection(column, select) => select.yields(db, row(column)),
            Compare::NotInSelection(column, select) => !select.yields(db, row(column)),
            other => (db.truth)(other, row),
        }
    }
}

impl ConditionTree {
    /// Whether the tree holds of `row`.
    pub open spec fn satisfied(self, db: Database, row: Row) -> bool
        decreases self,
    {
        match self {
            ConditionTree::And(left, right) => left.satisfied(db, row) && right.satisfied(db, row),
            ConditionTree::Or(left, right) => left.satisfied(db, row) || right.satisfied(db, row),
            ConditionTree::Not(tree) => !tree.satisfied(db, row),
            ConditionTree::Single(compare) => compare.satisfied(db, row),
            ConditionTree::NoCondition => true,
            ConditionTree::NegativeCondition => false,
        }
    }

    /// A tree holds of a row exactly when it holds under the assignment that
    /// gives each predicate its truth at that row.
    pub proof fn law_satisfied_is_holds(self, db: Database, row: Row)
        ensures
            self.satisfied(db, row) == self.holds(|compare: Compare| compare.satisfied(db, row)),
        decreases self,
    {
        match self {
            ConditionTree::And(left, right) => {
                left.law_satisfied_is_holds(db, row);
                right.law_satisfied_is_holds(db, row);
            },
            ConditionTree::Or(left, right) => {
                left.law_satisfied_is_holds(db, row);
                right.law_satisfied_is_holds(db, row);
            },
            ConditionTree::Not(tree) => {
                tree.law_satisfied_is_holds(db, row);
            },
            _ => {},
        }
    }
}

/// A relation filter holds of a row exactly as its quantifier says of the
/// rows related to it.
///
/// With `nested` for the condition that the filter puts on a related row,
/// "every" holds when every related row satisfies `nested`, also when there
/// is none; "none" when no related row satisfies it; "at least one" and "to
/// one" when some related row satisfies it. The related rows are those that
/// the sub-select reads for the row's key: the value that the row has in the
/// relation's join column of the model's own end.
pub proof fn law_quantifiers(
    filter: RelationFilter,
    schema: &Schema,
    model: ModelRef,
    nested: ConditionTree,
    db: Database,
    row: Row,
)
    requires
        filter.sub_select(schema, model) matches Ok(select) && select.conditions
            == nested.inverted_if(filter.condition.inverts_sub_select()),
    ensures
        ({
            let tree = filter.condition_tree(schema, model)->Ok_0;
            let select = filter.sub_select(schema, model)->Ok_0;
            let field = schema.models@[model as int].relation_named(filter.field.name@)->Some_0;
            let key = row(schema.join_column_of(*field, field.relation_side));
            &&& filter.condition_tree(schema, model) is Ok
            &&& tree.satisfied(db, row) == match filter.condition {
                RelationCondition::EveryRelatedNode => forall|related: Row| #[trigger]
                    select.reads_for(db, key, related) ==> nested.satisfied(db, related),
                RelationCondition::NoRelatedNode => forall|related: Row| #[trigger]
                    select.reads_for(db, key, related) ==> !nested.satisfied(db, related),
                RelationCondition::AtLeastOneRelatedNode => exists|related: Row| #[trigger]
                    select.reads_for(db, key, related) && nested.satisfied(db, related),
                RelationCondition::ToOneRelatedNode => exists|related: Row| #[trigger]
                    select.reads_for(db, key, related) && nested.satisfied(db, related),
            }
        }),
{
    let tree = filter.condition_tree(schema, model)->Ok_0;
    let select = filter.sub_select(schema, model)->Ok_0;
    let field = schema.models@[model as int].relation_named(filter.field.name@)->Some_0;
    let key = row(schema.join_column_of(*field, field.relation_side));
    reveal_with_fuel(ConditionTree::satisfied, 4);
    reveal_with_fuel(Compare::satisfied, 4);
    reveal_with_fuel(Select::yields, 4);
    assert(tree == membership_test(
        schema.join_column_of(*field, field.relation_side),
        filter.condition,
        select,
    ));
    assert forall|related: Row| #[trigger]
        select.conditions.satisfied(db, related) == (
        if filter.condition.inverts_sub_select() {
            !nested.satisfied(db, related)
        } else {
            nested.satisfied(db, related)
        }) by {}
    match filter.condition.membership_of() {
        Membership::In => {
            assert(tree.satisfied(db, row) == select.yields(db, key));
        },
        Membership::NotIn => {
            assert(tree.satisfied(db, row) == !select.yields(db, key));
        },
    }
}

/// Whether `link` is a row of the join table that pairs the record with the
/// given key to `record`, a row of the related model's table: `link` has the
/// key in the join column of the model's own end, and the identifier of
/// `record` in that of the other end.
pub open spec fn links(
    schema: &Schema,
    model: ModelRef,
    name: Seq<char>,
    db: Database,
    key: PrismaValue,
    link: Row,
    record: Row,
) -> bool {
    let field = schema.models@[model as int].relation_named(name)->Some_0;
    let related = schema.related_model_of(*field);
    &&& db.has(schema.join_table_of(*field), link)
    &&& db.has(schema.table_of(related), record)
    &&& link(schema.join_column_of(*field, field.relation_side)) == key
    &&& record(schema.id_column_of(related)) == link(
        schema.join_column_of(*field, field.relation_side.flipped()),
    )
}

/// A relation filter whose nested filter is no relation filter holds of a
/// row exactly as its quantifier says of the related records.
///
/// "Every" holds when the nested filter's tree holds of every related
/// record, also when there is none; "none" when it holds of no related
/// record; "at least one" and "to one" when it holds of some related record.
/// A related record is seen together with the row of the join table that
/// links it. The join table must not be the related model's own table.
pub proof fn law_quantifiers_over_related_records(
    filter: RelationFilter,
    schema: &Schema,
    model: ModelRef,
    db: Database,
    row: Row,
)
    requires
        filter.condition_tree(schema, model) is Ok,
        !(*filter.nested_filter is Relation),
        schema.join_table_of(
            *schema.models@[model as int].relation_named(filter.field.name@)->Some_0,
        ) != schema.table_of(schema.related_through(model, filter.field.name@)),
    ensures
        ({
            let tree = filter.condition_tree(schema, model)->Ok_0;
            let name = filter.field.name@;
            let field = schema.models@[model as int].relation_named(name)->Some_0;
            let related = schema.related_through(model, name);
            let table = schema.table_of(related);
            let key = row(schema.join_column_of(*field, field.relation_side));
            let nested = filter.nested_filter.condition_tree(schema, related)->Ok_0;
            &&& filter.nested_filter.condition_tree(schema, related) is Ok
            &&& tree.satisfied(db, row) == match filter.condition {
                RelationCondition::EveryRelatedNode => forall|link: Row, record: Row| #[trigger]
                    links(schema, model, name, db, key, link, record) ==> nested.satisfied(
                        db,
                        merged(link, record, table),
                    ),
                RelationCondition::NoRelatedNode => forall|link: Row, record: Row| #[trigger]
                    links(schema, model, name, db, key, link, record) ==> !nested.satisfied(
                        db,
                        merged(link, record, table),
                    ),
                RelationCondition::AtLeastOneRelatedNode => exists|link: Row, record: Row| #[trigger]
                    links(schema, model, name, db, key, link, record) && nested.satisfied(
                        db,
                        merged(link, record, table),
                    ),
                RelationCondition::ToOneRelatedNode => exists|link: Row, record: Row| #[trigger]
                    links(schema, model, name, db, key, link, record) && nested.satisfied(
                        db,
                        merged(link, record, table),
                    ),
            }
        }),
{
    let tree = filter.condition_tree(schema, model)->Ok_0;
    let select = filter.sub_select(schema, model)->Ok_0;
    let name = filter.field.name@;
    let related = schema.related_through(model, name);
    let table = schema.table_of(related);
    let key = row(select.column);
    let nested = filter.nested_filter.condition_tree(schema, related)->Ok_0;
    law_quantifiers(filter, schema, model, nested, db, row);
    let join = select.join->Some_0;
    assert(join.table == table);
    assert(select.column.table != table);
    assert forall|link: Row, record: Row| #[trigger]
        links(schema, model, name, db, key, link, record) implies select.reads_for(
        db,
        key,
        merged(link, record, table),
    ) by {
        assert(db.has(select.table, link));
        assert(db.has(join.table, record));
    }
    assert forall|related_row: Row| #[trigger]
        select.reads_for(db, key, related_row) implies exists|link: Row, record: Row| #[trigger]
        links(schema, model, name, db, key, link, record) && related_row == merged(
            link,
            record,
            table,
        ) by {
        let (link, record) = choose|link: Row, record: Row|
            {
                &&& #[trigger] db.has(select.table, link)
                &&& #[trigger] db.has(join.table, record)
                &&& record(join.left) == link(join.right)
                &&& related_row == merged(link, record, join.table)
            };
        assert(links(schema, model, name, db, key, link, record));
    }
    match filter.condition {
        RelationCondition::EveryRelatedNode => {
            if forall|link: Row, record: Row| #[trigger]
                links(schema, model, name, db, key, link, record) ==> nested.satisfied(
                    db,
                    merged(link, record, table),
                ) {
                assert forall|related_row: Row| #[trigger]
                    select.reads_for(db, key, related_row) implies nested.satisfied(
                    db,
                    related_row,
                ) by {
                    let (link, record) = choose|link: Row, record: Row| #[trigger]
                        links(schema, model, name, db, key, link, record) && related_row
                            == merged(link, record, table);
                }
            }
        },
        RelationCondition::NoRelatedNode => {
            if forall|link: Row, record: Row| #[trigger]
                links(schema, model, name, db, key, link, record) ==> !nested.satisfied(
                    db,
                    merged(link, record, table),
                ) {
                assert forall|related_row: Row| #[trigger]
                    select.reads_for(db, key, related_row) implies !nested.satisfied(
                    db,
                    related_row,
                ) by {
                    let (link, record) = choose|link: Row, record: Row| #[trigger]
                        links(schema, model, name, db, key, link, record) && related_row
                            == merged(link, record, table);
                }
            }
        },
        _ => {
            if exists|related_row: Row| #[trigger]
                select.reads_for(db, key, related_row) && nested.satisfied(db, related_row) {
                let related_row = choose|related_row: Row| #[trigger]
                    select.reads_for(db, key, related_row) && nested.satisfied(db, related_row);
                let (link, record) = choose|link: Row, record: Row| #[trigger]
                    links(schema, model, name, db, key, link, record) && related_row == merged(
                        link,
                        record,
                        table,
                    );
                assert(links(schema, model, name, db, key, link, record) && nested.satisfied(
                    db,
                    merged(link, record, table),
                ));
            }
            if exists|link: Row, record: Row| #[trigger]
                links(schema, model, name, db, key, link, record) && nested.satisfied(
                    db,
                    merged(link, record, table),
                ) {
                let (link, record) = choose|link: Row, record: Row| #[trigger]
                    links(schema, model, name, db, key, link, record) && nested.satisfied(
                        db,
                        merged(link, record, table),
                    );
                assert(select.reads_for(db, key, merged(link, record, table)));
            }
        },
    }
}

} // verus!
