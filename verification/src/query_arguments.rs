//! The compiler from filters to condition trees.
//!
//! Every field that a filter names is resolved against the model in scope, so
//! that the tree refers to columns of the catalog only. Relation filters
//! become membership tests against correlated sub-selects over the join table
//! of their relation.

use crate::ast::{Column, Compare, ConditionTree, Join, Order, Select};
use crate::error::{FilterError, FilterPath};
use crate::filter::{
    Filter, Membership, OneRelationIsNullFilter, RelationCondition, RelationFilter,
    ScalarCondition, ScalarFilter, ScalarListCondition, ScalarListFilter,
};
use crate::schema::{ModelRef, Schema};
use vstd::prelude::*;

verus! {

/// The direction of a sort, as requests state it.
#[derive(Clone, Copy, Debug, PartialEq, Eq)]
pub enum SortOrder {
    Asc,
    Desc,
}

impl SortOrder {
    /// The ordering a request's sort direction stands for.
    pub open spec fn order(self) -> Order {
        match self {
            SortOrder::Asc => Order::Asc,
            SortOrder::Desc => Order::Desc,
        }
    }

    /// Converts the direction into the ordering of a query.
    pub fn into(self) -> (order: Order)
        ensures
            order == self.order(),
    {
        match self {
            SortOrder::Asc => Order::Asc,
            SortOrder::Desc => Order::Desc,
        }
    }
}

/// A filter that compiles to a condition tree against a model of a schema.
pub trait IntoConditionTree: Sized {
    /// What the filter compiles to: the tree, or the first error met.
    spec fn compiled(self, schema: &Schema, model: ModelRef) -> Result<ConditionTree, FilterError>;

    /// Compiles the filter against `model`.
    fn into_condition_tree(self, schema: &Schema, model: ModelRef) -> (tree: Result<
        ConditionTree,
        FilterError,
    >)
        requires
            schema.wf(),
            model < schema.models@.len(),
        ensures
            tree == self.compiled(schema, model),
    ;
}

/// The membership test of `column` against `select` that a quantifier asks
/// for.
pub open spec fn membership_test(
    column: Column,
    condition: RelationCondition,
    select: Select,
) -> ConditionTree {
    ConditionTree::Single(
        Box::new(
            match condition.membership_of() {
                Membership::In => Compare::InSelection(column, Box::new(select)),
                Membership::NotIn => Compare::NotInSelection(column, Box::new(select)),
            },
        ),
    )
}

/// `left AND acc`, or `left OR acc`.
pub open spec fn joined(left: ConditionTree, acc: ConditionTree, or: bool) -> ConditionTree {
    if or {
        ConditionTree::Or(Box::new(left), Box::new(acc))
    } else {
        ConditionTree::And(Box::new(left), Box::new(acc))
    }
}

/// The first `n` of `filters` folded onto `acc` from the right: each is
/// compiled and joined in front of what has been accumulated so far.
pub open spec fn folded(
    filters: Seq<Box<Filter>>,
    n: nat,
    acc: ConditionTree,
    or: bool,
    schema: &Schema,
    model: ModelRef,
) -> Result<ConditionTree, FilterError>
    decreases filters, n,
{
    if n == 0 || n > filters.len() {
        Ok(acc)
    } else {
        match filters[n - 1].condition_tree(schema, model) {
            Err(e) => Err(e.below_child((n - 1) as usize)),
            Ok(left) => folded(filters, (n - 1) as nat, joined(left, acc, or), or, schema, model),
        }
    }
}

/// The conjunction (or, with `or`, the disjunction) of a list of filters:
/// the tautology for no filter, else the last one's tree with the others
/// joined in front of it, right to left.
pub open spec fn combined(
    filters: Seq<Box<Filter>>,
    or: bool,
    schema: &Schema,
    model: ModelRef,
) -> Result<ConditionTree, FilterError>
    decreases filters, filters.len() + 1,
{
    if filters.len() == 0 {
        Ok(ConditionTree::NoCondition)
    } else {
        match filters.last().condition_tree(schema, model) {
            Err(e) => Err(e.below_child((filters.len() - 1) as usize)),
            Ok(right) => folded(filters, (filters.len() - 1) as nat, right, or, schema, model),
        }
    }
}

impl ScalarCondition {
    /// The predicate that the condition puts on `column`. A comparison with
    /// null, or membership in the list of null alone, is a null check.
    pub open spec fn predicate(self, column: Column) -> Compare {
        match self {
            ScalarCondition::Equals(v) => if v is Null {
                Compare::Null(column)
            } else {
                Compare::Equals(column, v)
            },
            ScalarCondition::NotEquals(v) => if v is Null {
                Compare::NotNull(column)
            } else {
                Compare::NotEquals(column, v)
            },
            ScalarCondition::Contains(v) => Compare::Like(column, v),
            ScalarCondition::NotContains(v) => Compare::NotLike(column, v),
            ScalarCondition::StartsWith(v) => Compare::BeginsWith(column, v),
            ScalarCondition::NotStartsWith(v) => Compare::NotBeginsWith(column, v),
            ScalarCondition::EndsWith(v) => Compare::EndsInto(column, v),
            ScalarCondition::NotEndsWith(v) => Compare::NotEndsInto(column, v),
            ScalarCondition::LessThan(v) => Compare::LessThan(column, v),
            ScalarCondition::LessThanOrEquals(v) => Compare::LessThanOrEquals(column, v),
            ScalarCondition::GreaterThan(v) => Compare::GreaterThan(column, v),
            ScalarCondition::GreaterThanOrEquals(v) => Compare::GreaterThanOrEquals(column, v),
            ScalarCondition::In(values) => if values@.len() == 1 && values@[0] is Null {
                Compare::Null(column)
            } else {
                Compare::In(column, values)
            },
            ScalarCondition::NotIn(values) => if values@.len() == 1 && values@[0] is Null {
                Compare::NotNull(column)
            } else {
                Compare::NotIn(column, values)
            },
        }
    }

    /// Builds the predicate that the condition puts on `column`.
    pub fn into_compare(self, column: Column) -> (compare: Compare)
        ensures
            compare == self.predicate(column),
    {
        match self {
            ScalarCondition::Equals(v) => if v.is_null() {
                Compare::Null(column)
            } else {
                Compare::Equals(column, v)
            },
            ScalarCondition::NotEquals(v) => if v.is_null() {
                Compare::NotNull(column)
            } else {
                Compare::NotEquals(column, v)
            },
            ScalarCondition::Contains(v) => Compare::Like(column, v),
            ScalarCondition::NotContains(v) => Compare::NotLike(column, v),
            ScalarCondition::StartsWith(v) => Compare::BeginsWith(column, v),
            ScalarCondition::NotStartsWith(v) => Compare::NotBeginsWith(column, v),
            ScalarCondition::EndsWith(v) => Compare::EndsInto(column, v),
            ScalarCondition::NotEndsWith(v) => Compare::NotEndsInto(column, v),
            ScalarCondition::LessThan(v) => Compare::LessThan(column, v),
            ScalarCondition::LessThanOrEquals(v) => Compare::LessThanOrEquals(column, v),
            ScalarCondition::GreaterThan(v) => Compare::GreaterThan(column, v),
            ScalarCondition::GreaterThanOrEquals(v) => Compare::GreaterThanOrEquals(column, v),
            ScalarCondition::In(values) => if values.len() == 1 && values[0].is_null() {
                Compare::Null(column)
            } else {
                Compare::In(column, values)
            },
            ScalarCondition::NotIn(values) => if values.len() == 1 && values[0].is_null() {
                Compare::NotNull(column)
            } else {
                Compare::NotIn(column, values)
            },
        }
    }
}

impl ScalarListCondition {
    /// The containment predicate that the condition puts on `column`.
    pub open spec fn predicate(self, column: Column) -> Compare {
        match self {
            ScalarListCondition::Contains(v) => Compare::ListContains(column, v),
            ScalarListCondition::ContainsEvery(values) => Compare::ListContainsEvery(
                column,
                values,
            ),
            ScalarListCondition::ContainsSome(values) => Compare::ListContainsSome(column, values),
        }
    }

    /// Builds the containment predicate that the condition puts on `column`.
    pub fn into_compare(self, column: Column) -> (compare: Compare)
        ensures
            compare == self.predicate(column),
    {
        match self {
            ScalarListCondition::Contains(v) => Compare::ListContains(column, v),
            ScalarListCondition::ContainsEvery(values) => Compare::ListContainsEvery(
                column,
                values,
            ),
            ScalarListCondition::ContainsSome(values) => Compare::ListContainsSome(column, values),
        }
    }
}

impl ScalarFilter {
    /// The single predicate on the column of the field that the filter's
    /// field name resolves to; `UnknownField` if it resolves to none.
    pub open spec fn condition_tree(self, schema: &Schema, model: ModelRef) -> Result<
        ConditionTree,
        FilterError,
    > {
        match schema.models@[model as int].scalar_named(self.field.name@) {
            None => Err(FilterError::UnknownField { name: self.field.name }),
            Some(field) => Ok(
                ConditionTree::Single(
                    Box::new(self.condition.predicate(schema.column_of(model, field.db_name))),
                ),
            ),
        }
    }
}

impl ScalarListFilter {
    /// The single containment predicate on the column of the field that the
    /// filter's field name resolves to; `UnknownField` if it resolves to
    /// none.
    pub open spec fn condition_tree(self, schema: &Schema, model: ModelRef) -> Result<
        ConditionTree,
        FilterError,
    > {
        match schema.models@[model as int].scalar_named(self.field.name@) {
            None => Err(FilterError::UnknownField { name: self.field.name }),
            Some(field) => Ok(
                ConditionTree::Single(
                    Box::new(self.condition.predicate(schema.column_of(model, field.db_name))),
                ),
            ),
        }
    }
}

impl OneRelationIsNullFilter {
    /// A null check on the model's column for the relation field that the
    /// filter's field name resolves to; `UnknownField` if it resolves to
    /// none.
    pub open spec fn condition_tree(self, schema: &Schema, model: ModelRef) -> Result<
        ConditionTree,
        FilterError,
    > {
        match schema.models@[model as int].relation_named(self.field.name@) {
            None => Err(FilterError::UnknownField { name: self.field.name }),
            Some(field) => Ok(
                ConditionTree::Single(
                    Box::new(Compare::Null(schema.column_of(model, field.name))),
                ),
            ),
        }
    }
}

impl RelationFilter {
    /// The correlated sub-select over the join table of the filter's
    /// relation. It projects the join column of the model's own end.
    ///
    /// Where the nested filter is a relation filter again, the sub-select
    /// tests the join column of the other end for membership in the nested
    /// filter's sub-select, and joins nothing. Otherwise it joins the related
    /// model's table, on its identifier column being the join column of the
    /// other end, and its condition is the nested filter compiled against the
    /// related model. Either way the condition is negated for "every".
    pub open spec fn sub_select(self, schema: &Schema, model: ModelRef) -> Result<
        Select,
        FilterError,
    >
        decreases self, 0nat,
    {
        match schema.models@[model as int].relation_named(self.field.name@) {
            None => Err(FilterError::UnknownField { name: self.field.name }),
            Some(field) => {
                let related = schema.related_model_of(*field);
                let this_column = schema.join_column_of(*field, field.relation_side);
                let other_column = schema.join_column_of(*field, field.relation_side.flipped());
                let invert = self.condition.inverts_sub_select();
                match *self.nested_filter {
                    Filter::Relation(nested) => match nested.sub_select(schema, related) {
                        Err(e) => Err(e.below_relation()),
                        Ok(select) => Ok(
                            Select {
                                table: schema.join_table_of(*field),
                                column: this_column,
                                join: None,
                                conditions: membership_test(
                                    other_column,
                                    nested.condition,
                                    select,
                                ).inverted_if(invert),
                            },
                        ),
                    },
                    nested => match nested.condition_tree(schema, related) {
                        Err(e) => Err(e.below_relation()),
                        Ok(tree) => Ok(
                            Select {
                                table: schema.join_table_of(*field),
                                column: this_column,
                                join: Some(
                                    Join {
                                        table: schema.table_of(related),
                                        left: schema.id_column_of(related),
                                        right: other_column,
                                    },
                                ),
                                conditions: tree.inverted_if(invert),
                            },
                        ),
                    },
                }
            },
        }
    }

    /// The membership test of the relation's join column of the model's
    /// own end against the filter's sub-select: `NOT IN` for "every" and
    /// "none", `IN` for "at least one" and "to one". The test itself is never
    /// negated.
    pub open spec fn condition_tree(self, schema: &Schema, model: ModelRef) -> Result<
        ConditionTree,
        FilterError,
    >
        decreases self, 1nat,
    {
        match schema.models@[model as int].relation_named(self.field.name@) {
            None => Err(FilterError::UnknownField { name: self.field.name }),
            Some(field) => match self.sub_select(schema, model) {
                Err(e) => Err(e),
                Ok(select) => Ok(
                    membership_test(
                        schema.join_column_of(*field, field.relation_side),
                        self.condition,
                        select,
                    ),
                ),
            },
        }
    }
}

impl Filter {
    /// What the filter compiles to against a model.
    ///
    /// `And` and `Or` of nothing are the tautology; otherwise the children
    /// are folded from the right. `Not` negates the conjunction of its
    /// children. A constant filter is the tautology or the contradiction. A
    /// subscription marker has no tree. Children are compiled last to first,
    /// and the first error met is the result.
    pub open spec fn condition_tree(self, schema: &Schema, model: ModelRef) -> Result<
        ConditionTree,
        FilterError,
    >
        decreases self, 0nat,
    {
        match self {
            Filter::And(filters) => combined(filters@, false, schema, model),
            Filter::Or(filters) => combined(filters@, true, schema, model),
            Filter::Not(filters) => match combined(filters@, false, schema, model) {
                Err(e) => Err(e),
                Ok(tree) => Ok(ConditionTree::Not(Box::new(tree))),
            },
            Filter::Scalar(filter) => filter.condition_tree(schema, model),
            Filter::ScalarList(filter) => filter.condition_tree(schema, model),
            Filter::OneRelationIsNull(filter) => filter.condition_tree(schema, model),
            Filter::Relation(filter) => filter.condition_tree(schema, model),
            Filter::NodeSubscription => Err(
                FilterError::UnsupportedFilter { path: FilterPath::Here },
            ),
            Filter::BoolFilter(b) => Ok(
                if b {
                    ConditionTree::NoCondition
                } else {
                    ConditionTree::NegativeCondition
                },
            ),
        }
    }
}

impl ScalarFilter {
    /// Compiles the comparison against `model`.
    pub fn compile(self, schema: &Schema, model: ModelRef) -> (tree: Result<
        ConditionTree,
        FilterError,
    >)
        requires
            model < schema.models@.len(),
        ensures
            tree == self.condition_tree(schema, model),
    {
        let ScalarFilter { field, condition } = self;
        match schema.models[model].find_scalar(&field.name) {
            None => Err(FilterError::UnknownField { name: field.name.clone() }),
            Some(resolved) => {
                let column = schema.model_column(model, &resolved.db_name);
                Ok(ConditionTree::single(condition.into_compare(column)))
            },
        }
    }
}

impl ScalarListFilter {
    /// Compiles the containment test against `model`.
    pub fn compile(self, schema: &Schema, model: ModelRef) -> (tree: Result<
        ConditionTree,
        FilterError,
    >)
        requires
            model < schema.models@.len(),
        ensures
            tree == self.condition_tree(schema, model),
    {
        let ScalarListFilter { field, condition } = self;
        match schema.models[model].find_scalar(&field.name) {
            None => Err(FilterError::UnknownField { name: field.name.clone() }),
            Some(resolved) => {
                let column = schema.model_column(model, &resolved.db_name);
                Ok(ConditionTree::single(condition.into_compare(column)))
            },
        }
    }
}

impl OneRelationIsNullFilter {
    /// Compiles the null check against `model`.
    pub fn compile(self, schema: &Schema, model: ModelRef) -> (tree: Result<
        ConditionTree,
        FilterError,
    >)
        requires
            model < schema.models@.len(),
        ensures
            tree == self.condition_tree(schema, model),
    {
        match schema.models[model].find_relation(&self.field.name) {
            None => Err(FilterError::UnknownField { name: self.field.name.clone() }),
            Some(resolved) => {
                let column = schema.model_column(model, &resolved.name);
                Ok(ConditionTree::single(Compare::Null(column)))
            },
        }
    }
}

impl RelationFilter {
    /// The membership test of `column` against `sub_select` that the
    /// quantifier asks for.
    pub fn in_statement_for_relation_condition(
        column: Column,
        condition: RelationCondition,
        sub_select: Select,
    ) -> (tree: ConditionTree)
        ensures
            tree == membership_test(column, condition, sub_select),
    {
        let compare = match condition.membership() {
            Membership::In => Compare::InSelection(column, Box::new(sub_select)),
            Membership::NotIn => Compare::NotInSelection(column, Box::new(sub_select)),
        };
        ConditionTree::single(compare)
    }

    /// Builds the correlated sub-select of the filter against `model`.
    pub fn relation_filter_sub_select(self, schema: &Schema, model: ModelRef) -> (select: Result<
        Select,
        FilterError,
    >)
        requires
            schema.wf(),
            model < schema.models@.len(),
        ensures
            select == self.sub_select(schema, model),
        decreases self, 0nat,
    {
        let RelationFilter { field, nested_filter, condition } = self;
        let resolved = match schema.models[model].find_relation(&field.name) {
            None => {
                return Err(FilterError::UnknownField { name: field.name.clone() });
            },
            Some(resolved) => resolved,
        };
        proof {
            schema.lemma_resolved_relation(model, field.name@);
        }
        let related = schema.related_model(resolved);
        let invert = condition.invert_of_subselect();
        let table = schema.relation_table(resolved);
        let this_column = schema.relation_column(resolved, resolved.relation_side);
        let other_column = schema.relation_column(resolved, resolved.relation_side.opposite());
        match *nested_filter {
            Filter::Relation(nested) => {
                let nested_condition = nested.condition;
                match nested.relation_filter_sub_select(schema, related) {
                    Err(e) => Err(e.at_nested()),
                    Ok(nested_select) => {
                        let tree = Self::in_statement_for_relation_condition(
                            other_column,
                            nested_condition,
                            nested_select,
                        );
                        Ok(
                            Select {
                                table,
                                column: this_column,
                                join: None,
                                conditions: tree.invert_if(invert),
                            },
                        )
                    },
                }
            },
            nested => match nested.compile(schema, related) {
                Err(e) => Err(e.at_nested()),
                Ok(tree) => {
                    let join = Join {
                        table: schema.table(related),
                        left: schema.id_column(related),
                        right: other_column,
                    };
                    Ok(
                        Select {
                            table,
                            column: this_column,
                            join: Some(join),
                            conditions: tree.invert_if(invert),
                        },
                    )
                },
            },
        }
    }

    /// Compiles the relation filter against `model`: a membership test of
    /// the relation's join column of the model's own end against the
    /// sub-select.
    pub fn as_sub_select(self, schema: &Schema, model: ModelRef) -> (tree: Result<
        ConditionTree,
        FilterError,
    >)
        requires
            schema.wf(),
            model < schema.models@.len(),
        ensures
            tree == self.condition_tree(schema, model),
        decreases self, 1nat,
    {
        let column = match schema.models[model].find_relation(&self.field.name) {
            None => {
                return Err(FilterError::UnknownField { name: self.field.name.clone() });
            },
            Some(resolved) => {
                proof {
                    schema.lemma_resolved_relation(model, self.field.name@);
                }
                schema.relation_column(resolved, resolved.relation_side)
            },
        };
        let condition = self.condition;
        match self.relation_filter_sub_select(schema, model) {
            Err(e) => Err(e),
            Ok(select) => Ok(Self::in_statement_for_relation_condition(column, condition, select)),
        }
    }
}

/// Compiles a list of filters, last to first, into their conjunction or
/// disjunction.
fn fold_filters(filters: Vec<Box<Filter>>, or: bool, schema: &Schema, model: ModelRef) -> (tree:
    Result<ConditionTree, FilterError>)
    requires
        schema.wf(),
        model < schema.models@.len(),
    ensures
        tree == combined(filters@, or, schema, model),
    decreases filters, filters@.len() + 1,
{
    let mut rest = filters;
    let last = match rest.pop() {
        None => {
            return Ok(ConditionTree::NoCondition);
        },
        Some(last) => last,
    };
    let mut acc = match (*last).compile(schema, model) {
        Err(e) => {
            return Err(e.at_child(rest.len()));
        },
        Ok(right) => right,
    };
    while rest.len() > 0
        invariant
            schema.wf(),
            model < schema.models@.len(),
            rest@.len() < filters@.len(),
            rest@ == filters@.subrange(0, rest@.len() as int),
            folded(filters@, rest@.len() as nat, acc, or, schema, model) == combined(
                filters@,
                or,
                schema,
                model,
            ),
        decreases rest@.len(),
    {
        let filter = match rest.pop() {
            None => {
                return Ok(acc);
            },
            Some(filter) => filter,
        };
        match (*filter).compile(schema, model) {
            Err(e) => {
                return Err(e.at_child(rest.len()));
            },
            Ok(left) => {
                acc = if or {
                    ConditionTree::or(left, acc)
                } else {
                    ConditionTree::and(left, acc)
                };
            },
        }
    }
    Ok(acc)
}

impl Filter {
    /// Compiles the filter against `model`.
    pub fn compile(self, schema: &Schema, model: ModelRef) -> (tree: Result<
        ConditionTree,
        FilterError,
    >)
        requires
            schema.wf(),
            model < schema.models@.len(),
        ensures
            tree == self.condition_tree(schema, model),
        decreases self, 0nat,
    {
        match self {
            Filter::And(filters) => fold_filters(filters, false, schema, model),
            Filter::Or(filters) => fold_filters(filters, true, schema, model),
            Filter::Not(filters) => match fold_filters(filters, false, schema, model) {
                Err(e) => Err(e),
                Ok(tree) => Ok(ConditionTree::not(tree)),
            },
            Filter::Scalar(filter) => filter.compile(schema, model),
            Filter::ScalarList(filter) => filter.compile(schema, model),
            Filter::OneRelationIsNull(filter) => filter.compile(schema, model),
            Filter::Relation(filter) => filter.as_sub_select(schema, model),
            Filter::NodeSubscription => Err(
                FilterError::UnsupportedFilter { path: FilterPath::Here },
            ),
            Filter::BoolFilter(b) => if b {
                Ok(ConditionTree::NoCondition)
            } else {
                Ok(ConditionTree::NegativeCondition)
            },
        }
    }
}

impl IntoConditionTree for Filter {
    open spec fn compiled(self, schema: &Schema, model: ModelRef) -> Result<
        ConditionTree,
        FilterError,
    > {
        self.condition_tree(schema, model)
    }

    fn into_condition_tree(self, schema: &Schema, model: ModelRef) -> (tree: Result<
        ConditionTree,
        FilterError,
    >) {
        self.compile(schema, model)
    }
}

impl IntoConditionTree for ScalarFilter {
    open spec fn compiled(self, schema: &Schema, model: ModelRef) -> Result<
        ConditionTree,
        FilterError,
    > {
        self.condition_tree(schema, model)
    }

    fn into_condition_tree(self, schema: &Schema, model: ModelRef) -> (tree: Result<
        ConditionTree,
        FilterError,
    >) {
        self.compile(schema, model)
    }
}

impl IntoConditionTree for ScalarListFilter {
    open spec fn compiled(self, schema: &Schema, model: ModelRef) -> Result<
        ConditionTree,
        FilterError,
    > {
        self.condition_tree(schema, model)
    }

    fn into_condition_tree(self, schema: &Schema, model: ModelRef) -> (tree: Result<
        ConditionTree,
        FilterError,
    >) {
        self.compile(schema, model)
    }
}

impl IntoConditionTree for OneRelationIsNullFilter {
    open spec fn compiled(self, schema: &Schema, model: ModelRef) -> Result<
        ConditionTree,
        FilterError,
    > {
        self.condition_tree(schema, model)
    }

    fn into_condition_tree(self, schema: &Schema, model: ModelRef) -> (tree: Result<
        ConditionTree,
        FilterError,
    >) {
        self.compile(schema, model)
    }
}

impl IntoConditionTree for RelationFilter {
    open spec fn compiled(self, schema: &Schema, model: ModelRef) -> Result<
        ConditionTree,
        FilterError,
    > {
        self.condition_tree(schema, model)
    }

    fn into_condition_tree(self, schema: &Schema, model: ModelRef) -> (tree: Result<
        ConditionTree,
        FilterError,
    >) {
        self.as_sub_select(schema, model)
    }
}

} // verus!
