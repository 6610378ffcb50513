//! The laws of conjunction, disjunction, negation and constant filters.

use crate::ast::{Compare, ConditionTree};
use crate::error::FilterError;
use crate::filter::Filter;
use crate::query_arguments::{combined, folded, joined};
use crate::schema::{ModelRef, Schema};
use vstd::prelude::*;

verus! {

/// Whether child `i` of a list compiles to a tree that holds under `leaf`.
pub open spec fn child_holds(
    filters: Seq<Box<Filter>>,
    i: int,
    leaf: spec_fn(Compare) -> bool,
    schema: &Schema,
    model: ModelRef,
) -> bool {
    filters[i].condition_tree(schema, model) matches Ok(tree) && tree.holds(leaf)
}

/// Whether child `i` of a list compiles.
pub open spec fn child_compiles(
    filters: Seq<Box<Filter>>,
    i: int,
    schema: &Schema,
    model: ModelRef,
) -> bool {
    filters[i].condition_tree(schema, model) is Ok
}

/// Whether child `i` of a list is where compilation of the list fails with
/// `error`.
pub open spec fn child_fails(
    filters: Seq<Box<Filter>>,
    i: int,
    error: FilterError,
    schema: &Schema,
    model: ModelRef,
) -> bool {
    filters[i].condition_tree(schema, model) matches Err(e) && error == e.below_child(i as usize)
}

/// A fold over the first `n` children succeeds exactly when each of them
/// compiles. Its tree then holds when the accumulator and every child's tree
/// hold (for a disjunction: when the accumulator or some child's tree
/// holds). A failed fold reports the error of one of the children, seen from
/// the list.
pub proof fn lemma_folded(
    filters: Seq<Box<Filter>>,
    n: nat,
    acc: ConditionTree,
    or: bool,
    schema: &Schema,
    model: ModelRef,
)
    requires
        n <= filters.len(),
    ensures
        match folded(filters, n, acc, or, schema, model) {
            Ok(tree) => {
                &&& forall|i: int| 0 <= i < n ==> #[trigger] child_compiles(filters, i, schema, model)
                &&& forall|leaf: spec_fn(Compare) -> bool|
                    #[trigger] tree.holds(leaf) == if or {
                        acc.holds(leaf) || exists|i: int|
                            0 <= i < n && #[trigger] child_holds(filters, i, leaf, schema, model)
                    } else {
                        acc.holds(leaf) && forall|i: int|
                            0 <= i < n ==> #[trigger] child_holds(filters, i, leaf, schema, model)
                    }
            },
            Err(error) => exists|i: int|
                0 <= i < n && #[trigger] child_fails(filters, i, error, schema, model),
        },
    decreases n,
{
    if n > 0 {
        match filters[n - 1].condition_tree(schema, model) {
            Err(e) => {
                assert(child_fails(filters, n - 1, e.below_child((n - 1) as usize), schema, model));
            },
            Ok(left) => {
                let next = joined(left, acc, or);
                lemma_folded(filters, (n - 1) as nat, next, or, schema, model);
                if let Ok(tree) = folded(filters, (n - 1) as nat, next, or, schema, model) {
                    assert forall|leaf: spec_fn(Compare) -> bool|
                        #[trigger] tree.holds(leaf) == if or {
                            acc.holds(leaf) || exists|i: int|
                                0 <= i < n && #[trigger] child_holds(filters, i, leaf, schema, model)
                        } else {
                            acc.holds(leaf) && forall|i: int|
                                0 <= i < n ==> #[trigger] child_holds(
                                    filters,
                                    i,
                                    leaf,
                                    schema,
                                    model,
                                )
                        } by {
                        assert(child_holds(filters, n - 1, leaf, schema, model) == left.holds(
                            leaf,
                        ));
                    }
                }
            },
        }
    }
}

/// A conjunction or disjunction succeeds exactly when each child compiles.
/// Its tree then holds when every child's tree holds (for a disjunction of
/// at least one child: when some child's tree holds). A failed one reports
/// the error of one of the children, seen from the list.
pub proof fn lemma_combined(
    filters: Seq<Box<Filter>>,
    or: bool,
    schema: &Schema,
    model: ModelRef,
)
    ensures
        match combined(filters, or, schema, model) {
            Ok(tree) => {
                &&& forall|i: int|
                    0 <= i < filters.len() ==> #[trigger] child_compiles(filters, i, schema, model)
                &&& forall|leaf: spec_fn(Compare) -> bool|
                    #[trigger] tree.holds(leaf) == if or && filters.len() > 0 {
                        exists|i: int|
                            0 <= i < filters.len() && #[trigger] child_holds(
                                filters,
                                i,
                                leaf,
                                schema,
                                model,
                            )
                    } else {
                        forall|i: int|
                            0 <= i < filters.len() ==> #[trigger] child_holds(
                                filters,
                                i,
                                leaf,
                                schema,
                                model,
                            )
                    }
            },
            Err(error) => exists|i: int|
                0 <= i < filters.len() && #[trigger] child_fails(filters, i, error, schema, model),
        },
{
    if filters.len() > 0 {
        let last = filters.len() - 1;
        match filters.last().condition_tree(schema, model) {
            Err(e) => {
                assert(child_fails(filters, last, e.below_child(last as usize), schema, model));
            },
            Ok(right) => {
                lemma_folded(filters, last as nat, right, or, schema, model);
                if let Ok(tree) = folded(filters, last as nat, right, or, schema, model) {
                    assert forall|leaf: spec_fn(Compare) -> bool|
                        #[trigger] tree.holds(leaf) == if or {
                            exists|i: int|
                                0 <= i < filters.len() && #[trigger] child_holds(
                                    filters,
                                    i,
                                    leaf,
                                    schema,
                                    model,
                                )
                        } else {
                            forall|i: int|
                                0 <= i < filters.len() ==> #[trigger] child_holds(
                                    filters,
                                    i,
                                    leaf,
                                    schema,
                                    model,
                                )
                        } by {
                        assert(child_holds(filters, last, leaf, schema, model) == right.holds(
                            leaf,
                        ));
                    }
                }
            },
        }
    }
}

/// A conjunction of one filter is that filter: it compiles to the same
/// tree, and fails with the same error, seen from the list. The same holds of
/// a disjunction of one filter.
pub proof fn law_singleton_is_identity(
    filters: Vec<Box<Filter>>,
    schema: &Schema,
    model: ModelRef,
)
    requires
        filters@.len() == 1,
    ensures
        Filter::And(filters).condition_tree(schema, model) == match filters@[0].condition_tree(
            schema,
            model,
        ) {
            Ok(tree) => Ok::<ConditionTree, FilterError>(tree),
            Err(e) => Err(e.below_child(0)),
        },
        Filter::Or(filters).condition_tree(schema, model) == Filter::And(filters).condition_tree(
            schema,
            model,
        ),
{
    reveal_with_fuel(Filter::condition_tree, 2);
    reveal_with_fuel(combined, 2);
    reveal_with_fuel(folded, 2);
}

/// The conjunction and the disjunction of no filter both compile to the
/// tautology.
pub proof fn law_empty_is_tautology(filters: Vec<Box<Filter>>, schema: &Schema, model: ModelRef)
    requires
        filters@.len() == 0,
    ensures
        Filter::And(filters).condition_tree(schema, model) == Ok::<ConditionTree, FilterError>(
            ConditionTree::NoCondition,
        ),
        Filter::Or(filters).condition_tree(schema, model) == Ok::<ConditionTree, FilterError>(
            ConditionTree::NoCondition,
        ),
{
}

/// `Not` compiles to the negation of what the conjunction of the same
/// children compiles to, and fails as that conjunction fails. Its tree holds
/// exactly when the conjunction's does not.
pub proof fn law_not_negates_conjunction(
    filters: Vec<Box<Filter>>,
    schema: &Schema,
    model: ModelRef,
)
    ensures
        Filter::Not(filters).condition_tree(schema, model) == match Filter::And(
            filters,
        ).condition_tree(schema, model) {
            Ok(tree) => Ok::<ConditionTree, FilterError>(ConditionTree::Not(Box::new(tree))),
            Err(e) => Err(e),
        },
        forall|leaf: spec_fn(Compare) -> bool|
            Filter::Not(filters).condition_tree(schema, model) is Ok ==> (
            #[trigger] Filter::Not(filters).condition_tree(schema, model)->Ok_0.holds(leaf))
                == !Filter::And(filters).condition_tree(schema, model)->Ok_0.holds(leaf),
{
}

/// The negation of a single filter compiles to a tree that holds exactly
/// when the filter's own tree does not.
pub proof fn law_not_is_negation(
    filters: Vec<Box<Filter>>,
    schema: &Schema,
    model: ModelRef,
    leaf: spec_fn(Compare) -> bool,
)
    requires
        filters@.len() == 1,
        filters@[0].condition_tree(schema, model) is Ok,
    ensures
        Filter::Not(filters).condition_tree(schema, model) matches Ok(negated) && negated.holds(
            leaf,
        ) == !filters@[0].condition_tree(schema, model)->Ok_0.holds(leaf),
{
    law_singleton_is_identity(filters, schema, model);
}

/// A conjunction with a constantly false conjunct, wherever it stands,
/// compiles to a tree that never holds.
pub proof fn law_false_conjunct_is_contradiction(
    filters: Vec<Box<Filter>>,
    at: int,
    schema: &Schema,
    model: ModelRef,
)
    requires
        0 <= at < filters@.len(),
        *filters@[at] == Filter::BoolFilter(false),
    ensures
        Filter::And(filters).condition_tree(schema, model) matches Ok(tree) ==> tree.equivalent(
            ConditionTree::NegativeCondition,
        ),
{
    lemma_combined(filters@, false, schema, model);
    if let Ok(tree) = Filter::And(filters).condition_tree(schema, model) {
        assert forall|leaf: spec_fn(Compare) -> bool| #[trigger]
            tree.holds(leaf) == ConditionTree::NegativeCondition.holds(leaf) by {
            if tree.holds(leaf) {
                assert(child_holds(filters@, at, leaf, schema, model));
            }
        }
    }
}

/// A disjunction with a constantly true disjunct, wherever it stands,
/// compiles to a tree that always holds.
pub proof fn law_true_disjunct_is_tautology(
    filters: Vec<Box<Filter>>,
    at: int,
    schema: &Schema,
    model: ModelRef,
)
    requires
        0 <= at < filters@.len(),
        *filters@[at] == Filter::BoolFilter(true),
    ensures
        Filter::Or(filters).condition_tree(schema, model) matches Ok(tree) ==> tree.equivalent(
            ConditionTree::NoCondition,
        ),
{
    lemma_combined(filters@, true, schema, model);
    if let Ok(tree) = Filter::Or(filters).condition_tree(schema, model) {
        assert forall|leaf: spec_fn(Compare) -> bool| #[trigger]
            tree.holds(leaf) == ConditionTree::NoCondition.holds(leaf) by {
            assert(child_holds(filters@, at, leaf, schema, model));
        }
    }
}

/// Whether two lists hold the same filters, in whatever order and number.
pub open spec fn same_filters(a: Seq<Box<Filter>>, b: Seq<Box<Filter>>) -> bool {
    &&& forall|i: int| 0 <= i < a.len() ==> b.contains(#[trigger] a[i])
    &&& forall|j: int| 0 <= j < b.len() ==> a.contains(#[trigger] b[j])
}

/// What holds of every child of one list holds of every child of a list of
/// the same filters, and what holds of some child of the one holds of some
/// child of the other.
proof fn lemma_same_filters(
    a: Seq<Box<Filter>>,
    b: Seq<Box<Filter>>,
    leaf: spec_fn(Compare) -> bool,
    schema: &Schema,
    model: ModelRef,
)
    requires
        same_filters(a, b),
    ensures
        (forall|i: int| 0 <= i < a.len() ==> #[trigger] child_compiles(a, i, schema, model))
            ==> forall|j: int| 0 <= j < b.len() ==> #[trigger] child_compiles(b, j, schema, model),
        (forall|i: int| 0 <= i < a.len() ==> #[trigger] child_holds(a, i, leaf, schema, model))
            ==> forall|j: int|
            0 <= j < b.len() ==> #[trigger] child_holds(b, j, leaf, schema, model),
        (exists|i: int| 0 <= i < a.len() && #[trigger] child_holds(a, i, leaf, schema, model))
            ==> exists|j: int|
            0 <= j < b.len() && #[trigger] child_holds(b, j, leaf, schema, model),
{
    if forall|i: int| 0 <= i < a.len() ==> #[trigger] child_compiles(a, i, schema, model) {
        assert forall|j: int| 0 <= j < b.len() implies #[trigger] child_compiles(
            b,
            j,
            schema,
            model,
        ) by {
            assert(a.contains(b[j]));
            let i = choose|i: int| 0 <= i < a.len() && a[i] == b[j];
            assert(child_compiles(a, i, schema, model));
        }
    }
    if forall|i: int| 0 <= i < a.len() ==> #[trigger] child_holds(a, i, leaf, schema, model) {
        assert forall|j: int| 0 <= j < b.len() implies #[trigger] child_holds(
            b,
            j,
            leaf,
            schema,
            model,
        ) by {
            assert(a.contains(b[j]));
            let i = choose|i: int| 0 <= i < a.len() && a[i] == b[j];
            assert(child_holds(a, i, leaf, schema, model));
        }
    }
    if exists|i: int| 0 <= i < a.len() && #[trigger] child_holds(a, i, leaf, schema, model) {
        let i = choose|i: int| 0 <= i < a.len() && #[trigger] child_holds(a, i, leaf, schema, model);
        assert(b.contains(a[i]));
        let j = choose|j: int| 0 <= j < b.len() && b[j] == a[i];
        assert(child_holds(b, j, leaf, schema, model));
    }
}

/// A list of filters fails to combine only where one of them fails to
/// compile.
proof fn lemma_failure_is_a_childs(
    filters: Seq<Box<Filter>>,
    or: bool,
    schema: &Schema,
    model: ModelRef,
)
    ensures
        combined(filters, or, schema, model) is Ok <==> forall|i: int|
            0 <= i < filters.len() ==> #[trigger] child_compiles(filters, i, schema, model),
{
    lemma_combined(filters, or, schema, model);
    if let Err(e) = combined(filters, or, schema, model) {
        let i = choose|i: int|
            0 <= i < filters.len() && #[trigger] child_fails(filters, i, e, schema, model);
        assert(!child_compiles(filters, i, schema, model));
    }
}

/// The order of the children does not matter to what a conjunction or a
/// disjunction means: combinators over the same filters both compile or both
/// fail, and their trees are equivalent.
pub proof fn law_order_is_irrelevant(
    a: Vec<Box<Filter>>,
    b: Vec<Box<Filter>>,
    schema: &Schema,
    model: ModelRef,
)
    requires
        same_filters(a@, b@),
    ensures
        Filter::And(a).condition_tree(schema, model) is Ok <==> Filter::And(b).condition_tree(
            schema,
            model,
        ) is Ok,
        Filter::Or(a).condition_tree(schema, model) is Ok <==> Filter::Or(b).condition_tree(
            schema,
            model,
        ) is Ok,
        Filter::And(a).condition_tree(schema, model) matches Ok(tree) ==> tree.equivalent(
            Filter::And(b).condition_tree(schema, model)->Ok_0,
        ),
        Filter::Or(a).condition_tree(schema, model) matches Ok(tree) ==> tree.equivalent(
            Filter::Or(b).condition_tree(schema, model)->Ok_0,
        ),
{
    let none: spec_fn(Compare) -> bool = |compare: Compare| false;
    lemma_same_filters(a@, b@, none, schema, model);
    lemma_same_filters(b@, a@, none, schema, model);
    lemma_failure_is_a_childs(a@, false, schema, model);
    lemma_failure_is_a_childs(b@, false, schema, model);
    lemma_failure_is_a_childs(a@, true, schema, model);
    lemma_failure_is_a_childs(b@, true, schema, model);
    lemma_combined(a@, false, schema, model);
    lemma_combined(b@, false, schema, model);
    lemma_combined(a@, true, schema, model);
    lemma_combined(b@, true, schema, model);
    assert(a@.len() > 0 <==> b@.len() > 0) by {
        if a@.len() > 0 {
            assert(b@.contains(a@[0]));
        }
        if b@.len() > 0 {
            assert(a@.contains(b@[0]));
        }
    }
    if let Ok(tree) = Filter::And(a).condition_tree(schema, model) {
        let other = Filter::And(b).condition_tree(schema, model)->Ok_0;
        assert forall|leaf: spec_fn(Compare) -> bool| #[trigger]
            tree.holds(leaf) == other.holds(leaf) by {
            lemma_same_filters(a@, b@, leaf, schema, model);
            lemma_same_filters(b@, a@, leaf, schema, model);
        }
    }
    if let Ok(tree) = Filter::Or(a).condition_tree(schema, model) {
        let other = Filter::Or(b).condition_tree(schema, model)->Ok_0;
        assert forall|leaf: spec_fn(Compare) -> bool| #[trigger]
            tree.holds(leaf) == other.holds(leaf) by {
            lemma_same_filters(a@, b@, leaf, schema, model);
            lemma_same_filters(b@, a@, leaf, schema, model);
        }
    }
}

} // verus!
