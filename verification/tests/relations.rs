use prisma_filter::ast::{Column, Compare, ConditionTree, Join, Select, Table};
use prisma_filter::error::{FilterError, FilterPath};
use prisma_filter::filter::{
    Filter, Membership, OneRelationIsNullFilter, RelationCondition, RelationFilter,
    ScalarCondition, ScalarFilter,
};
use prisma_filter::prisma_value::PrismaValue;
use prisma_filter::query_arguments::IntoConditionTree;
use prisma_filter::schema::{
    Model, Relation, RelationField, RelationSide, ScalarField, Schema, TypeIdentifier,
};
use std::sync::Arc;

const POST: usize = 0;
const COMMENT: usize = 1;

fn scalar(name: &str, typ: TypeIdentifier) -> Arc<ScalarField> {
    Arc::new(ScalarField {
        name: name.to_string(),
        db_name: name.to_string(),
        type_identifier: typ,
        is_list: false,
    })
}

fn relation_field(name: &str, relation: usize, side: RelationSide) -> Arc<RelationField> {
    Arc::new(RelationField { name: name.to_string(), relation, relation_side: side })
}

fn model(name: &str, scalars: Vec<Arc<ScalarField>>, relations: Vec<Arc<RelationField>>) -> Model {
    Model {
        name: name.to_string(),
        db_name: name.to_string(),
        id_column: "id".to_string(),
        scalar_fields: scalars,
        relation_fields: relations,
    }
}

fn relation(name: &str, model_a: usize, model_b: usize) -> Relation {
    Relation {
        name: name.to_string(),
        table_name: format!("_{}", name),
        column_a: "A".to_string(),
        column_b: "B".to_string(),
        model_a,
        model_b,
    }
}

fn schema() -> Schema {
    Schema {
        db_name: "db".to_string(),
        models: vec![
            model(
                "Post",
                vec![scalar("title", TypeIdentifier::String)],
                vec![relation_field("comments", 0, RelationSide::A)],
            ),
            model(
                "Comment",
                vec![scalar("approved", TypeIdentifier::Boolean)],
                vec![
                    relation_field("post", 0, RelationSide::B),
                    relation_field("likes", 1, RelationSide::A),
                ],
            ),
            model(
                "Like",
                vec![scalar("stars", TypeIdentifier::Int)],
                vec![relation_field("comment", 1, RelationSide::B)],
            ),
        ],
        relations: vec![relation("CommentToPost", 0, 1), relation("CommentToLike", 1, 2)],
    }
}

fn table(name: &str) -> Table {
    Table { database: "db".to_string(), name: name.to_string() }
}

fn column(table_name: &str, name: &str) -> Column {
    Column { table: table(table_name), name: name.to_string() }
}

fn approved() -> Filter {
    Filter::Scalar(ScalarFilter {
        field: scalar("approved", TypeIdentifier::Boolean),
        condition: ScalarCondition::Equals(PrismaValue::Boolean(true)),
    })
}

fn approved_tree() -> ConditionTree {
    ConditionTree::Single(Box::new(Compare::Equals(
        column("Comment", "approved"),
        PrismaValue::Boolean(true),
    )))
}

fn stars() -> Filter {
    Filter::Scalar(ScalarFilter {
        field: scalar("stars", TypeIdentifier::Int),
        condition: ScalarCondition::GreaterThan(PrismaValue::Int(3)),
    })
}

fn stars_tree() -> ConditionTree {
    ConditionTree::Single(Box::new(Compare::GreaterThan(
        column("Like", "stars"),
        PrismaValue::Int(3),
    )))
}

fn related(name: &str, condition: RelationCondition, nested: Filter) -> RelationFilter {
    RelationFilter {
        field: relation_field(name, 99, RelationSide::B),
        nested_filter: Box::new(nested),
        condition,
    }
}

fn comments(condition: RelationCondition, nested: Filter) -> Filter {
    Filter::Relation(related("comments", condition, nested))
}

fn comments_select(conditions: ConditionTree) -> Select {
    Select {
        table: table("_CommentToPost"),
        column: column("_CommentToPost", "A"),
        join: Some(Join {
            table: table("Comment"),
            left: column("Comment", "id"),
            right: column("_CommentToPost", "B"),
        }),
        conditions,
    }
}

fn not(tree: ConditionTree) -> ConditionTree {
    ConditionTree::Not(Box::new(tree))
}

fn is_in(column: Column, select: Select) -> ConditionTree {
    ConditionTree::Single(Box::new(Compare::InSelection(column, Box::new(select))))
}

fn not_in(column: Column, select: Select) -> ConditionTree {
    ConditionTree::Single(Box::new(Compare::NotInSelection(column, Box::new(select))))
}

fn joins(tree: &ConditionTree) -> usize {
    match tree {
        ConditionTree::And(l, r) | ConditionTree::Or(l, r) => joins(l) + joins(r),
        ConditionTree::Not(t) => joins(t),
        ConditionTree::Single(c) => match &**c {
            Compare::InSelection(_, s) | Compare::NotInSelection(_, s) => {
                (if s.join.is_some() { 1 } else { 0 }) + joins(&s.conditions)
            }
            _ => 0,
        },
        _ => 0,
    }
}

#[test]
fn the_schema_is_consistent() {
    assert!(schema().is_consistent());
}

#[test]
fn quantifiers_choose_inversion_and_operator() {
    let every = RelationCondition::EveryRelatedNode;
    let some = RelationCondition::AtLeastOneRelatedNode;
    let none = RelationCondition::NoRelatedNode;
    let one = RelationCondition::ToOneRelatedNode;
    assert!(every.invert_of_subselect());
    assert!(!some.invert_of_subselect());
    assert!(!none.invert_of_subselect());
    assert!(!one.invert_of_subselect());
    assert_eq!(every.membership(), Membership::NotIn);
    assert_eq!(none.membership(), Membership::NotIn);
    assert_eq!(some.membership(), Membership::In);
    assert_eq!(one.membership(), Membership::In);
}

#[test]
fn every_related_inverts_inside_and_tests_not_in() {
    let tree = comments(RelationCondition::EveryRelatedNode, approved())
        .into_condition_tree(&schema(), POST);
    assert_eq!(
        tree,
        Ok(not_in(column("_CommentToPost", "A"), comments_select(not(approved_tree()))))
    );
}

#[test]
fn no_related_tests_not_in_without_inversion() {
    let tree = comments(RelationCondition::NoRelatedNode, approved())
        .into_condition_tree(&schema(), POST);
    assert_eq!(tree, Ok(not_in(column("_CommentToPost", "A"), comments_select(approved_tree()))));
}

#[test]
fn at_least_one_related_tests_in() {
    let tree = comments(RelationCondition::AtLeastOneRelatedNode, approved())
        .into_condition_tree(&schema(), POST);
    assert_eq!(tree, Ok(is_in(column("_CommentToPost", "A"), comments_select(approved_tree()))));
}

#[test]
fn to_one_related_tests_in() {
    let tree = related("post", RelationCondition::ToOneRelatedNode, Filter::BoolFilter(true))
        .into_condition_tree(&schema(), COMMENT);
    let select = Select {
        table: table("_CommentToPost"),
        column: column("_CommentToPost", "B"),
        join: Some(Join {
            table: table("Post"),
            left: column("Post", "id"),
            right: column("_CommentToPost", "A"),
        }),
        conditions: ConditionTree::NoCondition,
    };
    assert_eq!(tree, Ok(is_in(column("_CommentToPost", "B"), select)));
}

#[test]
fn sub_select_and_membership_test_are_built_separately() {
    let select = related("comments", RelationCondition::EveryRelatedNode, approved())
        .relation_filter_sub_select(&schema(), POST);
    assert_eq!(select, Ok(comments_select(not(approved_tree()))));
    let tree = RelationFilter::in_statement_for_relation_condition(
        column("_CommentToPost", "A"),
        RelationCondition::NoRelatedNode,
        comments_select(approved_tree()),
    );
    assert_eq!(tree, not_in(column("_CommentToPost", "A"), comments_select(approved_tree())));
    let tree = related("comments", RelationCondition::AtLeastOneRelatedNode, approved())
        .as_sub_select(&schema(), POST);
    assert_eq!(tree, Ok(is_in(column("_CommentToPost", "A"), comments_select(approved_tree()))));
}

#[test]
fn chained_relations_join_only_at_the_end() {
    let filter = comments(
        RelationCondition::EveryRelatedNode,
        Filter::Relation(related("likes", RelationCondition::AtLeastOneRelatedNode, stars())),
    );
    let likes = Select {
        table: table("_CommentToLike"),
        column: column("_CommentToLike", "A"),
        join: Some(Join {
            table: table("Like"),
            left: column("Like", "id"),
            right: column("_CommentToLike", "B"),
        }),
        conditions: stars_tree(),
    };
    let inner = Select {
        table: table("_CommentToPost"),
        column: column("_CommentToPost", "A"),
        join: None,
        conditions: not(is_in(column("_CommentToPost", "B"), likes)),
    };
    let tree = filter.into_condition_tree(&schema(), POST).unwrap();
    assert_eq!(tree, not_in(column("_CommentToPost", "A"), inner));
    assert_eq!(joins(&tree), 1);
}

#[test]
fn joins_count_the_ends_of_chains() {
    let schema = schema();
    let chain = comments(
        RelationCondition::NoRelatedNode,
        Filter::Relation(related(
            "likes",
            RelationCondition::EveryRelatedNode,
            Filter::Relation(related("comment", RelationCondition::ToOneRelatedNode, approved())),
        )),
    );
    assert_eq!(joins(&chain.into_condition_tree(&schema, POST).unwrap()), 1);
    let two = Filter::And(vec![
        Box::new(comments(RelationCondition::NoRelatedNode, approved())),
        Box::new(comments(
            RelationCondition::EveryRelatedNode,
            Filter::Relation(related("likes", RelationCondition::NoRelatedNode, stars())),
        )),
        Box::new(Filter::BoolFilter(true)),
    ]);
    assert_eq!(joins(&two.into_condition_tree(&schema, POST).unwrap()), 2);
    let nested = comments(
        RelationCondition::AtLeastOneRelatedNode,
        Filter::Or(vec![
            Box::new(approved()),
            Box::new(Filter::Relation(related(
                "likes",
                RelationCondition::AtLeastOneRelatedNode,
                stars(),
            ))),
        ]),
    );
    assert_eq!(joins(&nested.into_condition_tree(&schema, POST).unwrap()), 2);
    assert_eq!(joins(&approved().into_condition_tree(&schema, COMMENT).unwrap()), 0);
}

#[test]
fn nested_filters_are_compiled_against_the_related_model() {
    let filter = comments(
        RelationCondition::AtLeastOneRelatedNode,
        Filter::Scalar(ScalarFilter {
            field: scalar("title", TypeIdentifier::String),
            condition: ScalarCondition::Equals(PrismaValue::Null),
        }),
    );
    assert_eq!(
        filter.into_condition_tree(&schema(), POST),
        Err(FilterError::UnknownField { name: "title".to_string() })
    );
}

#[test]
fn unknown_relation_field_is_reported() {
    let filter = Filter::Relation(related("authors", RelationCondition::NoRelatedNode, approved()));
    assert_eq!(
        filter.into_condition_tree(&schema(), POST),
        Err(FilterError::UnknownField { name: "authors".to_string() })
    );
    let chained = comments(
        RelationCondition::NoRelatedNode,
        Filter::Relation(related("authors", RelationCondition::NoRelatedNode, approved())),
    );
    assert_eq!(
        chained.into_condition_tree(&schema(), POST),
        Err(FilterError::UnknownField { name: "authors".to_string() })
    );
}

#[test]
fn unsupported_leaf_below_relations_is_reported_with_its_path() {
    let filter = comments(
        RelationCondition::NoRelatedNode,
        Filter::Relation(related(
            "likes",
            RelationCondition::NoRelatedNode,
            Filter::And(vec![Box::new(Filter::NodeSubscription)]),
        )),
    );
    let path = FilterPath::Nested(Box::new(FilterPath::Nested(Box::new(FilterPath::Child(
        0,
        Box::new(FilterPath::Here),
    )))));
    assert_eq!(
        filter.into_condition_tree(&schema(), POST),
        Err(FilterError::UnsupportedFilter { path })
    );
}

#[test]
fn relation_is_null_checks_the_column_of_the_field() {
    let filter = Filter::OneRelationIsNull(OneRelationIsNullFilter {
        field: relation_field("post", 0, RelationSide::B),
    });
    assert_eq!(
        filter.into_condition_tree(&schema(), COMMENT),
        Ok(ConditionTree::Single(Box::new(Compare::Null(column("Comment", "post")))))
    );
    let filter = OneRelationIsNullFilter { field: relation_field("post", 0, RelationSide::B) };
    assert_eq!(
        filter.into_condition_tree(&schema(), POST),
        Err(FilterError::UnknownField { name: "post".to_string() })
    );
}

// A small interpreter of condition trees over rows held in memory.

type Row = Vec<(Column, PrismaValue)>;

struct Rows {
    tables: Vec<(Table, Vec<Row>)>,
}

fn cell(row: &Row, column: &Column) -> PrismaValue {
    row.iter().find(|(c, _)| c == column).map(|(_, v)| v.clone()).unwrap_or(PrismaValue::Null)
}

fn rows_of<'a>(db: &'a Rows, table: &Table) -> &'a [Row] {
    db.tables.iter().find(|(t, _)| t == table).map(|(_, rows)| rows.as_slice()).unwrap_or(&[])
}

fn results(select: &Select, db: &Rows) -> Vec<PrismaValue> {
    let mut out = vec![];
    for base in rows_of(db, &select.table) {
        let mut read: Vec<Row> = vec![];
        match &select.join {
            None => read.push(base.clone()),
            Some(join) => {
                for joined in rows_of(db, &join.table) {
                    if cell(joined, &join.left) == cell(base, &join.right) {
                        let mut both = joined.clone();
                        both.extend(base.iter().filter(|(c, _)| c.table != join.table).cloned());
                        read.push(both);
                    }
                }
            }
        }
        for row in read {
            if satisfied(&select.conditions, db, &row) {
                out.push(cell(&row, &select.column));
            }
        }
    }
    out
}

fn satisfied(tree: &ConditionTree, db: &Rows, row: &Row) -> bool {
    match tree {
        ConditionTree::And(l, r) => satisfied(l, db, row) && satisfied(r, db, row),
        ConditionTree::Or(l, r) => satisfied(l, db, row) || satisfied(r, db, row),
        ConditionTree::Not(t) => !satisfied(t, db, row),
        ConditionTree::NoCondition => true,
        ConditionTree::NegativeCondition => false,
        ConditionTree::Single(compare) => match &**compare {
            Compare::Equals(c, v) => cell(row, c) == *v,
            Compare::NotEquals(c, v) => cell(row, c) != *v,
            Compare::Null(c) => cell(row, c) == PrismaValue::Null,
            Compare::NotNull(c) => cell(row, c) != PrismaValue::Null,
            Compare::InSelection(c, s) => results(s, db).contains(&cell(row, c)),
            Compare::NotInSelection(c, s) => !results(s, db).contains(&cell(row, c)),
            other => panic!("not interpreted: {:?}", other),
        },
    }
}

// A post as the outer query reads it: its own columns, and its key in the
// join column of its end of the relation.
fn post(id: usize) -> Row {
    vec![
        (column("Post", "id"), PrismaValue::Relation(id)),
        (column("_CommentToPost", "A"), PrismaValue::Relation(id)),
    ]
}

fn fixture(approvals: &[(usize, &[bool])]) -> (Rows, Vec<Row>) {
    let mut posts = vec![];
    let mut comments = vec![];
    let mut links = vec![];
    let mut next = 100;
    for (id, flags) in approvals {
        posts.push(post(*id));
        for flag in flags.iter() {
            comments.push(vec![
                (column("Comment", "id"), PrismaValue::Relation(next)),
                (column("Comment", "approved"), PrismaValue::Boolean(*flag)),
            ]);
            links.push(vec![
                (column("_CommentToPost", "A"), PrismaValue::Relation(*id)),
                (column("_CommentToPost", "B"), PrismaValue::Relation(next)),
            ]);
            next += 1;
        }
    }
    let db = Rows {
        tables: vec![
            (table("Post"), posts.clone()),
            (table("Comment"), comments),
            (table("_CommentToPost"), links),
        ],
    };
    (db, posts)
}

fn truth(condition: RelationCondition, approvals: &[bool]) -> bool {
    let others: &[bool] = &[true, false];
    let (db, posts) = fixture(&[(1, approvals), (2, others)]);
    let tree = comments(condition, approved()).into_condition_tree(&schema(), POST).unwrap();
    satisfied(&tree, &db, &posts[0])
}

#[test]
fn every_related_over_the_example_posts() {
    assert!(truth(RelationCondition::EveryRelatedNode, &[true, true]));
    assert!(!truth(RelationCondition::EveryRelatedNode, &[true, false]));
    assert!(truth(RelationCondition::EveryRelatedNode, &[]));
}

#[test]
fn quantifiers_over_no_related_row() {
    assert!(truth(RelationCondition::EveryRelatedNode, &[]));
    assert!(truth(RelationCondition::NoRelatedNode, &[]));
    assert!(!truth(RelationCondition::AtLeastOneRelatedNode, &[]));
    assert!(!truth(RelationCondition::ToOneRelatedNode, &[]));
}

#[test]
fn quantifiers_over_one_related_row() {
    assert!(truth(RelationCondition::EveryRelatedNode, &[true]));
    assert!(!truth(RelationCondition::EveryRelatedNode, &[false]));
    assert!(!truth(RelationCondition::NoRelatedNode, &[true]));
    assert!(truth(RelationCondition::NoRelatedNode, &[false]));
    assert!(truth(RelationCondition::AtLeastOneRelatedNode, &[true]));
    assert!(!truth(RelationCondition::AtLeastOneRelatedNode, &[false]));
    assert!(truth(RelationCondition::ToOneRelatedNode, &[true]));
    assert!(!truth(RelationCondition::ToOneRelatedNode, &[false]));
}

#[test]
fn quantifiers_over_several_related_rows() {
    let all: &[bool] = &[true, true, true];
    let mixed: &[bool] = &[false, true, false];
    let none: &[bool] = &[false, false, false];
    assert!(truth(RelationCondition::EveryRelatedNode, all));
    assert!(!truth(RelationCondition::EveryRelatedNode, mixed));
    assert!(!truth(RelationCondition::EveryRelatedNode, none));
    assert!(!truth(RelationCondition::NoRelatedNode, all));
    assert!(!truth(RelationCondition::NoRelatedNode, mixed));
    assert!(truth(RelationCondition::NoRelatedNode, none));
    assert!(truth(RelationCondition::AtLeastOneRelatedNode, all));
    assert!(truth(RelationCondition::AtLeastOneRelatedNode, mixed));
    assert!(!truth(RelationCondition::AtLeastOneRelatedNode, none));
    assert!(truth(RelationCondition::ToOneRelatedNode, mixed));
    assert!(!truth(RelationCondition::ToOneRelatedNode, none));
}

#[test]
fn negation_of_a_terminal_filter_over_sample_rows() {
    let schema = schema();
    let plain = approved().into_condition_tree(&schema, COMMENT).unwrap();
    let negated = Filter::Not(vec![Box::new(approved())]).into_condition_tree(&schema, COMMENT).unwrap();
    let db = Rows { tables: vec![] };
    for value in [PrismaValue::Boolean(true), PrismaValue::Boolean(false), PrismaValue::Null] {
        let row = vec![(column("Comment", "approved"), value)];
        assert_eq!(satisfied(&negated, &db, &row), !satisfied(&plain, &db, &row));
    }
}

#[test]
fn quantifier_plans() {
    assert_eq!(RelationCondition::EveryRelatedNode.plan(), (true, Membership::NotIn));
    assert_eq!(RelationCondition::NoRelatedNode.plan(), (false, Membership::NotIn));
    assert_eq!(RelationCondition::AtLeastOneRelatedNode.plan(), (false, Membership::In));
    assert_eq!(RelationCondition::ToOneRelatedNode.plan(), (false, Membership::In));
}
