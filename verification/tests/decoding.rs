use prisma_filter::ast::{Column, Compare, ConditionTree, Join, Select, Table};
use prisma_filter::error::{FilterError, FilterPath};
use prisma_filter::filter::{
    Filter, OneRelationIsNullFilter, RelationCondition, RelationFilter, ScalarCondition,
    ScalarFilter, ScalarListCondition, ScalarListFilter,
};
use prisma_filter::prisma_value::{GraphqlId, PrismaValue};
use prisma_filter::protobuf::compile;
use prisma_filter::protobuf::filter::IntoFilter;
use prisma_filter::protobuf::prisma as pb;
use prisma_filter::schema::{
    Model, Relation, RelationField, RelationSide, ScalarField, Schema, TypeIdentifier,
};
use std::sync::Arc;

fn scalar(name: &str, is_list: bool) -> Arc<ScalarField> {
    Arc::new(ScalarField {
        name: name.to_string(),
        db_name: format!("{}_column", name),
        type_identifier: TypeIdentifier::String,
        is_list,
    })
}

fn relation_field(name: &str, side: RelationSide) -> Arc<RelationField> {
    Arc::new(RelationField { name: name.to_string(), relation: 0, relation_side: side })
}

fn schema() -> Schema {
    Schema {
        db_name: "db".to_string(),
        models: vec![
            Model {
                name: "Post".to_string(),
                db_name: "Post".to_string(),
                id_column: "id".to_string(),
                scalar_fields: vec![scalar("title", false), scalar("tags", true)],
                relation_fields: vec![relation_field("comments", RelationSide::A)],
            },
            Model {
                name: "Comment".to_string(),
                db_name: "Comment".to_string(),
                id_column: "id".to_string(),
                scalar_fields: vec![scalar("text", false)],
                relation_fields: vec![relation_field("post", RelationSide::B)],
            },
        ],
        relations: vec![Relation {
            name: "CommentToPost".to_string(),
            table_name: "_CommentToPost".to_string(),
            column_a: "A".to_string(),
            column_b: "B".to_string(),
            model_a: 0,
            model_b: 1,
        }],
    }
}

fn message(kind: pb::FilterType) -> pb::Filter {
    pb::Filter { type_: Some(kind) }
}

fn holding(value: pb::Value) -> pb::ValueContainer {
    pb::ValueContainer { prisma_value: Some(value) }
}

fn empty() -> pb::ValueContainer {
    pb::ValueContainer { prisma_value: None }
}

fn text(s: &str) -> pb::ValueContainer {
    holding(pb::Value::String(s.to_string()))
}

fn on_scalar(field: &str, condition: Option<pb::ScalarCondition>) -> pb::Filter {
    message(pb::FilterType::Scalar(pb::ScalarFilter { field: field.to_string(), condition }))
}

fn on_relation(field: &str, condition: pb::RelationCondition, nested: pb::Filter) -> pb::Filter {
    message(pb::FilterType::Relation(Box::new(pb::RelationFilter {
        field: pb::RelationalField { field: field.to_string() },
        nested_filter: Box::new(nested),
        condition,
    })))
}

fn title_equals(s: &str) -> Filter {
    Filter::Scalar(ScalarFilter {
        field: scalar("title", false),
        condition: ScalarCondition::Equals(PrismaValue::String(s.to_string())),
    })
}

fn malformed<T>() -> Result<T, FilterError> {
    Err(FilterError::MalformedCondition)
}

#[test]
fn values_decode_variant_by_variant() {
    let decoded = |v: pb::Value| holding(v).to_prisma_value();
    assert_eq!(decoded(pb::Value::String("a".to_string())), Ok(PrismaValue::String("a".to_string())));
    assert_eq!(decoded(pb::Value::Float(0x4049_0fdb)), Ok(PrismaValue::Float(0x4049_0fdb)));
    assert_eq!(decoded(pb::Value::Boolean(true)), Ok(PrismaValue::Boolean(true)));
    assert_eq!(decoded(pb::Value::DateTime("d".to_string())), Ok(PrismaValue::DateTime("d".to_string())));
    assert_eq!(decoded(pb::Value::Enum("e".to_string())), Ok(PrismaValue::Enum("e".to_string())));
    assert_eq!(decoded(pb::Value::Json("j".to_string())), Ok(PrismaValue::Json("j".to_string())));
    assert_eq!(decoded(pb::Value::Int(-5)), Ok(PrismaValue::Int(-5)));
    assert_eq!(decoded(pb::Value::Relation(12)), Ok(PrismaValue::Relation(12)));
    assert_eq!(decoded(pb::Value::Null(true)), Ok(PrismaValue::Null));
    assert_eq!(decoded(pb::Value::Null(false)), Ok(PrismaValue::Null));
    assert_eq!(decoded(pb::Value::Uuid("u".to_string())), Ok(PrismaValue::Uuid("u".to_string())));
    assert_eq!(
        decoded(pb::Value::GraphqlId(pb::GraphqlId {
            id_value: Some(pb::IdValue::String("id".to_string()))
        })),
        Ok(PrismaValue::GraphqlId(GraphqlId::String("id".to_string())))
    );
    assert_eq!(
        decoded(pb::Value::GraphqlId(pb::GraphqlId { id_value: Some(pb::IdValue::Int(0)) })),
        Ok(PrismaValue::GraphqlId(GraphqlId::Int(0)))
    );
}

#[test]
fn missing_and_unrepresentable_values_are_malformed() {
    assert_eq!(empty().to_prisma_value(), malformed());
    assert_eq!(holding(pb::Value::Relation(-1)).to_prisma_value(), malformed());
    assert_eq!(holding(pb::Value::Relation(i64::MIN)).to_prisma_value(), malformed());
    assert_eq!(
        holding(pb::Value::GraphqlId(pb::GraphqlId { id_value: None })).to_prisma_value(),
        malformed()
    );
    assert_eq!(
        holding(pb::Value::GraphqlId(pb::GraphqlId { id_value: Some(pb::IdValue::Int(-3)) }))
            .to_prisma_value(),
        malformed()
    );
    assert_eq!(pb::GraphqlId { id_value: None }.to_graphql_id(), malformed());
    assert_eq!(
        pb::GraphqlId { id_value: Some(pb::IdValue::Int(i64::MAX)) }.to_graphql_id(),
        Ok(GraphqlId::Int(i64::MAX as usize))
    );
}

#[test]
fn value_lists_decode_in_order() {
    let list = pb::MultiContainer {
        values: vec![text("b"), holding(pb::Value::Null(true)), text("a")],
    };
    assert_eq!(
        list.to_prisma_values(),
        Ok(vec![
            PrismaValue::String("b".to_string()),
            PrismaValue::Null,
            PrismaValue::String("a".to_string())
        ])
    );
    assert_eq!(pb::MultiContainer { values: vec![] }.to_prisma_values(), Ok(vec![]));
    let broken = pb::MultiContainer { values: vec![text("b"), empty()] };
    assert_eq!(broken.to_prisma_values(), malformed());
}

#[test]
fn scalar_conditions_decode_kind_by_kind() {
    let v = || PrismaValue::String("x".to_string());
    let cases = vec![
        (pb::ScalarCondition::Equals(text("x")), ScalarCondition::Equals(v())),
        (pb::ScalarCondition::NotEquals(text("x")), ScalarCondition::NotEquals(v())),
        (pb::ScalarCondition::Contains(text("x")), ScalarCondition::Contains(v())),
        (pb::ScalarCondition::NotContains(text("x")), ScalarCondition::NotContains(v())),
        (pb::ScalarCondition::StartsWith(text("x")), ScalarCondition::StartsWith(v())),
        (pb::ScalarCondition::NotStartsWith(text("x")), ScalarCondition::NotStartsWith(v())),
        (pb::ScalarCondition::EndsWith(text("x")), ScalarCondition::EndsWith(v())),
        (pb::ScalarCondition::NotEndsWith(text("x")), ScalarCondition::NotEndsWith(v())),
        (pb::ScalarCondition::LessThan(text("x")), ScalarCondition::LessThan(v())),
        (pb::ScalarCondition::LessThanOrEquals(text("x")), ScalarCondition::LessThanOrEquals(v())),
        (pb::ScalarCondition::GreaterThan(text("x")), ScalarCondition::GreaterThan(v())),
        (
            pb::ScalarCondition::GreaterThanOrEquals(text("x")),
            ScalarCondition::GreaterThanOrEquals(v()),
        ),
        (
            pb::ScalarCondition::In(pb::MultiContainer { values: vec![text("x"), text("x")] }),
            ScalarCondition::In(vec![v(), v()]),
        ),
        (
            pb::ScalarCondition::NotIn(pb::MultiContainer { values: vec![text("x")] }),
            ScalarCondition::NotIn(vec![v()]),
        ),
    ];
    for (wire, expected) in cases {
        assert_eq!(wire.to_scalar_condition(), Ok(expected));
    }
    assert_eq!(pb::ScalarCondition::LessThan(empty()).to_scalar_condition(), malformed());
    assert_eq!(
        pb::ScalarCondition::In(pb::MultiContainer { values: vec![empty()] }).to_scalar_condition(),
        malformed()
    );
}

#[test]
fn list_conditions_decode_kind_by_kind() {
    let v = || PrismaValue::String("x".to_string());
    assert_eq!(
        pb::ScalarListCondition::Contains(text("x")).to_scalar_list_condition(),
        Ok(ScalarListCondition::Contains(v()))
    );
    assert_eq!(
        pb::ScalarListCondition::ContainsEvery(pb::MultiContainer { values: vec![text("x")] })
            .to_scalar_list_condition(),
        Ok(ScalarListCondition::ContainsEvery(vec![v()]))
    );
    assert_eq!(
        pb::ScalarListCondition::ContainsSome(pb::MultiContainer { values: vec![] })
            .to_scalar_list_condition(),
        Ok(ScalarListCondition::ContainsSome(vec![]))
    );
    assert_eq!(pb::ScalarListCondition::Contains(empty()).to_scalar_list_condition(), malformed());
}

#[test]
fn quantifiers_decode() {
    assert_eq!(
        pb::RelationCondition::EveryRelatedNode.to_relation_condition(),
        RelationCondition::EveryRelatedNode
    );
    assert_eq!(
        pb::RelationCondition::AtLeastOneRelatedNode.to_relation_condition(),
        RelationCondition::AtLeastOneRelatedNode
    );
    assert_eq!(
        pb::RelationCondition::NoRelatedNode.to_relation_condition(),
        RelationCondition::NoRelatedNode
    );
    assert_eq!(
        pb::RelationCondition::ToOneRelatedNode.to_relation_condition(),
        RelationCondition::ToOneRelatedNode
    );
}

#[test]
fn scalar_filters_resolve_their_field() {
    let schema = schema();
    let filter = on_scalar("title", Some(pb::ScalarCondition::Equals(text("a"))))
        .into_filter(&schema, 0)
        .unwrap();
    assert_eq!(filter, title_equals("a"));
    match filter {
        Filter::Scalar(scalar) => assert!(Arc::ptr_eq(&scalar.field, &schema.models[0].scalar_fields[0])),
        other => panic!("{:?}", other),
    }
    let wire = pb::ScalarFilter {
        field: "tags".to_string(),
        condition: Some(pb::ScalarCondition::Equals(text("a"))),
    };
    assert_eq!(
        wire.to_filter(&schema, 0),
        Ok(ScalarFilter {
            field: scalar("tags", true),
            condition: ScalarCondition::Equals(PrismaValue::String("a".to_string()))
        })
    );
}

#[test]
fn list_filters_resolve_their_field() {
    let wire = message(pb::FilterType::ScalarList(pb::ScalarListFilter {
        field: "tags".to_string(),
        condition: Some(pb::ScalarListCondition::Contains(text("a"))),
    }));
    assert_eq!(
        wire.into_filter(&schema(), 0),
        Ok(Filter::ScalarList(ScalarListFilter {
            field: scalar("tags", true),
            condition: ScalarListCondition::Contains(PrismaValue::String("a".to_string()))
        }))
    );
    let wire = message(pb::FilterType::ScalarList(pb::ScalarListFilter {
        field: "labels".to_string(),
        condition: None,
    }));
    assert_eq!(
        wire.into_filter(&schema(), 0),
        Err(FilterError::UnknownField { name: "labels".to_string() })
    );
    let wire = pb::ScalarListFilter { field: "tags".to_string(), condition: None };
    assert_eq!(wire.to_filter(&schema(), 0), malformed());
}

#[test]
fn combinators_decode_their_children_in_order() {
    let children = || {
        vec![
            on_scalar("title", Some(pb::ScalarCondition::Equals(text("a")))),
            message(pb::FilterType::BoolFilter(false)),
            message(pb::FilterType::NodeSubscription(true)),
        ]
    };
    let expected = || {
        vec![
            Box::new(title_equals("a")),
            Box::new(Filter::BoolFilter(false)),
            Box::new(Filter::NodeSubscription),
        ]
    };
    let schema = schema();
    assert_eq!(
        message(pb::FilterType::And(pb::AndFilter { filters: children() })).into_filter(&schema, 0),
        Ok(Filter::And(expected()))
    );
    assert_eq!(
        message(pb::FilterType::Or(pb::OrFilter { filters: children() })).into_filter(&schema, 0),
        Ok(Filter::Or(expected()))
    );
    assert_eq!(
        message(pb::FilterType::Not(pb::NotFilter { filters: children() })).into_filter(&schema, 0),
        Ok(Filter::Not(expected()))
    );
    assert_eq!(
        message(pb::FilterType::And(pb::AndFilter { filters: vec![] })).into_filter(&schema, 0),
        Ok(Filter::And(vec![]))
    );
}

#[test]
fn relation_filters_decode_against_the_related_model() {
    let wire = on_relation(
        "comments",
        pb::RelationCondition::EveryRelatedNode,
        on_scalar("text", Some(pb::ScalarCondition::Contains(text("a")))),
    );
    assert_eq!(
        wire.into_filter(&schema(), 0),
        Ok(Filter::Relation(RelationFilter {
            field: relation_field("comments", RelationSide::A),
            nested_filter: Box::new(Filter::Scalar(ScalarFilter {
                field: scalar("text", false),
                condition: ScalarCondition::Contains(PrismaValue::String("a".to_string()))
            })),
            condition: RelationCondition::EveryRelatedNode,
        }))
    );
    let wrong_scope = on_relation(
        "comments",
        pb::RelationCondition::EveryRelatedNode,
        on_scalar("title", Some(pb::ScalarCondition::Contains(text("a")))),
    );
    assert_eq!(
        wrong_scope.into_filter(&schema(), 0),
        Err(FilterError::UnknownField { name: "title".to_string() })
    );
}

#[test]
fn relation_is_null_resolves_its_field() {
    let wire = || {
        message(pb::FilterType::OneRelationIsNull(pb::RelationalField {
            field: "post".to_string(),
        }))
    };
    assert_eq!(
        wire().into_filter(&schema(), 1),
        Ok(Filter::OneRelationIsNull(OneRelationIsNullFilter {
            field: relation_field("post", RelationSide::B)
        }))
    );
    assert_eq!(
        wire().into_filter(&schema(), 0),
        Err(FilterError::UnknownField { name: "post".to_string() })
    );
}

#[test]
fn unknown_names_are_reported_in_every_position() {
    let schema = schema();
    let unknown = || on_scalar("body", Some(pb::ScalarCondition::Equals(text("a"))));
    let expected = || Err(FilterError::UnknownField { name: "body".to_string() });
    assert_eq!(unknown().into_filter(&schema, 0), expected());
    assert_eq!(
        message(pb::FilterType::Not(pb::NotFilter {
            filters: vec![message(pb::FilterType::BoolFilter(true)), unknown()]
        }))
        .into_filter(&schema, 0),
        expected()
    );
    assert_eq!(
        on_relation("comments", pb::RelationCondition::NoRelatedNode, unknown())
            .into_filter(&schema, 0),
        expected()
    );
    assert_eq!(
        on_relation("body", pb::RelationCondition::NoRelatedNode, message(pb::FilterType::BoolFilter(true)))
            .into_filter(&schema, 0),
        expected()
    );
    assert_eq!(
        compile(unknown(), &schema, 0),
        Err(FilterError::UnknownField { name: "body".to_string() })
    );
}

#[test]
fn messages_without_mandatory_parts_are_malformed() {
    let schema = schema();
    assert_eq!(pb::Filter { type_: None }.into_filter(&schema, 0), malformed());
    assert_eq!(on_scalar("title", None).into_filter(&schema, 0), malformed());
    assert_eq!(
        on_scalar("title", Some(pb::ScalarCondition::Equals(empty()))).into_filter(&schema, 0),
        malformed()
    );
    assert_eq!(
        on_relation("comments", pb::RelationCondition::NoRelatedNode, pb::Filter { type_: None })
            .into_filter(&schema, 0),
        malformed()
    );
    assert_eq!(compile(on_scalar("title", None), &schema, 0), malformed());
}

#[test]
fn the_name_is_looked_at_before_the_condition() {
    assert_eq!(
        on_scalar("body", None).into_filter(&schema(), 0),
        Err(FilterError::UnknownField { name: "body".to_string() })
    );
}

#[test]
fn the_first_failing_child_is_reported() {
    let wire = message(pb::FilterType::And(pb::AndFilter {
        filters: vec![
            on_scalar("title", None),
            on_scalar("body", Some(pb::ScalarCondition::Equals(text("a")))),
        ],
    }));
    assert_eq!(wire.into_filter(&schema(), 0), malformed());
}

#[test]
fn messages_compile_in_one_step() {
    let schema = schema();
    let wire = on_relation(
        "comments",
        pb::RelationCondition::AtLeastOneRelatedNode,
        on_scalar(
            "text",
            Some(pb::ScalarCondition::In(pb::MultiContainer {
                values: vec![holding(pb::Value::Null(true))],
            })),
        ),
    );
    let table = |name: &str| Table { database: "db".to_string(), name: name.to_string() };
    let column = |t: &str, name: &str| Column { table: table(t), name: name.to_string() };
    let select = Select {
        table: table("_CommentToPost"),
        column: column("_CommentToPost", "A"),
        join: Some(Join {
            table: table("Comment"),
            left: column("Comment", "id"),
            right: column("_CommentToPost", "B"),
        }),
        conditions: ConditionTree::Single(Box::new(Compare::Null(column("Comment", "text_column")))),
    };
    assert_eq!(
        compile(wire, &schema, 0),
        Ok(ConditionTree::Single(Box::new(Compare::InSelection(
            column("_CommentToPost", "A"),
            Box::new(select)
        ))))
    );
}

#[test]
fn subscription_markers_decode_but_do_not_compile() {
    let schema = schema();
    assert_eq!(
        message(pb::FilterType::NodeSubscription(false)).into_filter(&schema, 0),
        Ok(Filter::NodeSubscription)
    );
    let wire = message(pb::FilterType::Or(pb::OrFilter {
        filters: vec![message(pb::FilterType::NodeSubscription(true))],
    }));
    assert_eq!(
        compile(wire, &schema, 0),
        Err(FilterError::UnsupportedFilter {
            path: FilterPath::Child(0, Box::new(FilterPath::Here))
        })
    );
}

#[test]
fn an_unknown_name_at_any_depth_fails_the_whole_message() {
    let schema = schema();
    let fine = || on_scalar("title", Some(pb::ScalarCondition::Equals(text("a"))));
    let fine_comment = || on_scalar("text", Some(pb::ScalarCondition::Equals(text("a"))));
    let unknown = || on_scalar("body", Some(pb::ScalarCondition::Equals(text("a"))));
    let and = |filters| message(pb::FilterType::And(pb::AndFilter { filters }));
    let or = |filters| message(pb::FilterType::Or(pb::OrFilter { filters }));
    let not = |filters| message(pb::FilterType::Not(pb::NotFilter { filters }));
    let expected = || Err(FilterError::UnknownField { name: "body".to_string() });
    let deep = and(vec![fine(), or(vec![fine(), not(vec![fine(), and(vec![unknown()])])]), fine()]);
    assert_eq!(deep.into_filter(&schema, 0), expected());
    let below_relations = and(vec![
        fine(),
        on_relation(
            "comments",
            pb::RelationCondition::EveryRelatedNode,
            or(vec![
                fine_comment(),
                on_relation(
                    "post",
                    pb::RelationCondition::ToOneRelatedNode,
                    not(vec![fine(), unknown()]),
                ),
            ]),
        ),
    ]);
    assert_eq!(below_relations.into_filter(&schema, 0), expected());
    let deep = and(vec![fine(), or(vec![fine(), not(vec![and(vec![unknown()])])])]);
    assert_eq!(compile(deep, &schema, 0), Err(FilterError::UnknownField { name: "body".to_string() }));
    let resolved = and(vec![fine(), or(vec![fine(), not(vec![fine(), and(vec![fine()])])]), fine()]);
    assert!(resolved.into_filter(&schema, 0).is_ok());
}
