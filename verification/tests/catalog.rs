use prisma_filter::ast::{Column, Table};
use prisma_filter::error::FilterError;
use prisma_filter::schema::{
    Model, Relation, RelationField, RelationSide, ScalarField, Schema, TypeIdentifier,
};
use std::sync::Arc;

fn scalar(name: &str, db_name: &str) -> Arc<ScalarField> {
    Arc::new(ScalarField {
        name: name.to_string(),
        db_name: db_name.to_string(),
        type_identifier: TypeIdentifier::String,
        is_list: false,
    })
}

fn relation_field(name: &str, relation: usize, side: RelationSide) -> Arc<RelationField> {
    Arc::new(RelationField { name: name.to_string(), relation, relation_side: side })
}

fn schema() -> Schema {
    Schema {
        db_name: "blog".to_string(),
        models: vec![
            Model {
                name: "Post".to_string(),
                db_name: "posts".to_string(),
                id_column: "post_id".to_string(),
                scalar_fields: vec![scalar("title", "t1"), scalar("body", "b"), scalar("title", "t2")],
                relation_fields: vec![
                    relation_field("author", 0, RelationSide::B),
                    relation_field("author", 0, RelationSide::A),
                ],
            },
            Model {
                name: "User".to_string(),
                db_name: "users".to_string(),
                id_column: "id".to_string(),
                scalar_fields: vec![],
                relation_fields: vec![relation_field("posts", 0, RelationSide::A)],
            },
        ],
        relations: vec![Relation {
            name: "Authorship".to_string(),
            table_name: "_Authorship".to_string(),
            column_a: "user".to_string(),
            column_b: "post".to_string(),
            model_a: 1,
            model_b: 0,
        }],
    }
}

fn name(s: &str) -> String {
    s.to_string()
}

#[test]
fn scalar_fields_are_found_by_name() {
    let schema = schema();
    let post = &schema.models[0];
    assert_eq!(post.find_scalar(&name("body")), Some(&scalar("body", "b")));
    assert_eq!(post.find_scalar(&name("Body")), None);
    assert_eq!(post.find_scalar(&name("")), None);
    assert_eq!(schema.models[1].find_scalar(&name("body")), None);
}

#[test]
fn the_first_field_of_a_name_wins() {
    let schema = schema();
    let post = &schema.models[0];
    assert_eq!(post.find_scalar(&name("title")), Some(&scalar("title", "t1")));
    assert_eq!(
        post.find_relation(&name("author")),
        Some(&relation_field("author", 0, RelationSide::B))
    );
}

#[test]
fn lookups_hand_out_the_entry_of_the_catalog() {
    let schema = schema();
    let post = &schema.models[0];
    let found = post.find_from_scalar(&name("body")).unwrap();
    assert!(Arc::ptr_eq(&found, &post.scalar_fields[1]));
    assert_eq!(*found, ScalarField {
        name: name("body"),
        db_name: name("b"),
        type_identifier: TypeIdentifier::String,
        is_list: false,
    });
    let found = schema.models[1].find_from_relation_fields(&name("posts")).unwrap();
    assert!(Arc::ptr_eq(&found, &schema.models[1].relation_fields[0]));
}

#[test]
fn unknown_names_are_reported() {
    let schema = schema();
    assert_eq!(
        schema.models[0].find_from_scalar(&name("author")),
        Err(FilterError::UnknownField { name: name("author") })
    );
    assert_eq!(
        schema.models[0].find_from_relation_fields(&name("title")),
        Err(FilterError::UnknownField { name: name("title") })
    );
    assert_eq!(schema.models[1].find_relation(&name("author")), None);
}

#[test]
fn models_are_found_by_name() {
    let schema = schema();
    assert_eq!(schema.find_model(&name("Post")), Some(0));
    assert_eq!(schema.find_model(&name("User")), Some(1));
    assert_eq!(schema.find_model(&name("users")), None);
}

#[test]
fn tables_and_columns_of_models() {
    let schema = schema();
    let posts = Table { database: name("blog"), name: name("posts") };
    assert_eq!(schema.table(0), posts);
    assert_eq!(schema.id_column(0), Column { table: posts.clone(), name: name("post_id") });
    assert_eq!(schema.model_column(0, &name("t1")), Column { table: posts, name: name("t1") });
    assert_eq!(schema.table(1), Table { database: name("blog"), name: name("users") });
}

#[test]
fn join_tables_and_columns_of_relations() {
    let schema = schema();
    let field = RelationField { name: name("author"), relation: 0, relation_side: RelationSide::B };
    let join = Table { database: name("blog"), name: name("_Authorship") };
    assert_eq!(schema.relation_table(&field), join);
    assert_eq!(
        schema.relation_column(&field, RelationSide::B),
        Column { table: join.clone(), name: name("post") }
    );
    assert_eq!(
        schema.relation_column(&field, RelationSide::A),
        Column { table: join, name: name("user") }
    );
    assert_eq!(schema.related_model(&field), 1);
    let back = RelationField { name: name("posts"), relation: 0, relation_side: RelationSide::A };
    assert_eq!(schema.related_model(&back), 0);
    assert_eq!(schema.relations[0].column_for_relation_side(RelationSide::A), "user");
    assert_eq!(schema.relations[0].model_for_relation_side(RelationSide::B), 0);
}

#[test]
fn sides_are_opposite() {
    assert_eq!(RelationSide::A.opposite(), RelationSide::B);
    assert_eq!(RelationSide::B.opposite(), RelationSide::A);
}

#[test]
fn consistency_is_checked() {
    assert!(schema().is_consistent());
    let mut dangling_relation = schema();
    dangling_relation.models[1].relation_fields[0] = relation_field("posts", 1, RelationSide::A);
    assert!(!dangling_relation.is_consistent());
    let mut dangling_model = schema();
    dangling_model.relations[0].model_b = 2;
    assert!(!dangling_model.is_consistent());
    let mut dangling_model = schema();
    dangling_model.relations[0].model_a = 7;
    assert!(!dangling_model.is_consistent());
    let empty = Schema { db_name: name("x"), models: vec![], relations: vec![] };
    assert!(empty.is_consistent());
}
