use schema_engine::dml::{Datamodel, Field, FieldArity};
use schema_engine::introspection::calculate_datamodel;
use schema_engine::schema::{
    Column, ColumnArity, ColumnType, ColumnTypeFamily, ForeignKey, ForeignKeyAction, Index,
    IndexType, PrimaryKey, SqlFamily, SqlSchema, Table,
};

fn int_col(name: &str, arity: ColumnArity) -> Column {
    Column {
        name: name.to_string(),
        tpe: ColumnType::pure(ColumnTypeFamily::Int, arity),
        default: None,
        auto_increment: false,
    }
}

fn id_col() -> Column {
    Column {
        name: "id".to_string(),
        tpe: ColumnType::pure(ColumnTypeFamily::Int, ColumnArity::Required),
        default: None,
        auto_increment: true,
    }
}

fn id_pk() -> Option<PrimaryKey> {
    Some(PrimaryKey {
        columns: vec!["id".to_string()],
        sequence: None,
        constraint_name: None,
    })
}

fn fk(columns: &[&str], referenced_table: &str, referenced_columns: &[&str]) -> ForeignKey {
    ForeignKey {
        constraint_name: None,
        columns: columns.iter().map(|c| c.to_string()).collect(),
        referenced_table: referenced_table.to_string(),
        on_delete_action: ForeignKeyAction::NoAction,
        on_update_action: ForeignKeyAction::NoAction,
        referenced_columns: referenced_columns.iter().map(|c| c.to_string()).collect(),
    }
}

fn unique_index(name: &str, columns: &[&str]) -> Index {
    Index {
        name: name.to_string(),
        columns: columns.iter().map(|c| c.to_string()).collect(),
        tpe: IndexType::Unique,
    }
}

fn field_summary(model: &schema_engine::dml::Model) -> Vec<(String, String, FieldArity)> {
    model
        .fields
        .iter()
        .filter_map(|f| match f {
            Field::RelationField(rf) => Some((
                rf.name.clone(),
                rf.relation_info.name.clone(),
                rf.arity,
            )),
            Field::ScalarField(_) => None,
        })
        .collect()
}

fn introspect(schema: &SqlSchema) -> Datamodel {
    calculate_datamodel(schema, &SqlFamily::Postgres, &Datamodel::new())
        .expect("calculate data model")
        .data_model
}

/// An implicit join table beside a plain foreign key between the same two
/// models: the one-to-many and the many-to-many field names stay distinct
/// on both models, and the join-table relation name is disambiguated.
#[test]
fn implicit_many_to_many_relation_does_not_collide_with_foreign_key_relation() {
    let schema = SqlSchema {
        tables: vec![
            Table {
                name: "User".to_string(),
                columns: vec![id_col()],
                indices: vec![],
                primary_key: id_pk(),
                foreign_keys: vec![],
            },
            Table {
                name: "Event".to_string(),
                columns: vec![id_col(), int_col("hostId", ColumnArity::Required)],
                indices: vec![],
                primary_key: id_pk(),
                foreign_keys: vec![fk(&["hostId"], "User", &["id"])],
            },
            Table {
                name: "_EventToUser".to_string(),
                columns: vec![
                    int_col("A", ColumnArity::Required),
                    int_col("B", ColumnArity::Required),
                ],
                indices: vec![unique_index("_EventToUser_AB_unique", &["A", "B"])],
                primary_key: None,
                foreign_keys: vec![fk(&["A"], "Event", &["id"]), fk(&["B"], "User", &["id"])],
            },
        ],
        enums: vec![],
        sequences: vec![],
    };

    let data_model = introspect(&schema);

    let names: Vec<&str> = data_model.models.iter().map(|m| m.name.as_str()).collect();
    assert_eq!(names, vec!["User", "Event"]);

    let user = &data_model.models[0];
    assert_eq!(
        field_summary(user),
        vec![
            (
                "Event_EventToUser".to_string(),
                "EventToUser".to_string(),
                FieldArity::List,
            ),
            (
                "Event_EventToUserManyToMany".to_string(),
                "EventToUserManyToMany".to_string(),
                FieldArity::List,
            ),
        ],
    );

    let event = &data_model.models[1];
    assert_eq!(
        field_summary(event),
        vec![
            (
                "User_EventToUser".to_string(),
                "EventToUser".to_string(),
                FieldArity::Required,
            ),
            (
                "User_EventToUserManyToMany".to_string(),
                "EventToUserManyToMany".to_string(),
                FieldArity::List,
            ),
        ],
    );

    match &event.fields[2] {
        Field::RelationField(rf) => {
            assert_eq!(rf.relation_info.to, "User");
            assert_eq!(rf.relation_info.fields, vec!["hostId".to_string()]);
            assert_eq!(rf.relation_info.to_fields, vec!["id".to_string()]);
        }
        other => panic!("expected a relation field, got {:?}", other),
    }
}

/// Two self-referencing join tables: four list fields named by side and
/// relation, with the two relation names kept apart.
#[test]
fn self_referencing_many_to_many_relations_get_side_tagged_field_names() {
    let join_table = |name: &str| Table {
        name: name.to_string(),
        columns: vec![
            int_col("A", ColumnArity::Required),
            int_col("B", ColumnArity::Required),
        ],
        indices: vec![unique_index(&format!("{}_AB_unique", name), &["A", "B"])],
        primary_key: None,
        foreign_keys: vec![fk(&["A"], "User", &["id"]), fk(&["B"], "User", &["id"])],
    };
    let schema = SqlSchema {
        tables: vec![
            Table {
                name: "User".to_string(),
                columns: vec![id_col()],
                indices: vec![],
                primary_key: id_pk(),
                foreign_keys: vec![],
            },
            join_table("_Friendship"),
            join_table("_Frenemyship"),
        ],
        enums: vec![],
        sequences: vec![],
    };

    let data_model = introspect(&schema);
    assert_eq!(data_model.models.len(), 1);
    let user = &data_model.models[0];
    assert_eq!(
        field_summary(user),
        vec![
            (
                "User_A_Friendship".to_string(),
                "Friendship".to_string(),
                FieldArity::List,
            ),
            (
                "User_B_Friendship".to_string(),
                "Friendship".to_string(),
                FieldArity::List,
            ),
            (
                "User_A_Frenemyship".to_string(),
                "Frenemyship".to_string(),
                FieldArity::List,
            ),
            (
                "User_B_Frenemyship".to_string(),
                "Frenemyship".to_string(),
                FieldArity::List,
            ),
        ],
    );
}

/// A self-referencing compound foreign key: the forward field keeps the
/// model's name, the back-reference is prefixed `other_`, and the relation
/// name carries the column list.
#[test]
fn compound_self_relation_names_both_sides() {
    let schema = SqlSchema {
        tables: vec![Table {
            name: "Person".to_string(),
            columns: vec![
                id_col(),
                int_col("age", ColumnArity::Required),
                int_col("partner_id", ColumnArity::Nullable),
                int_col("partner_age", ColumnArity::Nullable),
            ],
            indices: vec![unique_index("person_unique", &["id", "age"])],
            primary_key: id_pk(),
            foreign_keys: vec![fk(&["partner_id", "partner_age"], "Person", &["id", "age"])],
        }],
        enums: vec![],
        sequences: vec![],
    };

    let data_model = introspect(&schema);
    let person = &data_model.models[0];
    assert_eq!(
        field_summary(person),
        vec![
            (
                "Person".to_string(),
                "PersonToPerson_partner_id_partner_age".to_string(),
                FieldArity::Optional,
            ),
            (
                "other_Person".to_string(),
                "PersonToPerson_partner_id_partner_age".to_string(),
                FieldArity::List,
            ),
        ],
    );
}

/// Two compound foreign keys to the same table: both field names and both
/// relation names carry the owning model's column lists.
#[test]
fn duplicate_compound_foreign_keys_are_disambiguated_by_columns() {
    let schema = SqlSchema {
        tables: vec![
            Table {
                name: "User".to_string(),
                columns: vec![id_col(), int_col("age", ColumnArity::Required)],
                indices: vec![unique_index("user_unique", &["id", "age"])],
                primary_key: id_pk(),
                foreign_keys: vec![],
            },
            Table {
                name: "Post".to_string(),
                columns: vec![
                    id_col(),
                    int_col("user_id", ColumnArity::Nullable),
                    int_col("user_age", ColumnArity::Nullable),
                    int_col("other_user_id", ColumnArity::Nullable),
                    int_col("other_user_age", ColumnArity::Nullable),
                ],
                indices: vec![],
                primary_key: id_pk(),
                foreign_keys: vec![
                    fk(&["user_id", "user_age"], "User", &["id", "age"]),
                    fk(&["other_user_id", "other_user_age"], "User", &["id", "age"]),
                ],
            },
        ],
        enums: vec![],
        sequences: vec![],
    };

    let data_model = introspect(&schema);
    let user = &data_model.models[0];
    assert_eq!(
        field_summary(user),
        vec![
            (
                "Post_Post_user_id_user_ageToUser".to_string(),
                "Post_user_id_user_ageToUser".to_string(),
                FieldArity::List,
            ),
            (
                "Post_Post_other_user_id_other_user_ageToUser".to_string(),
                "Post_other_user_id_other_user_ageToUser".to_string(),
                FieldArity::List,
            ),
        ],
    );
    let post = &data_model.models[1];
    assert_eq!(
        field_summary(post),
        vec![
            (
                "User_Post_user_id_user_ageToUser".to_string(),
                "Post_user_id_user_ageToUser".to_string(),
                FieldArity::Optional,
            ),
            (
                "User_Post_other_user_id_other_user_ageToUser".to_string(),
                "Post_other_user_id_other_user_ageToUser".to_string(),
                FieldArity::Optional,
            ),
        ],
    );
}

/// A compound foreign key covered by a unique index on the owning table
/// makes the back-reference optional: a one-to-one relation.
#[test]
fn compound_foreign_key_with_matching_unique_index_is_one_to_one() {
    let schema = SqlSchema {
        tables: vec![
            Table {
                name: "User".to_string(),
                columns: vec![id_col(), int_col("age", ColumnArity::Required)],
                indices: vec![unique_index("user_unique", &["id", "age"])],
                primary_key: id_pk(),
                foreign_keys: vec![],
            },
            Table {
                name: "Post".to_string(),
                columns: vec![
                    id_col(),
                    int_col("user_id", ColumnArity::Nullable),
                    int_col("user_age", ColumnArity::Nullable),
                ],
                indices: vec![unique_index("post_user_unique", &["user_id", "user_age"])],
                primary_key: id_pk(),
                foreign_keys: vec![fk(&["user_id", "user_age"], "User", &["id", "age"])],
            },
        ],
        enums: vec![],
        sequences: vec![],
    };

    let data_model = introspect(&schema);
    let user = &data_model.models[0];
    assert_eq!(
        field_summary(user),
        vec![(
            "Post".to_string(),
            "PostToUser".to_string(),
            FieldArity::Optional,
        )],
    );
    let post = &data_model.models[1];
    assert_eq!(
        field_summary(post),
        vec![(
            "User".to_string(),
            "PostToUser".to_string(),
            FieldArity::Optional,
        )],
    );
}

/// Introspection is a pure function of the schema: two runs over the same
/// schema agree on every model, field and relation name.
#[test]
fn introspection_of_the_same_schema_is_reproducible() {
    let schema = SqlSchema {
        tables: vec![
            Table {
                name: "User".to_string(),
                columns: vec![id_col()],
                indices: vec![],
                primary_key: id_pk(),
                foreign_keys: vec![],
            },
            Table {
                name: "Post".to_string(),
                columns: vec![id_col(), int_col("author", ColumnArity::Required)],
                indices: vec![],
                primary_key: id_pk(),
                foreign_keys: vec![fk(&["author"], "User", &["id"])],
            },
        ],
        enums: vec![],
        sequences: vec![],
    };
    assert_eq!(introspect(&schema), introspect(&schema));
}

/// A foreign key naming a missing table is rejected as invalid input.
#[test]
fn foreign_key_to_missing_table_is_rejected() {
    let schema = SqlSchema {
        tables: vec![Table {
            name: "Post".to_string(),
            columns: vec![id_col(), int_col("user_id", ColumnArity::Required)],
            indices: vec![],
            primary_key: id_pk(),
            foreign_keys: vec![fk(&["user_id"], "User", &["id"])],
        }],
        enums: vec![],
        sequences: vec![],
    };
    let result = calculate_datamodel(&schema, &SqlFamily::Postgres, &Datamodel::new());
    assert_eq!(
        result,
        Err(schema_engine::introspection::SqlIntrospectionError::InputInvalid),
    );
}

/// A foreign key whose local and referenced column counts disagree is
/// rejected as invalid input.
#[test]
fn foreign_key_with_mismatched_column_counts_is_rejected() {
    let schema = SqlSchema {
        tables: vec![
            Table {
                name: "User".to_string(),
                columns: vec![id_col()],
                indices: vec![],
                primary_key: id_pk(),
                foreign_keys: vec![],
            },
            Table {
                name: "Post".to_string(),
                columns: vec![id_col(), int_col("user_id", ColumnArity::Required)],
                indices: vec![],
                primary_key: id_pk(),
                foreign_keys: vec![fk(&["user_id"], "User", &["id", "age"])],
            },
        ],
        enums: vec![],
        sequences: vec![],
    };
    let result = calculate_datamodel(&schema, &SqlFamily::Postgres, &Datamodel::new());
    assert!(result.is_err());
}
