use schema_engine::calculator::calculate_sql_schema;
use schema_engine::dml::{
    Datamodel, DefaultValue as DMLDefault, Enum as DmlEnum, EnumValue, Field, FieldArity,
    FieldType, IndexDefinition, Model, OnDeleteStrategy, RelationField, RelationInfo, ScalarField,
    ScalarType, ValueGenerator,
};
use schema_engine::introspection::calculate_datamodel;
use schema_engine::schema::{IndexType, SqlFamily};

fn id_field() -> Field {
    Field::ScalarField(ScalarField {
        name: "id".to_string(),
        arity: FieldArity::Required,
        field_type: FieldType::Base(ScalarType::Int, None),
        database_name: None,
        default_value: Some(DMLDefault::Expression(ValueGenerator::new_autoincrement())),
        is_unique: false,
        is_id: true,
        documentation: None,
        is_generated: false,
        is_updated_at: false,
        is_commented_out: false,
    })
}

fn plain_model(name: &str, fields: Vec<Field>) -> Model {
    Model {
        name: name.to_string(),
        database_name: None,
        documentation: None,
        is_embedded: false,
        is_generated: false,
        is_commented_out: false,
        fields,
        indices: vec![],
        id_fields: vec![],
    }
}

/// A data model in the introspector's canonical shape — normalised relation
/// names, back-references present, scalar fields before relation fields —
/// comes back unchanged from calculating its SQL schema and introspecting
/// that schema again.
#[test]
fn canonical_data_model_survives_calculate_then_introspect() {
    let mut user = plain_model(
        "User",
        vec![
            id_field(),
            Field::ScalarField(ScalarField::new(
                "name",
                FieldArity::Required,
                FieldType::Base(ScalarType::String, None),
            )),
            Field::ScalarField(ScalarField {
                name: "email".to_string(),
                arity: FieldArity::Required,
                field_type: FieldType::Base(ScalarType::String, None),
                database_name: None,
                default_value: None,
                is_unique: true,
                is_id: false,
                documentation: None,
                is_generated: false,
                is_updated_at: false,
                is_commented_out: false,
            }),
            // The back-reference of the Post relation.
            Field::RelationField(RelationField::new(
                "Post",
                FieldArity::List,
                RelationInfo {
                    to: "Post".to_string(),
                    fields: vec![],
                    to_fields: vec![],
                    name: "PostToUser".to_string(),
                    on_delete: OnDeleteStrategy::NoAction,
                },
            )),
        ],
    );
    user.indices = vec![IndexDefinition {
        name: Some("name_email_idx".to_string()),
        fields: vec!["name".to_string(), "email".to_string()],
        tpe: IndexType::Unique,
    }];

    let post = plain_model(
        "Post",
        vec![
            id_field(),
            Field::ScalarField(ScalarField::new(
                "authorId",
                FieldArity::Required,
                FieldType::Base(ScalarType::Int, None),
            )),
            Field::RelationField(RelationField::new(
                "User",
                FieldArity::Required,
                RelationInfo {
                    to: "User".to_string(),
                    fields: vec!["authorId".to_string()],
                    to_fields: vec!["id".to_string()],
                    name: "PostToUser".to_string(),
                    on_delete: OnDeleteStrategy::NoAction,
                },
            )),
        ],
    );

    let data_model = Datamodel {
        models: vec![user, post],
        enums: vec![DmlEnum {
            name: "Color".to_string(),
            database_name: None,
            documentation: None,
            commented_out: false,
            values: vec![
                EnumValue {
                    name: "Red".to_string(),
                    database_name: None,
                    documentation: None,
                    commented_out: false,
                },
                EnumValue {
                    name: "Blue".to_string(),
                    database_name: None,
                    documentation: None,
                    commented_out: false,
                },
            ],
        }],
    };

    let sql_schema = calculate_sql_schema(&data_model, &SqlFamily::Postgres);
    let reintrospected = calculate_datamodel(&sql_schema, &SqlFamily::Postgres, &Datamodel::new())
        .expect("calculate data model")
        .data_model;

    assert_eq!(reintrospected, data_model);
}

/// The calculated schema carries the structures the data model declares.
#[test]
fn calculated_schema_holds_tables_keys_and_indices() {
    let mut user = plain_model(
        "User",
        vec![
            id_field(),
            Field::ScalarField(ScalarField {
                name: "email".to_string(),
                arity: FieldArity::Optional,
                field_type: FieldType::Base(ScalarType::String, None),
                database_name: Some("email_address".to_string()),
                default_value: Some(DMLDefault::Single(
                    schema_engine::schema::PrismaValue::String("unknown".to_string()),
                )),
                is_unique: true,
                is_id: false,
                documentation: None,
                is_generated: false,
                is_updated_at: false,
                is_commented_out: false,
            }),
        ],
    );
    user.database_name = Some("users".to_string());
    let data_model = Datamodel {
        models: vec![user],
        enums: vec![],
    };

    let schema = calculate_sql_schema(&data_model, &SqlFamily::Postgres);
    assert_eq!(schema.tables.len(), 1);
    let table = &schema.tables[0];
    assert_eq!(table.name, "users");
    assert_eq!(table.columns.len(), 2);
    assert!(table.columns[0].auto_increment);
    assert_eq!(table.columns[1].name, "email_address");
    assert_eq!(
        table.columns[1].default,
        Some(schema_engine::schema::DefaultValue::VALUE(
            schema_engine::schema::PrismaValue::String("unknown".to_string()),
        )),
    );
    assert_eq!(
        table.primary_key.as_ref().map(|pk| pk.columns.clone()),
        Some(vec!["id".to_string()]),
    );
    assert_eq!(table.indices.len(), 1);
    assert_eq!(table.indices[0].name, "users.email_address_unique");
    assert_eq!(table.indices[0].columns, vec!["email_address".to_string()]);
    assert_eq!(table.indices[0].tpe, IndexType::Unique);
}
