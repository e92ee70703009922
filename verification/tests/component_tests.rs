use schema_engine::dml::{
    Datamodel, Enum as DmlEnum, EnumValue, FieldArity, FieldType, ScalarField, ScalarType,
};
use schema_engine::migrations::{
    migration_folder_name, new_migration_folder_name, Migration, MigrationFolder, Timestamp,
    MIGRATION_SCRIPT_FILENAME,
};
use schema_engine::mutation_type::{
    build, pluralize, BuildMode, BuilderContext, InternalDataModel, InternalModel, QueryTag,
};
use schema_engine::postgres_calc::{NativeTypeInstance, PostgresFlavour, PostgresType};
use schema_engine::schema::{Column, ColumnArity, ColumnType, ColumnTypeFamily, PrismaValue};
use schema_engine::sqlite_check::{ColumnDiffer, DestructiveCheckPlan, SqliteFlavour};
use schema_engine::strutil::{render_u64_padded, replace_dots, sanitize_identifier};

fn int_column(name: &str, arity: ColumnArity) -> Column {
    Column {
        name: name.to_string(),
        tpe: ColumnType::pure(ColumnTypeFamily::Int, arity),
        default: None,
        auto_increment: false,
    }
}

#[test]
fn making_an_optional_column_required_without_default_is_unexecutable() {
    let differ = ColumnDiffer {
        table: "User".to_string(),
        previous: int_column("age", ColumnArity::Nullable),
        next: int_column("age", ColumnArity::Required),
    };
    let mut plan = DestructiveCheckPlan::new();
    SqliteFlavour {}.check_alter_column(&differ, &mut plan, 3);
    assert_eq!(plan.unexecutables.len(), 1);
    assert_eq!(plan.warnings.len(), 1);
    match &plan.unexecutables[0].0 {
        schema_engine::sqlite_check::UnexecutableStepCheck::MadeOptionalFieldRequired {
            table,
            column,
        } => {
            assert_eq!(table, "User");
            assert_eq!(column, "age");
        }
    }
    assert_eq!(plan.unexecutables[0].1, 3);
}

#[test]
fn making_an_optional_column_required_with_default_only_warns() {
    let mut next = int_column("age", ColumnArity::Required);
    next.default = Some(schema_engine::schema::DefaultValue::VALUE(PrismaValue::Int(0)));
    let differ = ColumnDiffer {
        table: "User".to_string(),
        previous: int_column("age", ColumnArity::Nullable),
        next,
    };
    let mut plan = DestructiveCheckPlan::new();
    SqliteFlavour {}.check_alter_column(&differ, &mut plan, 0);
    assert_eq!(plan.unexecutables.len(), 0);
    assert_eq!(plan.warnings.len(), 1);
}

#[test]
fn changing_a_column_type_warns_without_blocking() {
    let differ = ColumnDiffer {
        table: "User".to_string(),
        previous: int_column("age", ColumnArity::Required),
        next: Column {
            name: "age".to_string(),
            tpe: ColumnType::pure(ColumnTypeFamily::String, ColumnArity::Required),
            default: None,
            auto_increment: false,
        },
    };
    let mut plan = DestructiveCheckPlan::new();
    SqliteFlavour {}.check_alter_column(&differ, &mut plan, 1);
    assert_eq!(plan.unexecutables.len(), 0);
    assert_eq!(plan.warnings.len(), 1);
}

#[test]
fn unchanged_and_loosened_columns_are_safe() {
    let unchanged = ColumnDiffer {
        table: "User".to_string(),
        previous: int_column("age", ColumnArity::Required),
        next: int_column("age", ColumnArity::Required),
    };
    let loosened = ColumnDiffer {
        table: "User".to_string(),
        previous: int_column("age", ColumnArity::Required),
        next: int_column("age", ColumnArity::Nullable),
    };
    let mut plan = DestructiveCheckPlan::new();
    SqliteFlavour {}.check_alter_column(&unchanged, &mut plan, 0);
    SqliteFlavour {}.check_alter_column(&loosened, &mut plan, 1);
    assert_eq!(plan.warnings.len(), 0);
    assert_eq!(plan.unexecutables.len(), 0);
}

#[test]
fn checking_a_whole_plan_walks_every_step() {
    let user = schema_engine::schema::Table {
        name: "User".to_string(),
        columns: vec![
            int_column("id", ColumnArity::Required),
            int_column("age", ColumnArity::Nullable),
            int_column("legacy", ColumnArity::Nullable),
        ],
        indices: vec![],
        primary_key: None,
        foreign_keys: vec![],
    };
    let previous = schema_engine::schema::SqlSchema {
        tables: vec![user.clone()],
        enums: vec![],
        sequences: vec![],
    };
    let steps = vec![
        schema_engine::sql_migration::SqlMigrationStep::DropTable(
            schema_engine::sql_migration::DropTable {
                name: "Audit".to_string(),
            },
        ),
        schema_engine::sql_migration::SqlMigrationStep::AlterTable(
            schema_engine::sql_migration::AlterTable {
                table: user,
                changes: vec![
                    schema_engine::sql_migration::TableChange::DropColumn("legacy".to_string()),
                    schema_engine::sql_migration::TableChange::AlterColumn(
                        schema_engine::sql_migration::AlterColumn {
                            name: "age".to_string(),
                            column: int_column("age", ColumnArity::Required),
                        },
                    ),
                ],
            },
        ),
    ];

    let mut plan = DestructiveCheckPlan::new();
    SqliteFlavour {}.check_plan(&previous, &steps, &mut plan);

    assert_eq!(plan.warnings.len(), 3);
    match &plan.warnings[0].0 {
        schema_engine::sqlite_check::SqlMigrationWarningCheck::DropTable { table } => {
            assert_eq!(table, "Audit");
        }
        other => panic!("expected a table-drop warning, got {:?}", other),
    }
    assert_eq!(plan.warnings[0].1, 0);
    match &plan.warnings[1].0 {
        schema_engine::sqlite_check::SqlMigrationWarningCheck::DropColumn { table, column } => {
            assert_eq!(table, "User");
            assert_eq!(column, "legacy");
        }
        other => panic!("expected a column-drop warning, got {:?}", other),
    }
    match &plan.warnings[2].0 {
        schema_engine::sqlite_check::SqlMigrationWarningCheck::AlterColumn { table, column } => {
            assert_eq!(table, "User");
            assert_eq!(column, "age");
        }
        other => panic!("expected an alter-column warning, got {:?}", other),
    }
    assert_eq!(plan.unexecutables.len(), 1);
    assert_eq!(plan.unexecutables[0].1, 1);
}

#[test]
fn postgres_native_types_render_their_sql_type() {
    let flavour = PostgresFlavour {};
    let field = ScalarField::new(
        "amount",
        FieldArity::Optional,
        FieldType::Base(ScalarType::Float, None),
    );
    let native = NativeTypeInstance {
        native_type: PostgresType::Decimal(8, 2),
        serialized_native_type: "Decimal(8,2)".to_string(),
    };
    let tpe = flavour.column_type_for_native_type(&field, &native);
    assert_eq!(tpe.data_type, "DECIMAL(8, 2)");
    assert_eq!(tpe.full_data_type, "DECIMAL(8, 2)");
    assert_eq!(tpe.arity, ColumnArity::Nullable);
    assert_eq!(tpe.native_type, Some("Decimal(8,2)".to_string()));

    let tz = flavour.column_type_for_native_type(
        &ScalarField::new(
            "at",
            FieldArity::Required,
            FieldType::Base(ScalarType::DateTime, None),
        ),
        &NativeTypeInstance {
            native_type: PostgresType::TimestampWithTimeZone(3),
            serialized_native_type: "Timestamptz(3)".to_string(),
        },
    );
    assert_eq!(tz.data_type, "TIMESTAMP(3) WITH TIME ZONE");
    assert_eq!(tz.arity, ColumnArity::Required);

    let varchar = flavour.column_type_for_native_type(
        &ScalarField::new(
            "name",
            FieldArity::List,
            FieldType::Base(ScalarType::String, None),
        ),
        &NativeTypeInstance {
            native_type: PostgresType::VarChar(255),
            serialized_native_type: "VarChar(255)".to_string(),
        },
    );
    assert_eq!(varchar.data_type, "VARCHAR(255)");
    assert_eq!(varchar.arity, ColumnArity::List);
}

#[test]
fn postgres_enums_take_database_names() {
    let flavour = PostgresFlavour {};
    let data_model = Datamodel {
        models: vec![],
        enums: vec![DmlEnum {
            name: "Color".to_string(),
            database_name: Some("color_t".to_string()),
            documentation: None,
            commented_out: false,
            values: vec![
                EnumValue {
                    name: "Red".to_string(),
                    database_name: Some("red".to_string()),
                    documentation: None,
                    commented_out: false,
                },
                EnumValue {
                    name: "Blue".to_string(),
                    database_name: None,
                    documentation: None,
                    commented_out: false,
                },
            ],
        }],
    };
    let enums = flavour.calculate_enums(&data_model);
    assert_eq!(enums.len(), 1);
    assert_eq!(enums[0].name, "color_t");
    assert_eq!(enums[0].values, vec!["red".to_string(), "Blue".to_string()]);
}

#[test]
fn migration_ids_carry_timestamp_and_name() {
    let ts = Timestamp {
        year: 2020,
        month: 6,
        day: 4,
        minute: 22,
        second: 7,
    };
    assert_eq!(migration_folder_name(&ts, "init"), "202006042207_init");

    let folder = MigrationFolder {
        folder_name: "202006042207_init".to_string(),
    };
    assert_eq!(folder.migration_id(), "202006042207_init");
    assert!(folder.matches_applied_migration(&Migration {
        name: "202006042207_init".to_string(),
    }));
    assert!(!folder.matches_applied_migration(&Migration {
        name: "202006042207_other".to_string(),
    }));
    assert_eq!(MIGRATION_SCRIPT_FILENAME, "migration");

    // The live clock produces a well-formed id ending in the name.
    let fresh = new_migration_folder_name("init").expect("current year is not negative");
    assert!(fresh.ends_with("_init"));
    assert_eq!(fresh.len(), "202006042207_init".len());
}

#[test]
fn migrations_sort_by_increasing_id() {
    let folders = vec![
        MigrationFolder {
            folder_name: "202101010101_second".to_string(),
        },
        MigrationFolder {
            folder_name: "202001010101_first".to_string(),
        },
        MigrationFolder {
            folder_name: "202201010101_third".to_string(),
        },
        MigrationFolder {
            folder_name: "202001010101_first".to_string(),
        },
    ];
    let sorted = schema_engine::migrations::sort_migrations(folders);
    let ids: Vec<&str> = sorted.iter().map(|f| f.folder_name.as_str()).collect();
    assert_eq!(
        ids,
        vec![
            "202001010101_first",
            "202001010101_first",
            "202101010101_second",
            "202201010101_third",
        ],
    );
}

#[test]
fn pluralize_follows_english_conventions() {
    assert_eq!(pluralize("User"), "Users");
    assert_eq!(pluralize("Box"), "Boxes");
    assert_eq!(pluralize("Bus"), "Buses");
    assert_eq!(pluralize("City"), "Cities");
    assert_eq!(pluralize("Day"), "Days");
    assert_eq!(pluralize(""), "");
}

#[test]
fn mutation_type_builds_fields_per_model() {
    let ctx = BuilderContext {
        internal_data_model: InternalDataModel {
            models: vec![
                InternalModel {
                    name: "User".to_string(),
                    is_embedded: false,
                    has_unique_criterion: true,
                },
                InternalModel {
                    name: "Log".to_string(),
                    is_embedded: false,
                    has_unique_criterion: false,
                },
                InternalModel {
                    name: "Embedded".to_string(),
                    is_embedded: true,
                    has_unique_criterion: true,
                },
            ],
        },
        enable_raw_queries: true,
        mode: BuildMode::Legacy,
    };
    let mutation = build(&ctx);
    assert_eq!(mutation.name, "Mutation");
    let names: Vec<(&str, QueryTag)> = mutation
        .fields
        .iter()
        .map(|f| (f.name.as_str(), f.tag))
        .collect();
    assert_eq!(
        names,
        vec![
            ("createUser", QueryTag::CreateOne),
            ("deleteUser", QueryTag::DeleteOne),
            ("updateUser", QueryTag::UpdateOne),
            ("upsertUser", QueryTag::UpsertOne),
            ("updateManyUsers", QueryTag::UpdateMany),
            ("deleteManyUsers", QueryTag::DeleteMany),
            ("createLog", QueryTag::CreateOne),
            ("updateManyLogs", QueryTag::UpdateMany),
            ("deleteManyLogs", QueryTag::DeleteMany),
            ("executeRaw", QueryTag::ExecuteRaw),
            ("queryRaw", QueryTag::QueryRaw),
        ],
    );
}

#[test]
fn mutation_type_modern_mode_uses_one_suffix() {
    let ctx = BuilderContext {
        internal_data_model: InternalDataModel {
            models: vec![InternalModel {
                name: "User".to_string(),
                is_embedded: false,
                has_unique_criterion: true,
            }],
        },
        enable_raw_queries: false,
        mode: BuildMode::Modern,
    };
    let mutation = build(&ctx);
    let names: Vec<&str> = mutation.fields.iter().map(|f| f.name.as_str()).collect();
    assert_eq!(
        names,
        vec![
            "createOneUser",
            "deleteOneUser",
            "updateOneUser",
            "upsertOneUser",
            "updateManyUser",
            "deleteManyUser",
        ],
    );
}

#[test]
fn identifier_sanitisation_and_padding() {
    assert_eq!(sanitize_identifier("city-id"), "city_id");
    assert_eq!(sanitize_identifier("a b.c"), "a_b_c");
    assert_eq!(sanitize_identifier("plain_9"), "plain_9");
    assert_eq!(replace_dots("User.email_unique"), "User_email_unique");
    assert_eq!(render_u64_padded(7, 4), "0007");
    assert_eq!(render_u64_padded(2020, 4), "2020");
    assert_eq!(render_u64_padded(123456, 4), "123456");
}
