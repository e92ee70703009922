use schema_engine::differ::diff_schemas;
use schema_engine::schema::{
    Column, ColumnArity, ColumnType, ColumnTypeFamily, Enum, ForeignKey, ForeignKeyAction, Index,
    IndexType, PrimaryKey, SqlSchema, Table,
};
use schema_engine::sql_migration::{SqlMigrationStep, TableChange};

fn column(name: &str, family: ColumnTypeFamily, arity: ColumnArity) -> Column {
    Column {
        name: name.to_string(),
        tpe: ColumnType::pure(family, arity),
        default: None,
        auto_increment: false,
    }
}

fn user_table() -> Table {
    Table {
        name: "User".to_string(),
        columns: vec![
            column("id", ColumnTypeFamily::Int, ColumnArity::Required),
            column("name", ColumnTypeFamily::String, ColumnArity::Nullable),
        ],
        indices: vec![Index {
            name: "User_name_index".to_string(),
            columns: vec!["name".to_string()],
            tpe: IndexType::Normal,
        }],
        primary_key: Some(PrimaryKey {
            columns: vec!["id".to_string()],
            sequence: None,
            constraint_name: Some("PK_User".to_string()),
        }),
        foreign_keys: vec![],
    }
}

fn schema_with(tables: Vec<Table>, enums: Vec<Enum>) -> SqlSchema {
    SqlSchema {
        tables,
        enums,
        sequences: vec![],
    }
}

#[test]
fn diffing_a_schema_against_itself_is_empty() {
    let schema = schema_with(
        vec![user_table()],
        vec![Enum {
            name: "Color".to_string(),
            values: vec!["red".to_string(), "blue".to_string()],
        }],
    );
    assert_eq!(diff_schemas(&schema, &schema), Vec::<SqlMigrationStep>::new());
}

#[test]
fn created_and_dropped_tables_are_planned() {
    let previous = schema_with(vec![user_table()], vec![]);
    let mut post = user_table();
    post.name = "Post".to_string();
    let next = schema_with(vec![post.clone()], vec![]);

    let plan = diff_schemas(&previous, &next);
    // The dropped table takes its index down with it; only the created
    // table's index is planned explicitly.
    assert_eq!(plan.len(), 3);
    match &plan[0] {
        SqlMigrationStep::DropTable(d) => assert_eq!(d.name, "User"),
        other => panic!("expected a table drop, got {:?}", other),
    }
    match &plan[1] {
        SqlMigrationStep::CreateTable(c) => assert_eq!(c.table.name, "Post"),
        other => panic!("expected a table creation, got {:?}", other),
    }
    match &plan[2] {
        SqlMigrationStep::CreateIndex(ci) => {
            assert_eq!(ci.table, "Post");
            assert!(ci.caused_by_create_table);
            assert!(ci.contains_nullable_columns);
        }
        other => panic!("expected an index creation, got {:?}", other),
    }
}

#[test]
fn column_changes_are_grouped_into_one_alteration() {
    let previous = schema_with(vec![user_table()], vec![]);
    let mut changed = user_table();
    changed.columns = vec![
        column("id", ColumnTypeFamily::Int, ColumnArity::Required),
        // `name` becomes required: an alteration.
        column("name", ColumnTypeFamily::String, ColumnArity::Required),
        // `age` is new.
        column("age", ColumnTypeFamily::Int, ColumnArity::Nullable),
    ];
    let next = schema_with(vec![changed], vec![]);

    let plan = diff_schemas(&previous, &next);
    assert_eq!(plan.len(), 1);
    match &plan[0] {
        SqlMigrationStep::AlterTable(alter) => {
            assert_eq!(alter.table.name, "User");
            assert_eq!(alter.changes.len(), 2);
            match &alter.changes[0] {
                TableChange::AddColumn(c) => assert_eq!(c.name, "age"),
                other => panic!("expected a column addition, got {:?}", other),
            }
            match &alter.changes[1] {
                TableChange::AlterColumn(a) => assert_eq!(a.name, "name"),
                other => panic!("expected a column alteration, got {:?}", other),
            }
        }
        other => panic!("expected a table alteration, got {:?}", other),
    }
}

#[test]
fn primary_key_change_drops_and_adds_the_key() {
    let previous = schema_with(vec![user_table()], vec![]);
    let mut changed = user_table();
    changed.primary_key = Some(PrimaryKey {
        columns: vec!["id".to_string(), "name".to_string()],
        sequence: None,
        constraint_name: None,
    });
    let next = schema_with(vec![changed], vec![]);

    let plan = diff_schemas(&previous, &next);
    assert_eq!(plan.len(), 1);
    match &plan[0] {
        SqlMigrationStep::AlterTable(alter) => {
            assert_eq!(alter.changes.len(), 2);
            match &alter.changes[0] {
                TableChange::DropPrimaryKey { constraint_name } => {
                    assert_eq!(constraint_name.as_deref(), Some("PK_User"));
                }
                other => panic!("expected a primary-key drop, got {:?}", other),
            }
            match &alter.changes[1] {
                TableChange::AddPrimaryKey { columns } => {
                    assert_eq!(columns, &vec!["id".to_string(), "name".to_string()]);
                }
                other => panic!("expected a primary-key addition, got {:?}", other),
            }
        }
        other => panic!("expected a table alteration, got {:?}", other),
    }
}

#[test]
fn pure_index_renames_become_index_alterations() {
    let previous = schema_with(vec![user_table()], vec![]);
    let mut renamed = user_table();
    renamed.indices = vec![Index {
        name: "User_name_index_v2".to_string(),
        columns: vec!["name".to_string()],
        tpe: IndexType::Normal,
    }];
    let next = schema_with(vec![renamed], vec![]);

    let plan = diff_schemas(&previous, &next);
    assert_eq!(plan.len(), 1);
    match &plan[0] {
        SqlMigrationStep::AlterIndex(ai) => {
            assert_eq!(ai.table, "User");
            assert_eq!(ai.index_name, "User_name_index");
            assert_eq!(ai.index_new_name, "User_name_index_v2");
        }
        other => panic!("expected an index rename, got {:?}", other),
    }
}

#[test]
fn foreign_key_additions_and_drops_are_planned() {
    let post = Table {
        name: "Post".to_string(),
        columns: vec![
            column("id", ColumnTypeFamily::Int, ColumnArity::Required),
            column("author", ColumnTypeFamily::Int, ColumnArity::Required),
        ],
        indices: vec![],
        primary_key: None,
        foreign_keys: vec![ForeignKey {
            constraint_name: Some("Post_author_fkey".to_string()),
            columns: vec!["author".to_string()],
            referenced_table: "User".to_string(),
            on_delete_action: ForeignKeyAction::Cascade,
            on_update_action: ForeignKeyAction::NoAction,
            referenced_columns: vec!["id".to_string()],
        }],
    };
    let mut post_without_fk = post.clone();
    post_without_fk.foreign_keys = vec![];

    let with_fk = schema_with(vec![user_table(), post.clone()], vec![]);
    let without_fk = schema_with(vec![user_table(), post_without_fk], vec![]);

    let dropping = diff_schemas(&with_fk, &without_fk);
    assert_eq!(dropping.len(), 1);
    match &dropping[0] {
        SqlMigrationStep::DropForeignKey(d) => {
            assert_eq!(d.table, "Post");
            assert_eq!(d.constraint_name, "Post_author_fkey");
        }
        other => panic!("expected a foreign-key drop, got {:?}", other),
    }

    let adding = diff_schemas(&without_fk, &with_fk);
    assert_eq!(adding.len(), 1);
    match &adding[0] {
        SqlMigrationStep::AddForeignKey(a) => {
            assert_eq!(a.table, "Post");
            assert_eq!(a.foreign_key.columns, vec!["author".to_string()]);
        }
        other => panic!("expected a foreign-key addition, got {:?}", other),
    }
}

#[test]
fn enum_value_changes_are_planned() {
    let previous = schema_with(
        vec![],
        vec![
            Enum {
                name: "Color".to_string(),
                values: vec!["red".to_string(), "green".to_string()],
            },
            Enum {
                name: "Legacy".to_string(),
                values: vec!["old".to_string()],
            },
        ],
    );
    let next = schema_with(
        vec![],
        vec![
            Enum {
                name: "Color".to_string(),
                values: vec!["red".to_string(), "blue".to_string()],
            },
            Enum {
                name: "Fresh".to_string(),
                values: vec!["new".to_string()],
            },
        ],
    );

    let plan = diff_schemas(&previous, &next);
    assert_eq!(plan.len(), 3);
    match &plan[0] {
        SqlMigrationStep::CreateEnum(c) => assert_eq!(c.enum_def.name, "Fresh"),
        other => panic!("expected an enum creation, got {:?}", other),
    }
    match &plan[1] {
        SqlMigrationStep::DropEnum(d) => assert_eq!(d.name, "Legacy"),
        other => panic!("expected an enum drop, got {:?}", other),
    }
    match &plan[2] {
        SqlMigrationStep::AlterEnum(a) => {
            assert_eq!(a.name, "Color");
            assert_eq!(a.created_values, vec!["blue".to_string()]);
            assert_eq!(a.dropped_values, vec!["green".to_string()]);
        }
        other => panic!("expected an enum alteration, got {:?}", other),
    }
}
