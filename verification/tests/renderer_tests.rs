use schema_engine::mssql::MssqlFlavour;
use schema_engine::schema::{
    Column, ColumnArity, ColumnType, ColumnTypeFamily, DefaultValue, ForeignKey, ForeignKeyAction,
    Index, IndexType, PrimaryKey, PrismaValue, Table,
};
use schema_engine::sql_migration::{
    AddForeignKey, AlterIndex, AlterTable, CreateIndex, DropForeignKey, DropIndex, TableChange,
};
use schema_engine::strutil::escape_string_literal;

fn flavour() -> MssqlFlavour {
    MssqlFlavour {
        schema_name: "dbo".to_string(),
    }
}

fn column(name: &str, family: ColumnTypeFamily, arity: ColumnArity) -> Column {
    Column {
        name: name.to_string(),
        tpe: ColumnType::pure(family, arity),
        default: None,
        auto_increment: false,
    }
}

#[test]
fn escaping_doubles_single_quotes() {
    assert_eq!(escape_string_literal("it's"), "it''s");
    assert_eq!(escape_string_literal("''"), "''''");
    assert_eq!(escape_string_literal("plain"), "plain");
    assert_eq!(escape_string_literal(""), "");
}

#[test]
fn quoting_brackets_identifiers() {
    let renderer = flavour();
    assert_eq!(renderer.quote("User"), "[User]");
    assert_eq!(renderer.quote_with_schema("User"), "dbo.[User]");
}

#[test]
fn defaults_render_per_family() {
    let renderer = flavour();
    assert_eq!(
        renderer.render_default(
            &DefaultValue::VALUE(PrismaValue::String("it's".to_string())),
            &ColumnTypeFamily::String,
        ),
        "'it''s'",
    );
    assert_eq!(
        renderer.render_default(&DefaultValue::NOW, &ColumnTypeFamily::DateTime),
        "CURRENT_TIMESTAMP",
    );
    assert_eq!(
        renderer.render_default(
            &DefaultValue::VALUE(PrismaValue::Boolean(true)),
            &ColumnTypeFamily::Boolean,
        ),
        "1",
    );
    assert_eq!(
        renderer.render_default(
            &DefaultValue::VALUE(PrismaValue::Boolean(false)),
            &ColumnTypeFamily::Boolean,
        ),
        "0",
    );
    assert_eq!(
        renderer.render_default(
            &DefaultValue::VALUE(PrismaValue::Int(-7)),
            &ColumnTypeFamily::Int,
        ),
        "-7",
    );
    assert_eq!(
        renderer.render_default(
            &DefaultValue::DBGENERATED("newid()".to_string()),
            &ColumnTypeFamily::String,
        ),
        "newid()",
    );
    assert_eq!(
        renderer.render_default(
            &DefaultValue::SEQUENCE("seq".to_string()),
            &ColumnTypeFamily::Int,
        ),
        "",
    );
}

#[test]
fn columns_render_with_type_nullability_and_default() {
    let renderer = flavour();
    let mut with_default = column("name", ColumnTypeFamily::String, ColumnArity::Nullable);
    with_default.default = Some(DefaultValue::VALUE(PrismaValue::String("John".to_string())));
    assert_eq!(
        renderer.render_column(&with_default),
        "[name] nvarchar(1000)  DEFAULT 'John'",
    );

    let required = column("age", ColumnTypeFamily::Int, ColumnArity::Required);
    assert_eq!(renderer.render_column(&required), "[age] int NOT NULL ");

    let mut serial = column("id", ColumnTypeFamily::Int, ColumnArity::Required);
    serial.auto_increment = true;
    assert_eq!(renderer.render_column(&serial), "[id] int IDENTITY(1,1)");

    let boolean = column("flag", ColumnTypeFamily::Boolean, ColumnArity::Required);
    assert_eq!(renderer.render_column(&boolean), "[flag] bit NOT NULL ");

    let datetime = column("at", ColumnTypeFamily::DateTime, ColumnArity::Nullable);
    assert_eq!(renderer.render_column(&datetime), "[at] datetime2  ");
}

#[test]
fn create_table_renders_columns_primary_key_and_unique_constraints() {
    let renderer = flavour();
    let mut id = column("id", ColumnTypeFamily::Int, ColumnArity::Required);
    id.auto_increment = true;
    let table = Table {
        name: "User".to_string(),
        columns: vec![
            id,
            column("email", ColumnTypeFamily::String, ColumnArity::Required),
            column("bio", ColumnTypeFamily::String, ColumnArity::Nullable),
        ],
        indices: vec![
            Index {
                name: "User.email_unique".to_string(),
                columns: vec!["email".to_string()],
                tpe: IndexType::Unique,
            },
            Index {
                name: "User.bio_unique".to_string(),
                columns: vec!["bio".to_string()],
                tpe: IndexType::Unique,
            },
        ],
        primary_key: Some(PrimaryKey {
            columns: vec!["id".to_string()],
            sequence: None,
            constraint_name: None,
        }),
        foreign_keys: vec![],
    };
    // The unique index over the nullable column is left to a filtered
    // CREATE INDEX, so only the email constraint appears inline.
    assert_eq!(
        renderer.render_create_table(&table),
        "CREATE TABLE dbo.[User] ([id] int IDENTITY(1,1),\n\
         [email] nvarchar(1000) NOT NULL ,\n\
         [bio] nvarchar(1000)  ,\n\
         CONSTRAINT PK_User_id PRIMARY KEY ([id]),\n\
         CONSTRAINT User_email_unique UNIQUE ([email]))",
    );
}

#[test]
fn create_index_filters_nullable_unique_columns() {
    let renderer = flavour();
    let plain = CreateIndex {
        table: "User".to_string(),
        index: Index {
            name: "User.age_index".to_string(),
            columns: vec!["age".to_string()],
            tpe: IndexType::Normal,
        },
        caused_by_create_table: false,
        contains_nullable_columns: false,
    };
    assert_eq!(
        renderer.render_create_index(&plain),
        "CREATE INDEX [User_age_index] ON dbo.[User]([age])",
    );

    let filtered = CreateIndex {
        table: "User".to_string(),
        index: Index {
            name: "User.email_name_unique".to_string(),
            columns: vec!["email".to_string(), "name".to_string()],
            tpe: IndexType::Unique,
        },
        caused_by_create_table: false,
        contains_nullable_columns: true,
    };
    assert_eq!(
        renderer.render_create_index(&filtered),
        "CREATE UNIQUE INDEX [User_email_name_unique] ON dbo.[User]([email], [name]) \
         WHERE [email] IS NOT NULL AND [name] IS NOT NULL",
    );
}

#[test]
fn foreign_key_statements_render_with_actions() {
    let renderer = flavour();
    let add = AddForeignKey {
        table: "Post".to_string(),
        foreign_key: ForeignKey {
            constraint_name: Some("Post_user_fkey".to_string()),
            columns: vec!["user_id".to_string()],
            referenced_table: "User".to_string(),
            on_delete_action: ForeignKeyAction::Cascade,
            on_update_action: ForeignKeyAction::NoAction,
            referenced_columns: vec!["id".to_string()],
        },
    };
    assert_eq!(
        renderer.render_add_foreign_key(&add),
        "ALTER TABLE dbo.[Post] ADD CONSTRAINT [Post_user_fkey] FOREIGN KEY ([user_id]) \
         REFERENCES dbo.[User]([id]) ON DELETE CASCADE ON UPDATE NO ACTION",
    );

    // A self-referencing foreign key has both actions forced to NO ACTION.
    let self_ref = AddForeignKey {
        table: "Employee".to_string(),
        foreign_key: ForeignKey {
            constraint_name: None,
            columns: vec!["manager_id".to_string()],
            referenced_table: "Employee".to_string(),
            on_delete_action: ForeignKeyAction::Cascade,
            on_update_action: ForeignKeyAction::Cascade,
            referenced_columns: vec!["id".to_string()],
        },
    };
    assert_eq!(
        renderer.render_add_foreign_key(&self_ref),
        "ALTER TABLE dbo.[Employee] ADD FOREIGN KEY ([manager_id]) \
         REFERENCES dbo.[Employee]([id]) ON DELETE NO ACTION ON UPDATE NO ACTION",
    );

    let drop = DropForeignKey {
        table: "Post".to_string(),
        constraint_name: "Post_user_fkey".to_string(),
    };
    assert_eq!(
        renderer.render_drop_foreign_key(&drop),
        "ALTER TABLE dbo.[Post] DROP CONSTRAINT [Post_user_fkey]",
    );
}

#[test]
fn alter_table_collects_changes_into_one_statement() {
    let renderer = flavour();
    let table = Table {
        name: "User".to_string(),
        columns: vec![],
        indices: vec![],
        primary_key: None,
        foreign_keys: vec![],
    };
    let alter = AlterTable {
        table: table.clone(),
        changes: vec![
            TableChange::DropPrimaryKey {
                constraint_name: Some("PK_User".to_string()),
            },
            TableChange::DropColumn("legacy".to_string()),
            TableChange::AddColumn(column("age", ColumnTypeFamily::Int, ColumnArity::Required)),
            TableChange::AddPrimaryKey {
                columns: vec!["id".to_string(), "age".to_string()],
            },
        ],
    };
    assert_eq!(
        renderer.render_alter_table(&alter),
        vec![
            "ALTER TABLE dbo.[User] DROP CONSTRAINT [PK_User],\n\
             DROP COLUMN [legacy],\n\
             ADD COLUMN [age] int NOT NULL ,\n\
             ADD PRIMARY KEY ([id], [age])"
                .to_string(),
        ],
    );

    let empty = AlterTable {
        table,
        changes: vec![],
    };
    assert_eq!(renderer.render_alter_table(&empty), Vec::<String>::new());
}

#[test]
fn drop_and_rename_statements() {
    let renderer = flavour();
    assert_eq!(
        renderer.render_drop_table("User"),
        vec!["DROP TABLE dbo.[User]".to_string()],
    );
    assert_eq!(
        renderer.render_drop_index(&DropIndex {
            table: "User".to_string(),
            name: "User_email_unique".to_string(),
        }),
        "DROP INDEX dbo.[User_email_unique] ON dbo.[User]",
    );
    assert_eq!(
        renderer.render_rename_table("User", "Account"),
        "EXEC SP_RENAME N'dbo.User', N'Account'",
    );
    assert_eq!(
        renderer.render_alter_index(&AlterIndex {
            table: "User".to_string(),
            index_name: "old_index".to_string(),
            index_new_name: "new_index".to_string(),
        }),
        vec!["EXEC SP_RENAME N'dbo.User.old_index', N'new_index', N'INDEX'".to_string()],
    );
}
