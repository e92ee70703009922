//! The Microsoft SQL Server renderer: DDL statements for the migration
//! steps, bit-exact per the ghost rendering functions beside each method.

use vstd::prelude::*;
use crate::schema::{spec_index_has_nullable_column, Column, ColumnArity, ColumnTypeFamily, ColumnTypeFamilyV, ColumnV,
    DefaultValue, DefaultValueV, ForeignKey, ForeignKeyAction, IndexType, IndexV, PrismaValue,
    PrismaValueV, Table, TableV};
use crate::sql_migration::{AddForeignKey, AlterIndex, AlterTable, CreateIndex, DropForeignKey,
    DropIndex, TableChange, TableChangeV};
use crate::strutil::{escape_string_literal, join_strings, spec_escape_string_literal, spec_join,
    spec_undot, replace_dots, str_eq};
use crate::sequences::{lemma_filter_map_take_succ, spec_filter_map};

verus! {

/// The flavour handle for Microsoft SQL Server: the schema every object
/// lives in.
pub struct MssqlFlavour {
    pub schema_name: String,
}

/// An identifier in brackets, as MSSQL quotes it.
pub open spec fn spec_quote(name: Seq<char>) -> Seq<char> {
    "["@ + name + "]"@
}

/// An identifier prefixed with the schema: `schema.[name]`.
pub open spec fn spec_quote_with_schema(schema: Seq<char>, name: Seq<char>) -> Seq<char> {
    schema + "."@ + spec_quote(name)
}

/// A string in single quotes, as `SP_RENAME` arguments are passed.
pub open spec fn spec_single_quoted(s: Seq<char>) -> Seq<char> {
    "'"@ + s + "'"@
}

/// The text of a database value inside rendered DDL.
pub open spec fn spec_prisma_value_text(v: PrismaValueV) -> Seq<char> {
    match v {
        PrismaValueV::String(s) => s,
        PrismaValueV::Boolean(b) => if b {
            "true"@
        } else {
            "false"@
        },
        PrismaValueV::Int(i) => crate::strutil::spec_decimal_i64(i),
        PrismaValueV::Float(s) => s,
        PrismaValueV::Enum(s) => s,
        PrismaValueV::DateTime(s) => s,
        PrismaValueV::Json(s) => s,
        PrismaValueV::Null => "null"@,
    }
}

/// The text of a database value inside rendered DDL.
pub fn prisma_value_text(v: &PrismaValue) -> (r: String)
    ensures
        r@ == spec_prisma_value_text(v.deep_view()),
{
    match v {
        PrismaValue::String(s) => s.clone(),
        PrismaValue::Boolean(b) => if *b {
            "true".to_owned()
        } else {
            "false".to_owned()
        },
        PrismaValue::Int(i) => crate::strutil::render_i64(*i),
        PrismaValue::Float(s) => s.clone(),
        PrismaValue::Enum(s) => s.clone(),
        PrismaValue::DateTime(s) => s.clone(),
        PrismaValue::Json(s) => s.clone(),
        PrismaValue::Null => "null".to_owned(),
    }
}

/// Whether rendering a default is defined for the column's family: a `NOW`
/// default is only rendered on a datetime column.
pub open spec fn spec_default_renderable(d: DefaultValueV, family: ColumnTypeFamilyV) -> bool {
    d is NOW ==> family is DateTime
}

/// The rendered default, mirroring the dialect's rules: string and enum
/// literals are quoted with their single quotes doubled, datetime values are
/// quoted verbatim, booleans become `1`/`0`, database-generated expressions
/// stay verbatim, and sequence defaults render as nothing.
pub open spec fn spec_render_default(d: DefaultValueV, family: ColumnTypeFamilyV) -> Seq<char> {
    match d {
        DefaultValueV::DBGENERATED(expr) => expr,
        DefaultValueV::NOW => if family is DateTime {
            "CURRENT_TIMESTAMP"@
        } else {
            Seq::<char>::empty()
        },
        DefaultValueV::SEQUENCE(_) => Seq::<char>::empty(),
        DefaultValueV::VALUE(v) => {
            if v is String && family is String {
                spec_single_quoted(spec_escape_string_literal(v->String_0))
            } else if v is Enum && family is Enum {
                spec_single_quoted(spec_escape_string_literal(v->Enum_0))
            } else if family is DateTime {
                spec_single_quoted(spec_prisma_value_text(v))
            } else if v is String && family is Json {
                spec_single_quoted(v->String_0)
            } else if v is Boolean && family is Boolean {
                if v->Boolean_0 {
                    "1"@
                } else {
                    "0"@
                }
            } else {
                spec_prisma_value_text(v)
            }
        },
    }
}

impl MssqlFlavour {
    /// Quote an identifier in brackets.
    pub fn quote(&self, name: &str) -> (r: String)
        ensures
            r@ == spec_quote(name@),
    {
        let mut out = String::new();
        out.append("[");
        out.append(name);
        out.append("]");
        out
    }

    /// Quote an identifier and prefix it with the schema name.
    pub fn quote_with_schema(&self, name: &str) -> (r: String)
        ensures
            r@ == spec_quote_with_schema(self.schema_name@, name@),
    {
        let mut out = String::new();
        out.append(self.schema_name.as_str());
        out.append(".");
        out.append(self.quote(name).as_str());
        out
    }

    /// Render a column default.
    pub fn render_default(&self, default: &DefaultValue, family: &ColumnTypeFamily) -> (r: String)
        requires
            spec_default_renderable(default.deep_view(), family.deep_view()),
        ensures
            r@ == spec_render_default(default.deep_view(), family.deep_view()),
    {
        match default {
            DefaultValue::DBGENERATED(expr) => expr.clone(),
            DefaultValue::NOW => "CURRENT_TIMESTAMP".to_owned(),
            DefaultValue::SEQUENCE(_) => String::new(),
            DefaultValue::VALUE(v) => {
                let quoted_escaped = matches!(
                    (v, family),
                    (PrismaValue::String(_), ColumnTypeFamily::String)
                    | (PrismaValue::Enum(_), ColumnTypeFamily::Enum(_))
                );
                if quoted_escaped {
                    let inner = match v {
                        PrismaValue::String(s) => escape_string_literal(s.as_str()),
                        PrismaValue::Enum(s) => escape_string_literal(s.as_str()),
                        _ => String::new(),
                    };
                    single_quoted(inner.as_str())
                } else if matches!(family, ColumnTypeFamily::DateTime) {
                    single_quoted(prisma_value_text(v).as_str())
                } else if matches!((v, family), (PrismaValue::String(_), ColumnTypeFamily::Json)) {
                    let inner = match v {
                        PrismaValue::String(s) => s.clone(),
                        _ => String::new(),
                    };
                    single_quoted(inner.as_str())
                } else if matches!(
                    (v, family),
                    (PrismaValue::Boolean(_), ColumnTypeFamily::Boolean),
                ) {
                    let flag = match v {
                        PrismaValue::Boolean(b) => *b,
                        _ => false,
                    };
                    if flag {
                        "1".to_owned()
                    } else {
                        "0".to_owned()
                    }
                } else {
                    prisma_value_text(v)
                }
            },
        }
    }
}

/// Wrap a string in single quotes.
fn single_quoted(s: &str) -> (r: String)
    ensures
        r@ == spec_single_quoted(s@),
{
    let mut out = String::new();
    out.append("'");
    out.append(s);
    out.append("'");
    out
}

/// The names quoted, each in brackets.
pub open spec fn spec_quote_each(names: Seq<Seq<char>>) -> Seq<Seq<char>> {
    names.map_values(|n: Seq<char>| spec_quote(n))
}

/// The names quoted and joined with `sep`.
pub open spec fn spec_quoted_list(names: Seq<Seq<char>>, sep: Seq<char>) -> Seq<char> {
    spec_join(spec_quote_each(names), sep)
}

/// The quoted names, each followed by ` IS NOT NULL`.
pub open spec fn spec_not_null_each(names: Seq<Seq<char>>) -> Seq<Seq<char>> {
    names.map_values(|n: Seq<char>| spec_quote(n) + " IS NOT NULL"@)
}

/// The SQL type for a column family, as far as the dialect renders one.
pub open spec fn spec_mssql_type(family: ColumnTypeFamilyV) -> Seq<char> {
    match family {
        ColumnTypeFamilyV::Boolean => "bit"@,
        ColumnTypeFamilyV::DateTime => "datetime2"@,
        ColumnTypeFamilyV::Float => "decimal(32,16)"@,
        ColumnTypeFamilyV::Int => "int"@,
        ColumnTypeFamilyV::String => "nvarchar(1000)"@,
        ColumnTypeFamilyV::Json => "nvarchar(1000)"@,
        _ => Seq::<char>::empty(),
    }
}

/// The families this dialect can render a column of.
pub open spec fn spec_family_renderable(family: ColumnTypeFamilyV) -> bool {
    match family {
        ColumnTypeFamilyV::Boolean => true,
        ColumnTypeFamilyV::DateTime => true,
        ColumnTypeFamilyV::Float => true,
        ColumnTypeFamilyV::Int => true,
        ColumnTypeFamilyV::String => true,
        ColumnTypeFamilyV::Json => true,
        _ => false,
    }
}

/// The column nullability clause: `NOT NULL` on required columns.
pub open spec fn spec_render_nullability(arity: ColumnArity) -> Seq<char> {
    if arity == ColumnArity::Required {
        "NOT NULL"@
    } else {
        Seq::<char>::empty()
    }
}

/// The `DEFAULT ...` part of a column: database-generated defaults are not
/// repeated in DDL.
pub open spec fn spec_column_default_part(c: ColumnV) -> Seq<char> {
    match c.default {
        Some(d) => if d is DBGENERATED {
            Seq::<char>::empty()
        } else {
            "DEFAULT "@ + spec_render_default(d, c.tpe.family)
        },
        None => Seq::<char>::empty(),
    }
}

/// Whether the dialect can render the column: the family has a type and the
/// default, if any, is renderable on the family.
pub open spec fn spec_column_renderable(c: ColumnV) -> bool {
    &&& spec_family_renderable(c.tpe.family)
    &&& match c.default {
        Some(d) => spec_default_renderable(d, c.tpe.family),
        None => true,
    }
}

/// The rendered column: `[name] type nullability default`, or the IDENTITY
/// form when the column auto-increments.
pub open spec fn spec_render_column(c: ColumnV) -> Seq<char> {
    if c.auto_increment {
        spec_quote(c.name) + " int IDENTITY(1,1)"@
    } else {
        spec_quote(c.name) + " "@ + spec_mssql_type(c.tpe.family) + " "@ + spec_render_nullability(
            c.tpe.arity,
        ) + " "@ + spec_column_default_part(c)
    }
}

/// The referential-action clause after `ON DELETE`/`ON UPDATE`.
pub open spec fn spec_action_word(action: ForeignKeyAction) -> Seq<char> {
    match action {
        ForeignKeyAction::NoAction => "NO ACTION"@,
        ForeignKeyAction::Restrict => "RESTRICT"@,
        ForeignKeyAction::Cascade => "CASCADE"@,
        ForeignKeyAction::SetNull => "SET NULL"@,
        ForeignKeyAction::SetDefault => "SET DEFAULT"@,
    }
}

/// The `REFERENCES` clause of a foreign key. A self-referencing foreign key
/// has both actions forced to `NO ACTION`, so that the dialect does not
/// reject a cascade cycle.
pub open spec fn spec_render_references(
    schema: Seq<char>,
    table: Seq<char>,
    fk: crate::schema::ForeignKeyV,
) -> Seq<char> {
    let self_relation = table == fk.referenced_table;
    let on_delete = if self_relation {
        "ON DELETE NO ACTION"@
    } else {
        "ON DELETE "@ + spec_action_word(fk.on_delete_action)
    };
    let on_update = if self_relation {
        "ON UPDATE NO ACTION"@
    } else {
        "ON UPDATE "@ + spec_action_word(fk.on_update_action)
    };
    " REFERENCES "@ + spec_quote_with_schema(schema, fk.referenced_table) + "("@
        + spec_quoted_list(fk.referenced_columns, ","@) + ") "@ + on_delete + " "@ + on_update
}

impl MssqlFlavour {
    /// Quote each name in brackets.
    fn quote_each(&self, names: &Vec<String>) -> (r: Vec<String>)
        ensures
            r.deep_view() == spec_quote_each(names.deep_view()),
    {
        let ghost src = names.deep_view();
        let mut out: Vec<String> = Vec::new();
        let mut i: usize = 0;
        proof {
            assert(out.deep_view() =~= src.take(0int).map_values(|n: Seq<char>| spec_quote(n)));
        }
        while i < names.len()
            invariant
                i <= names@.len(),
                src == names.deep_view(),
                src.len() == names@.len(),
                out.deep_view() == src.take(i as int).map_values(|n: Seq<char>| spec_quote(n)),
            decreases names@.len() - i,
        {
            let ghost prev = out.deep_view();
            let q = self.quote(names[i].as_str());
            out.push(q);
            proof {
                assert(out@.len() == prev.len() + 1);
                assert(out.deep_view() =~= prev.push(out@[out@.len() - 1]@));
                src.lemma_map_take_succ(|n: Seq<char>| spec_quote(n), i as int);
            }
            i = i + 1;
        }
        proof {
            assert(src.take(src.len() as int) =~= src);
        }
        out
    }

    /// Quote each name and add ` IS NOT NULL` after it.
    fn not_null_each(&self, names: &Vec<String>) -> (r: Vec<String>)
        ensures
            r.deep_view() == spec_not_null_each(names.deep_view()),
    {
        let ghost src = names.deep_view();
        let mut out: Vec<String> = Vec::new();
        let mut i: usize = 0;
        proof {
            assert(out.deep_view() =~= src.take(0int).map_values(
                |n: Seq<char>| spec_quote(n) + " IS NOT NULL"@,
            ));
        }
        while i < names.len()
            invariant
                i <= names@.len(),
                src == names.deep_view(),
                src.len() == names@.len(),
                out.deep_view() == src.take(i as int).map_values(
                    |n: Seq<char>| spec_quote(n) + " IS NOT NULL"@,
                ),
            decreases names@.len() - i,
        {
            let ghost prev = out.deep_view();
            let mut q = self.quote(names[i].as_str());
            q.append(" IS NOT NULL");
            out.push(q);
            proof {
                assert(out@.len() == prev.len() + 1);
                assert(out.deep_view() =~= prev.push(out@[out@.len() - 1]@));
                src.lemma_map_take_succ(|n: Seq<char>| spec_quote(n) + " IS NOT NULL"@, i as int);
            }
            i = i + 1;
        }
        proof {
            assert(src.take(src.len() as int) =~= src);
        }
        out
    }

    /// Render a column for `CREATE TABLE` or `ADD COLUMN`.
    pub fn render_column(&self, column: &Column) -> (r: String)
        requires
            spec_column_renderable(column.deep_view()),
        ensures
            r@ == spec_render_column(column.deep_view()),
    {
        let name = self.quote(column.name.as_str());
        if column.auto_increment {
            let mut out = name;
            out.append(" int IDENTITY(1,1)");
            return out;
        }
        let tpe: &str = match &column.tpe.family {
            ColumnTypeFamily::Boolean => "bit",
            ColumnTypeFamily::DateTime => "datetime2",
            ColumnTypeFamily::Float => "decimal(32,16)",
            ColumnTypeFamily::Int => "int",
            _ => "nvarchar(1000)",
        };
        let mut out = name;
        out.append(" ");
        out.append(tpe);
        out.append(" ");
        if matches!(column.tpe.arity, ColumnArity::Required) {
            out.append("NOT NULL");
        }
        out.append(" ");
        match &column.default {
            Some(d) => {
                if !matches!(d, DefaultValue::DBGENERATED(_)) {
                    out.append("DEFAULT ");
                    out.append(self.render_default(d, &column.tpe.family).as_str());
                }
            },
            None => {},
        }
        out
    }

    /// Render the `REFERENCES` clause of a foreign key on `table`.
    pub fn render_references(&self, table: &str, foreign_key: &ForeignKey) -> (r: String)
        ensures
            r@ == spec_render_references(self.schema_name@, table@, foreign_key.deep_view()),
    {
        let cols = join_strings(&self.quote_each(&foreign_key.referenced_columns), ",");
        let is_self_relation = str_eq(table, foreign_key.referenced_table.as_str());
        let mut out = String::new();
        out.append(" REFERENCES ");
        out.append(self.quote_with_schema(foreign_key.referenced_table.as_str()).as_str());
        out.append("(");
        out.append(cols.as_str());
        out.append(") ");
        if is_self_relation {
            out.append("ON DELETE NO ACTION");
        } else {
            out.append("ON DELETE ");
            out.append(action_word(&foreign_key.on_delete_action));
        }
        out.append(" ");
        if is_self_relation {
            out.append("ON UPDATE NO ACTION");
        } else {
            out.append("ON UPDATE ");
            out.append(action_word(&foreign_key.on_update_action));
        }
        out
    }

    /// Render an index creation. A unique index over nullable columns gets a
    /// filtered `WHERE ... IS NOT NULL` clause, so that its semantics match
    /// the other dialects.
    pub fn render_create_index(&self, create_index: &CreateIndex) -> (r: String)
        ensures
            r@ == spec_render_create_index(self.schema_name@, create_index.deep_view()),
    {
        let is_unique = matches!(create_index.index.tpe, IndexType::Unique);
        let mut out = String::new();
        out.append("CREATE ");
        if is_unique {
            out.append("UNIQUE ");
        }
        out.append("INDEX ");
        out.append(self.quote(replace_dots(create_index.index.name.as_str()).as_str()).as_str());
        out.append(" ON ");
        out.append(self.quote_with_schema(create_index.table.as_str()).as_str());
        out.append("(");
        out.append(join_strings(&self.quote_each(&create_index.index.columns), ", ").as_str());
        out.append(")");
        if is_unique && create_index.contains_nullable_columns {
            out.append(" WHERE ");
            out.append(
                join_strings(&self.not_null_each(&create_index.index.columns), " AND ").as_str(),
            );
        }
        out
    }

    /// Render one foreign-key addition.
    pub fn render_add_foreign_key(&self, add_foreign_key: &AddForeignKey) -> (r: String)
        ensures
            r@ == spec_render_add_foreign_key(self.schema_name@, add_foreign_key.deep_view()),
    {
        let mut out = String::new();
        out.append("ALTER TABLE ");
        out.append(self.quote_with_schema(add_foreign_key.table.as_str()).as_str());
        out.append(" ADD ");
        match &add_foreign_key.foreign_key.constraint_name {
            Some(constraint_name) => {
                out.append("CONSTRAINT ");
                out.append(self.quote(constraint_name.as_str()).as_str());
                out.append(" ");
            },
            None => {},
        }
        out.append("FOREIGN KEY (");
        out.append(
            join_strings(&self.quote_each(&add_foreign_key.foreign_key.columns), ", ").as_str(),
        );
        out.append(")");
        out.append(
            self.render_references(
                add_foreign_key.table.as_str(),
                &add_foreign_key.foreign_key,
            ).as_str(),
        );
        out
    }

    /// Render one foreign-key removal.
    pub fn render_drop_foreign_key(&self, drop_foreign_key: &DropForeignKey) -> (r: String)
        ensures
            r@ == "ALTER TABLE "@ + spec_quote_with_schema(
                self.schema_name@,
                drop_foreign_key.table@,
            ) + " DROP CONSTRAINT "@ + spec_quote(drop_foreign_key.constraint_name@),
    {
        let mut out = String::new();
        out.append("ALTER TABLE ");
        out.append(self.quote_with_schema(drop_foreign_key.table.as_str()).as_str());
        out.append(" DROP CONSTRAINT ");
        out.append(self.quote(drop_foreign_key.constraint_name.as_str()).as_str());
        out
    }

    /// Render one index removal.
    pub fn render_drop_index(&self, drop_index: &DropIndex) -> (r: String)
        ensures
            r@ == "DROP INDEX "@ + spec_quote_with_schema(self.schema_name@, drop_index.name@)
                + " ON "@ + spec_quote_with_schema(self.schema_name@, drop_index.table@),
    {
        let mut out = String::new();
        out.append("DROP INDEX ");
        out.append(self.quote_with_schema(drop_index.name.as_str()).as_str());
        out.append(" ON ");
        out.append(self.quote_with_schema(drop_index.table.as_str()).as_str());
        out
    }

    /// Render one index renaming, through the dialect's rename procedure.
    pub fn render_alter_index(&self, alter_index: &AlterIndex) -> (r: Vec<String>)
        ensures
            r.deep_view() == seq![spec_render_alter_index(self.schema_name@, alter_index.deep_view())],
    {
        let mut inner = String::new();
        inner.append(self.schema_name.as_str());
        inner.append(".");
        inner.append(alter_index.table.as_str());
        inner.append(".");
        inner.append(alter_index.index_name.as_str());
        let mut out = String::new();
        out.append("EXEC SP_RENAME N");
        out.append(single_quoted(inner.as_str()).as_str());
        out.append(", N");
        out.append(single_quoted(alter_index.index_new_name.as_str()).as_str());
        out.append(", N'INDEX'");
        let mut result: Vec<String> = Vec::new();
        result.push(out);
        proof {
            assert(result.deep_view() =~= seq![
                spec_render_alter_index(self.schema_name@, alter_index.deep_view()),
            ]);
        }
        result
    }

    /// Render one table renaming, through the dialect's rename procedure.
    pub fn render_rename_table(&self, name: &str, new_name: &str) -> (r: String)
        ensures
            r@ == "EXEC SP_RENAME N"@ + spec_single_quoted(self.schema_name@ + "."@ + name@)
                + ", N"@ + spec_single_quoted(new_name@),
    {
        let mut inner = String::new();
        inner.append(self.schema_name.as_str());
        inner.append(".");
        inner.append(name);
        let mut out = String::new();
        out.append("EXEC SP_RENAME N");
        out.append(single_quoted(inner.as_str()).as_str());
        out.append(", N");
        out.append(single_quoted(new_name).as_str());
        out
    }

    /// Render one table removal.
    pub fn render_drop_table(&self, table_name: &str) -> (r: Vec<String>)
        ensures
            r.deep_view() == seq![
                "DROP TABLE "@ + spec_quote_with_schema(self.schema_name@, table_name@),
            ],
    {
        let mut out = String::new();
        out.append("DROP TABLE ");
        out.append(self.quote_with_schema(table_name).as_str());
        let mut result: Vec<String> = Vec::new();
        result.push(out);
        proof {
            assert(result.deep_view() =~= seq![
                "DROP TABLE "@ + spec_quote_with_schema(self.schema_name@, table_name@),
            ]);
        }
        result
    }
}

/// The rendered index creation.
pub open spec fn spec_render_create_index(
    schema: Seq<char>,
    ci: crate::sql_migration::CreateIndexV,
) -> Seq<char> {
    let index_type = if ci.index.tpe == IndexType::Unique {
        "UNIQUE "@
    } else {
        Seq::<char>::empty()
    };
    let condition = if ci.index.tpe == IndexType::Unique && ci.contains_nullable_columns {
        " WHERE "@ + spec_join(spec_not_null_each(ci.index.columns), " AND "@)
    } else {
        Seq::<char>::empty()
    };
    "CREATE "@ + index_type + "INDEX "@ + spec_quote(spec_undot(ci.index.name)) + " ON "@
        + spec_quote_with_schema(schema, ci.table) + "("@ + spec_quoted_list(
        ci.index.columns,
        ", "@,
    ) + ")"@ + condition
}

/// The rendered foreign-key addition.
pub open spec fn spec_render_add_foreign_key(
    schema: Seq<char>,
    afk: crate::sql_migration::AddForeignKeyV,
) -> Seq<char> {
    let constraint_part = match afk.foreign_key.constraint_name {
        Some(constraint_name) => "CONSTRAINT "@ + spec_quote(constraint_name) + " "@,
        None => Seq::<char>::empty(),
    };
    "ALTER TABLE "@ + spec_quote_with_schema(schema, afk.table) + " ADD "@ + constraint_part
        + "FOREIGN KEY ("@ + spec_quoted_list(afk.foreign_key.columns, ", "@) + ")"@
        + spec_render_references(schema, afk.table, afk.foreign_key)
}

/// The rendered index renaming.
pub open spec fn spec_render_alter_index(
    schema: Seq<char>,
    ai: crate::sql_migration::AlterIndexV,
) -> Seq<char> {
    "EXEC SP_RENAME N"@ + spec_single_quoted(
        schema + "."@ + ai.table + "."@ + ai.index_name,
    ) + ", N"@ + spec_single_quoted(ai.index_new_name) + ", N'INDEX'"@
}

/// Whether the dialect can render every column of the table.
pub open spec fn spec_table_renderable(t: TableV) -> bool {
    forall|i: int| 0 <= i < t.columns.len() ==> spec_column_renderable(#[trigger] t.columns[i])
}

/// The primary-key constraint inside `CREATE TABLE`, when the table has one.
pub open spec fn spec_pk_part(t: TableV) -> Seq<char> {
    match t.primary_key {
        Some(pk) => if pk.columns.len() > 0 {
            ",\nCONSTRAINT PK_"@ + t.name + "_"@ + spec_join(pk.columns, "_"@)
                + " PRIMARY KEY ("@ + spec_quoted_list(pk.columns, ","@) + ")"@
        } else {
            Seq::<char>::empty()
        },
        None => Seq::<char>::empty(),
    }
}

/// One inline unique constraint per unique index whose columns cannot be
/// null; unique indices over nullable columns are deferred to a filtered
/// `CREATE INDEX` instead.
pub open spec fn spec_unique_constraint_lines(t: TableV) -> Seq<Seq<char>> {
    spec_filter_map(
        t.indices,
        |ix: IndexV|
            if ix.tpe == IndexType::Unique && !spec_index_has_nullable_column(t, ix) {
                Some(
                    "CONSTRAINT "@ + spec_undot(ix.name) + " UNIQUE ("@ + spec_quoted_list(
                        ix.columns,
                        ","@,
                    ) + ")"@,
                )
            } else {
                None
            },
    )
}

/// The rendered `CREATE TABLE`: columns in declaration order, then the
/// primary-key constraint, then the inline unique constraints.
pub open spec fn spec_render_create_table(schema: Seq<char>, t: TableV) -> Seq<char> {
    let columns = spec_join(t.columns.map_values(|c: ColumnV| spec_render_column(c)), ",\n"@);
    let uniques = spec_unique_constraint_lines(t);
    let constraints = if uniques.len() > 0 {
        ",\n"@ + spec_join(uniques, ",\n"@)
    } else {
        Seq::<char>::empty()
    };
    "CREATE TABLE "@ + spec_quote_with_schema(schema, t.name) + " ("@ + columns + spec_pk_part(t)
        + constraints + ")"@
}

/// The rendered line of one table change.
pub open spec fn spec_render_table_change(schema: Seq<char>, c: TableChangeV) -> Seq<char> {
    match c {
        TableChangeV::DropPrimaryKey { constraint_name } => match constraint_name {
            Some(name) => "DROP CONSTRAINT "@ + spec_quote(name),
            None => Seq::<char>::empty(),
        },
        TableChangeV::AddPrimaryKey { columns } => "ADD PRIMARY KEY ("@ + spec_quoted_list(
            columns,
            ", "@,
        ) + ")"@,
        TableChangeV::AddColumn(column) => "ADD COLUMN "@ + spec_render_column(column),
        TableChangeV::DropColumn(name) => "DROP COLUMN "@ + spec_quote(name),
        TableChangeV::AlterColumn(_) => Seq::<char>::empty(),
    }
}

/// Whether the dialect can render every change of the alteration: in-place
/// column alteration is not expressible here, and a primary key can only be
/// dropped through its constraint name.
pub open spec fn spec_alter_table_renderable(t: crate::sql_migration::AlterTableV) -> bool {
    forall|i: int|
        0 <= i < t.changes.len() ==> match #[trigger] t.changes[i] {
            TableChangeV::AlterColumn(_) => false,
            TableChangeV::DropPrimaryKey { constraint_name } => constraint_name is Some,
            TableChangeV::AddColumn(column) => spec_column_renderable(column),
            _ => true,
        }
}

/// The rendered table alteration: one `ALTER TABLE` holding every change,
/// or nothing when there is no change.
pub open spec fn spec_render_alter_table(
    schema: Seq<char>,
    t: crate::sql_migration::AlterTableV,
) -> Seq<Seq<char>> {
    if t.changes.len() == 0 {
        Seq::<Seq<char>>::empty()
    } else {
        seq![
            "ALTER TABLE "@ + spec_quote_with_schema(schema, t.table.name) + " "@ + spec_join(
                t.changes.map_values(|c: TableChangeV| spec_render_table_change(schema, c)),
                ",\n"@,
            ),
        ]
    }
}

impl MssqlFlavour {
    /// Render a table creation.
    pub fn render_create_table(&self, table: &Table) -> (r: String)
        requires
            spec_table_renderable(table.deep_view()),
        ensures
            r@ == spec_render_create_table(self.schema_name@, table.deep_view()),
    {
        let ghost t = table.deep_view();
        let mut column_lines: Vec<String> = Vec::new();
        let mut i: usize = 0;
        proof {
            assert(column_lines.deep_view() =~= t.columns.take(0int).map_values(
                |c: ColumnV| spec_render_column(c),
            ));
        }
        while i < table.columns.len()
            invariant
                i <= table.columns@.len(),
                t == table.deep_view(),
                t.columns.len() == table.columns@.len(),
                spec_table_renderable(t),
                column_lines.deep_view() == t.columns.take(i as int).map_values(
                    |c: ColumnV| spec_render_column(c),
                ),
            decreases table.columns@.len() - i,
        {
            let ghost prev = column_lines.deep_view();
            proof {
                assert(spec_column_renderable(t.columns[i as int]));
            }
            let line = self.render_column(&table.columns[i]);
            column_lines.push(line);
            proof {
                assert(column_lines@.len() == prev.len() + 1);
                assert(column_lines.deep_view() =~= prev.push(
                    column_lines@[column_lines@.len() - 1]@,
                ));
                t.columns.lemma_map_take_succ(|c: ColumnV| spec_render_column(c), i as int);
            }
            i = i + 1;
        }
        proof {
            assert(t.columns.take(t.columns.len() as int) =~= t.columns);
        }
        let columns = join_strings(&column_lines, ",\n");

        let mut out = String::new();
        out.append("CREATE TABLE ");
        out.append(self.quote_with_schema(table.name.as_str()).as_str());
        out.append(" (");
        out.append(columns.as_str());

        match &table.primary_key {
            Some(pk) => {
                if pk.columns.len() > 0 {
                    out.append(",\nCONSTRAINT PK_");
                    out.append(table.name.as_str());
                    out.append("_");
                    out.append(join_strings(&pk.columns, "_").as_str());
                    out.append(" PRIMARY KEY (");
                    out.append(join_strings(&self.quote_each(&pk.columns), ",").as_str());
                    out.append(")");
                }
            },
            None => {},
        }

        let ghost f = |ix: IndexV|
            if ix.tpe == IndexType::Unique && !spec_index_has_nullable_column(t, ix) {
                Some(
                    "CONSTRAINT "@ + spec_undot(ix.name) + " UNIQUE ("@ + spec_quoted_list(
                        ix.columns,
                        ","@,
                    ) + ")"@,
                )
            } else {
                None
            };
        let mut constraint_lines: Vec<String> = Vec::new();
        let mut j: usize = 0;
        proof {
            assert(spec_filter_map(t.indices.take(0int), f) =~= Seq::<Seq<char>>::empty());
            assert(constraint_lines.deep_view() =~= spec_filter_map(t.indices.take(0int), f));
        }
        while j < table.indices.len()
            invariant
                j <= table.indices@.len(),
                t == table.deep_view(),
                t.indices.len() == table.indices@.len(),
                f == (|ix: IndexV|
                    if ix.tpe == IndexType::Unique && !spec_index_has_nullable_column(t, ix) {
                        Some(
                            "CONSTRAINT "@ + spec_undot(ix.name) + " UNIQUE ("@
                                + spec_quoted_list(ix.columns, ","@) + ")"@,
                        )
                    } else {
                        None
                    }),
                constraint_lines.deep_view() == spec_filter_map(t.indices.take(j as int), f),
            decreases table.indices@.len() - j,
        {
            let ghost prev = constraint_lines.deep_view();
            let index = &table.indices[j];
            let nullable = crate::schema::index_has_nullable_column(table, index);
            if index.is_unique() && !nullable {
                let mut line = String::new();
                line.append("CONSTRAINT ");
                line.append(replace_dots(index.name.as_str()).as_str());
                line.append(" UNIQUE (");
                line.append(join_strings(&self.quote_each(&index.columns), ",").as_str());
                line.append(")");
                constraint_lines.push(line);
                proof {
                    assert(constraint_lines@.len() == prev.len() + 1);
                    assert(constraint_lines.deep_view() =~= prev.push(
                        constraint_lines@[constraint_lines@.len() - 1]@,
                    ));
                }
            }
            proof {
                lemma_filter_map_take_succ(t.indices, f, j as int);
            }
            j = j + 1;
        }
        proof {
            assert(t.indices.take(t.indices.len() as int) =~= t.indices);
        }
        if constraint_lines.len() > 0 {
            out.append(",\n");
            out.append(join_strings(&constraint_lines, ",\n").as_str());
        }
        out.append(")");
        out
    }

    /// Render a table alteration: every change in one `ALTER TABLE`
    /// statement, or no statement at all when nothing changed.
    pub fn render_alter_table(&self, alter_table: &AlterTable) -> (r: Vec<String>)
        requires
            spec_alter_table_renderable(alter_table.deep_view()),
        ensures
            r.deep_view() == spec_render_alter_table(self.schema_name@, alter_table.deep_view()),
    {
        let ghost t = alter_table.deep_view();
        let ghost schema = self.schema_name@;
        let mut lines: Vec<String> = Vec::new();
        let mut i: usize = 0;
        proof {
            assert(lines.deep_view() =~= t.changes.take(0int).map_values(
                |c: TableChangeV| spec_render_table_change(schema, c),
            ));
        }
        while i < alter_table.changes.len()
            invariant
                i <= alter_table.changes@.len(),
                t == alter_table.deep_view(),
                schema == self.schema_name@,
                t.changes.len() == alter_table.changes@.len(),
                spec_alter_table_renderable(t),
                lines.deep_view() == t.changes.take(i as int).map_values(
                    |c: TableChangeV| spec_render_table_change(schema, c),
                ),
            decreases alter_table.changes@.len() - i,
        {
            let ghost prev = lines.deep_view();
            let mut line = String::new();
            match &alter_table.changes[i] {
                TableChange::DropPrimaryKey { constraint_name } => {
                    line.append("DROP CONSTRAINT ");
                    match constraint_name {
                        Some(name) => {
                            line.append(self.quote(name.as_str()).as_str());
                        },
                        None => {},
                    }
                },
                TableChange::AddPrimaryKey { columns } => {
                    line.append("ADD PRIMARY KEY (");
                    line.append(join_strings(&self.quote_each(columns), ", ").as_str());
                    line.append(")");
                },
                TableChange::AddColumn(column) => {
                    proof {
                        assert(match t.changes[i as int] {
                            TableChangeV::AlterColumn(_) => false,
                            TableChangeV::DropPrimaryKey { constraint_name } => constraint_name
                                is Some,
                            TableChangeV::AddColumn(c) => spec_column_renderable(c),
                            _ => true,
                        });
                    }
                    line.append("ADD COLUMN ");
                    line.append(self.render_column(column).as_str());
                },
                TableChange::DropColumn(name) => {
                    line.append("DROP COLUMN ");
                    line.append(self.quote(name.as_str()).as_str());
                },
                TableChange::AlterColumn(_) => {},
            }
            lines.push(line);
            proof {
                assert(lines@.len() == prev.len() + 1);
                assert(lines.deep_view() =~= prev.push(lines@[lines@.len() - 1]@));
                t.changes.lemma_map_take_succ(
                    |c: TableChangeV| spec_render_table_change(schema, c),
                    i as int,
                );
            }
            i = i + 1;
        }
        proof {
            assert(t.changes.take(t.changes.len() as int) =~= t.changes);
        }
        if lines.len() == 0 {
            let result: Vec<String> = Vec::new();
            proof {
                assert(result.deep_view() =~= Seq::<Seq<char>>::empty());
            }
            return result;
        }
        let mut out = String::new();
        out.append("ALTER TABLE ");
        out.append(self.quote_with_schema(alter_table.table.name.as_str()).as_str());
        out.append(" ");
        out.append(join_strings(&lines, ",\n").as_str());
        let mut result: Vec<String> = Vec::new();
        result.push(out);
        proof {
            assert(result.deep_view() =~= spec_render_alter_table(schema, t));
        }
        result
    }
}

/// The referential-action clause word.
fn action_word(action: &ForeignKeyAction) -> (r: &'static str)
    ensures
        r@ == spec_action_word(*action),
{
    match action {
        ForeignKeyAction::NoAction => "NO ACTION",
        ForeignKeyAction::Restrict => "RESTRICT",
        ForeignKeyAction::Cascade => "CASCADE",
        ForeignKeyAction::SetNull => "SET NULL",
        ForeignKeyAction::SetDefault => "SET DEFAULT",
    }
}

} // verus!
