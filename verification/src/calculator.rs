//! The schema calculator: the SQL schema the engine would create for a
//! data model — one table per model in declaration order, columns in field
//! order, the primary key from the id fields, unique indices from the
//! unique flags and index definitions, and foreign keys from the
//! relation-owning fields.

use vstd::prelude::*;
use crate::dml::{Datamodel, DatamodelV, DefaultValue as DmlDefault, DefaultValueV as DmlDefaultV,
    Field, FieldArity, FieldType, FieldTypeV, FieldV, IndexDefinition, Model, ModelV,
    OnDeleteStrategy, RelationFieldV, ScalarField, ScalarFieldV};
use crate::postgres_calc::{spec_sql_enum, PostgresFlavour};
use crate::schema::{Column, ColumnArity, ColumnType, ColumnTypeFamily, ColumnTypeFamilyV,
    ColumnTypeV, ColumnV, DefaultValue, ForeignKey, ForeignKeyAction, ForeignKeyV, Index,
    IndexType, IndexV, PrimaryKey, PrimaryKeyV, SqlFamily, SqlSchema, SqlSchemaV, Table, TableV};
use crate::strutil::{spec_join, join_strings};
use crate::sequences::{clone_string_vec, lemma_filter_map_take_succ, spec_filter_map};

verus! {

/// The column-type family a field type maps to.
pub open spec fn spec_family_for_field_type(t: FieldTypeV) -> ColumnTypeFamilyV {
    match t {
        FieldTypeV::Base(s, _) => match s {
            crate::dml::ScalarType::Int => ColumnTypeFamilyV::Int,
            crate::dml::ScalarType::Float => ColumnTypeFamilyV::Float,
            crate::dml::ScalarType::Boolean => ColumnTypeFamilyV::Boolean,
            crate::dml::ScalarType::String => ColumnTypeFamilyV::String,
            crate::dml::ScalarType::DateTime => ColumnTypeFamilyV::DateTime,
            crate::dml::ScalarType::Json => ColumnTypeFamilyV::Json,
        },
        FieldTypeV::Enum(name) => ColumnTypeFamilyV::Enum(name),
        FieldTypeV::Unsupported(text) => ColumnTypeFamilyV::Unsupported(text),
    }
}

/// The column arity a field arity maps to.
pub open spec fn spec_arity_for_field(arity: FieldArity) -> ColumnArity {
    match arity {
        FieldArity::Required => ColumnArity::Required,
        FieldArity::Optional => ColumnArity::Nullable,
        FieldArity::List => ColumnArity::List,
    }
}

/// The database name of a field: its declared database name, or its own.
pub open spec fn spec_field_db_name(f: ScalarFieldV) -> Seq<char> {
    match f.database_name {
        Some(db) => db,
        None => f.name,
    }
}

/// Whether the field's default is the `autoincrement()` generator.
pub open spec fn spec_field_is_autoincrement(f: ScalarFieldV) -> bool {
    match f.default_value {
        Some(DmlDefaultV::Expression(g)) => g.name == "autoincrement"@,
        _ => false,
    }
}

/// The column a scalar field becomes: literal defaults are carried, the
/// `autoincrement()` generator becomes the auto-increment flag, and the
/// declared native type rides along on a base field.
pub open spec fn spec_column_for_field(f: ScalarFieldV) -> ColumnV {
    ColumnV {
        name: spec_field_db_name(f),
        tpe: ColumnTypeV {
            data_type: Seq::<char>::empty(),
            full_data_type: Seq::<char>::empty(),
            character_maximum_length: None,
            family: spec_family_for_field_type(f.field_type),
            arity: spec_arity_for_field(f.arity),
            native_type: match f.field_type {
                FieldTypeV::Base(_, nt) => nt,
                _ => None,
            },
        },
        default: match f.default_value {
            Some(DmlDefaultV::Single(v)) => Some(crate::schema::DefaultValueV::VALUE(v)),
            _ => None,
        },
        auto_increment: spec_field_is_autoincrement(f),
    }
}

/// The columns of a model: one per scalar field, in field order.
pub open spec fn spec_columns_for_model(m: ModelV) -> Seq<ColumnV> {
    spec_filter_map(
        m.fields,
        |f: FieldV|
            match f {
                FieldV::ScalarField(sf) => Some(spec_column_for_field(sf)),
                FieldV::RelationField(_) => None,
            },
    )
}

/// The primary key of a model: the single field carrying the id flag, or
/// the declared compound id fields.
pub open spec fn spec_pk_for_model(m: ModelV) -> Option<PrimaryKeyV> {
    let id_fields = spec_filter_map(
        m.fields,
        |f: FieldV|
            match f {
                FieldV::ScalarField(sf) => if sf.is_id {
                    Some(spec_field_db_name(sf))
                } else {
                    None
                },
                FieldV::RelationField(_) => None,
            },
    );
    if id_fields.len() > 0 {
        Some(PrimaryKeyV { columns: id_fields, sequence: None, constraint_name: None })
    } else if m.id_fields.len() > 0 {
        Some(PrimaryKeyV { columns: m.id_fields, sequence: None, constraint_name: None })
    } else {
        None
    }
}

/// The name an index definition is created under: its declared name, or
/// its field names joined by underscores.
pub open spec fn spec_index_name(d: crate::dml::IndexDefinitionV) -> Seq<char> {
    match d.name {
        Some(n) => n,
        None => spec_join(d.fields, "_"@),
    }
}

/// The indices of a model: one single-column unique index per field marked
/// unique, named `{table}.{column}_unique`, then the declared index
/// definitions.
pub open spec fn spec_indices_for_model(m: ModelV, table_name: Seq<char>) -> Seq<IndexV> {
    spec_filter_map(
        m.fields,
        |f: FieldV|
            match f {
                FieldV::ScalarField(sf) => if sf.is_unique {
                    Some(
                        IndexV {
                            name: table_name + "."@ + spec_field_db_name(sf) + "_unique"@,
                            columns: seq![spec_field_db_name(sf)],
                            tpe: IndexType::Unique,
                        },
                    )
                } else {
                    None
                },
                FieldV::RelationField(_) => None,
            },
    ) + m.indices.map_values(
        |d: crate::dml::IndexDefinitionV|
            IndexV { name: spec_index_name(d), columns: d.fields, tpe: d.tpe },
    )
}

/// The referential action a delete strategy maps to.
pub open spec fn spec_action_for_strategy(s: OnDeleteStrategy) -> ForeignKeyAction {
    match s {
        OnDeleteStrategy::NoAction => ForeignKeyAction::NoAction,
        OnDeleteStrategy::Cascade => ForeignKeyAction::Cascade,
    }
}

/// The foreign keys of a model: one per relation field that owns its
/// relation, with the update action always `NoAction`.
pub open spec fn spec_fks_for_model(m: ModelV) -> Seq<ForeignKeyV> {
    spec_filter_map(
        m.fields,
        |f: FieldV|
            match f {
                FieldV::RelationField(rf) => if rf.relation_info.fields.len() > 0 {
                    Some(
                        ForeignKeyV {
                            constraint_name: None,
                            columns: rf.relation_info.fields,
                            referenced_table: rf.relation_info.to,
                            on_delete_action: spec_action_for_strategy(
                                rf.relation_info.on_delete,
                            ),
                            on_update_action: ForeignKeyAction::NoAction,
                            referenced_columns: rf.relation_info.to_fields,
                        },
                    )
                } else {
                    None
                },
                FieldV::ScalarField(_) => None,
            },
    )
}

/// The table a model becomes, under its database name where one is set.
pub open spec fn spec_table_for_model(m: ModelV) -> TableV {
    let table_name = match m.database_name {
        Some(db) => db,
        None => m.name,
    };
    TableV {
        name: table_name,
        columns: spec_columns_for_model(m),
        indices: spec_indices_for_model(m, table_name),
        primary_key: spec_pk_for_model(m),
        foreign_keys: spec_fks_for_model(m),
    }
}

/// The SQL schema a data model implies: one table per model that is not
/// commented out, in declaration order; native database enums on the
/// dialects that have them; no sequences.
pub open spec fn spec_calculate_sql_schema(dm: DatamodelV, family: SqlFamily) -> SqlSchemaV {
    SqlSchemaV {
        tables: spec_filter_map(
            dm.models,
            |m: ModelV|
                if m.is_commented_out {
                    None
                } else {
                    Some(spec_table_for_model(m))
                },
        ),
        enums: if family == SqlFamily::Postgres {
            dm.enums.map_values(|e: crate::dml::EnumV| spec_sql_enum(e))
        } else {
            Seq::<crate::schema::EnumV>::empty()
        },
        sequences: Seq::<crate::schema::SequenceV>::empty(),
    }
}

/// The database name of a field.
fn field_db_name(f: &ScalarField) -> (r: String)
    ensures
        r@ == spec_field_db_name(f.deep_view()),
{
    match &f.database_name {
        Some(db) => db.clone(),
        None => f.name.clone(),
    }
}

/// The column a scalar field becomes.
fn column_for_field(f: &ScalarField) -> (r: Column)
    ensures
        r.deep_view() == spec_column_for_field(f.deep_view()),
{
    let family: ColumnTypeFamily = match &f.field_type {
        FieldType::Base(s, _) => match s {
            crate::dml::ScalarType::Int => ColumnTypeFamily::Int,
            crate::dml::ScalarType::Float => ColumnTypeFamily::Float,
            crate::dml::ScalarType::Boolean => ColumnTypeFamily::Boolean,
            crate::dml::ScalarType::String => ColumnTypeFamily::String,
            crate::dml::ScalarType::DateTime => ColumnTypeFamily::DateTime,
            crate::dml::ScalarType::Json => ColumnTypeFamily::Json,
        },
        FieldType::Enum(name) => ColumnTypeFamily::Enum(name.clone()),
        FieldType::Unsupported(text) => ColumnTypeFamily::Unsupported(text.clone()),
    };
    let native_type: Option<String> = match &f.field_type {
        FieldType::Base(_, Some(nt)) => Some(nt.clone()),
        _ => None,
    };
    let auto_increment = match &f.default_value {
        Some(DmlDefault::Expression(g)) => crate::strutil::str_eq(
            g.name.as_str(),
            "autoincrement",
        ),
        _ => false,
    };
    let default: Option<DefaultValue> = match &f.default_value {
        Some(DmlDefault::Single(v)) => Some(
            DefaultValue::VALUE(crate::introspection::clone_prisma_value(v)),
        ),
        _ => None,
    };
    Column {
        name: field_db_name(f),
        tpe: ColumnType {
            data_type: String::new(),
            full_data_type: String::new(),
            character_maximum_length: None,
            family,
            arity: match f.arity {
                FieldArity::Required => ColumnArity::Required,
                FieldArity::Optional => ColumnArity::Nullable,
                FieldArity::List => ColumnArity::List,
            },
            native_type,
        },
        default,
        auto_increment,
    }
}

/// The table a model becomes.
fn table_for_model(m: &Model) -> (r: Table)
    ensures
        r.deep_view() == spec_table_for_model(m.deep_view()),
{
    let ghost mv = m.deep_view();
    let table_name: String = match &m.database_name {
        Some(db) => db.clone(),
        None => m.name.clone(),
    };

    // Columns: one per scalar field.
    let ghost colf = |f: FieldV|
        match f {
            FieldV::ScalarField(sf) => Some(spec_column_for_field(sf)),
            FieldV::RelationField(_) => None,
        };
    let mut columns: Vec<Column> = Vec::new();
    let mut i: usize = 0;
    proof {
        assert(spec_filter_map(mv.fields.take(0int), colf) =~= Seq::<ColumnV>::empty());
        assert(columns.deep_view() =~= spec_filter_map(mv.fields.take(0int), colf));
    }
    while i < m.fields.len()
        invariant
            i <= m.fields@.len(),
            mv == m.deep_view(),
            mv.fields.len() == m.fields@.len(),
            colf == (|f: FieldV|
                match f {
                    FieldV::ScalarField(sf) => Some(spec_column_for_field(sf)),
                    FieldV::RelationField(_) => None,
                }),
            columns.deep_view() == spec_filter_map(mv.fields.take(i as int), colf),
        decreases m.fields@.len() - i,
    {
        let ghost before = columns.deep_view();
        match &m.fields[i] {
            Field::ScalarField(sf) => {
                columns.push(column_for_field(sf));
                proof {
                    assert(columns.deep_view() =~= before.push(
                        columns@[columns@.len() - 1].deep_view(),
                    ));
                }
            },
            Field::RelationField(_) => {},
        }
        proof {
            lemma_filter_map_take_succ(mv.fields, colf, i as int);
        }
        i = i + 1;
    }
    proof {
        assert(mv.fields.take(mv.fields.len() as int) =~= mv.fields);
    }

    // Primary key: the id-flagged fields, or the declared compound id.
    let ghost idf = |f: FieldV|
        match f {
            FieldV::ScalarField(sf) => if sf.is_id {
                Some(spec_field_db_name(sf))
            } else {
                None
            },
            FieldV::RelationField(_) => None,
        };
    let mut id_columns: Vec<String> = Vec::new();
    let mut j: usize = 0;
    proof {
        assert(spec_filter_map(mv.fields.take(0int), idf) =~= Seq::<Seq<char>>::empty());
        assert(id_columns.deep_view() =~= spec_filter_map(mv.fields.take(0int), idf));
    }
    while j < m.fields.len()
        invariant
            j <= m.fields@.len(),
            mv == m.deep_view(),
            mv.fields.len() == m.fields@.len(),
            idf == (|f: FieldV|
                match f {
                    FieldV::ScalarField(sf) => if sf.is_id {
                        Some(spec_field_db_name(sf))
                    } else {
                        None
                    },
                    FieldV::RelationField(_) => None,
                }),
            id_columns.deep_view() == spec_filter_map(mv.fields.take(j as int), idf),
        decreases m.fields@.len() - j,
    {
        let ghost before = id_columns.deep_view();
        match &m.fields[j] {
            Field::ScalarField(sf) => {
                if sf.is_id {
                    id_columns.push(field_db_name(sf));
                    proof {
                        assert(id_columns.deep_view() =~= before.push(
                            id_columns@[id_columns@.len() - 1]@,
                        ));
                    }
                }
            },
            Field::RelationField(_) => {},
        }
        proof {
            lemma_filter_map_take_succ(mv.fields, idf, j as int);
        }
        j = j + 1;
    }
    proof {
        assert(mv.fields.take(mv.fields.len() as int) =~= mv.fields);
    }
    let primary_key: Option<PrimaryKey> = if id_columns.len() > 0 {
        Some(PrimaryKey { columns: id_columns, sequence: None, constraint_name: None })
    } else if m.id_fields.len() > 0 {
        Some(
            PrimaryKey {
                columns: clone_string_vec(&m.id_fields),
                sequence: None,
                constraint_name: None,
            },
        )
    } else {
        None
    };
    proof {
        assert(primary_key.deep_view() =~= spec_pk_for_model(mv));
    }

    // Indices: unique flags first, then the declared definitions.
    let ghost tn = table_name@;
    let ghost uniqf = |f: FieldV|
        match f {
            FieldV::ScalarField(sf) => if sf.is_unique {
                Some(
                    IndexV {
                        name: tn + "."@ + spec_field_db_name(sf) + "_unique"@,
                        columns: seq![spec_field_db_name(sf)],
                        tpe: IndexType::Unique,
                    },
                )
            } else {
                None
            },
            FieldV::RelationField(_) => None,
        };
    let mut indices: Vec<Index> = Vec::new();
    let mut k: usize = 0;
    proof {
        assert(spec_filter_map(mv.fields.take(0int), uniqf) =~= Seq::<IndexV>::empty());
        assert(indices.deep_view() =~= spec_filter_map(mv.fields.take(0int), uniqf));
    }
    while k < m.fields.len()
        invariant
            k <= m.fields@.len(),
            mv == m.deep_view(),
            tn == table_name@,
            mv.fields.len() == m.fields@.len(),
            uniqf == (|f: FieldV|
                match f {
                    FieldV::ScalarField(sf) => if sf.is_unique {
                        Some(
                            IndexV {
                                name: tn + "."@ + spec_field_db_name(sf) + "_unique"@,
                                columns: seq![spec_field_db_name(sf)],
                                tpe: IndexType::Unique,
                            },
                        )
                    } else {
                        None
                    },
                    FieldV::RelationField(_) => None,
                }),
            indices.deep_view() == spec_filter_map(mv.fields.take(k as int), uniqf),
        decreases m.fields@.len() - k,
    {
        let ghost before = indices.deep_view();
        match &m.fields[k] {
            Field::ScalarField(sf) => {
                if sf.is_unique {
                    let db = field_db_name(sf);
                    let mut index_name = table_name.clone();
                    index_name.append(".");
                    index_name.append(db.as_str());
                    index_name.append("_unique");
                    let mut index_columns: Vec<String> = Vec::new();
                    index_columns.push(db);
                    indices.push(
                        Index { name: index_name, columns: index_columns, tpe: IndexType::Unique },
                    );
                    proof {
                        assert(indices@[indices@.len() - 1].deep_view().columns =~= seq![
                            spec_field_db_name(mv.fields[k as int]->ScalarField_0),
                        ]);
                        assert(indices.deep_view() =~= before.push(
                            indices@[indices@.len() - 1].deep_view(),
                        ));
                    }
                }
            },
            Field::RelationField(_) => {},
        }
        proof {
            lemma_filter_map_take_succ(mv.fields, uniqf, k as int);
        }
        k = k + 1;
    }
    proof {
        assert(mv.fields.take(mv.fields.len() as int) =~= mv.fields);
    }
    let ghost unique_part = indices.deep_view();

    let ghost defm = |d: crate::dml::IndexDefinitionV|
        IndexV { name: spec_index_name(d), columns: d.fields, tpe: d.tpe };
    let mut q: usize = 0;
    proof {
        assert(mv.indices.take(0int).map_values(defm) =~= Seq::<IndexV>::empty());
        assert(indices.deep_view() =~= unique_part + mv.indices.take(0int).map_values(defm));
    }
    while q < m.indices.len()
        invariant
            q <= m.indices@.len(),
            mv == m.deep_view(),
            mv.indices.len() == m.indices@.len(),
            defm == (|d: crate::dml::IndexDefinitionV|
                IndexV { name: spec_index_name(d), columns: d.fields, tpe: d.tpe }),
            indices.deep_view() == unique_part + mv.indices.take(q as int).map_values(defm),
        decreases m.indices@.len() - q,
    {
        let ghost before = indices.deep_view();
        let d = &m.indices[q];
        let index_name: String = match &d.name {
            Some(n) => n.clone(),
            None => join_strings(&d.fields, "_"),
        };
        indices.push(
            Index { name: index_name, columns: clone_string_vec(&d.fields), tpe: d.tpe },
        );
        proof {
            assert(indices.deep_view() =~= before.push(indices@[indices@.len() - 1].deep_view()));
            mv.indices.lemma_map_take_succ(defm, q as int);
        }
        q = q + 1;
    }
    proof {
        assert(mv.indices.take(mv.indices.len() as int) =~= mv.indices);
        assert(indices.deep_view() =~= spec_indices_for_model(mv, tn));
    }

    // Foreign keys: the relation fields that own their relation.
    let ghost fkf = |f: FieldV|
        match f {
            FieldV::RelationField(rf) => if rf.relation_info.fields.len() > 0 {
                Some(
                    ForeignKeyV {
                        constraint_name: None,
                        columns: rf.relation_info.fields,
                        referenced_table: rf.relation_info.to,
                        on_delete_action: spec_action_for_strategy(rf.relation_info.on_delete),
                        on_update_action: ForeignKeyAction::NoAction,
                        referenced_columns: rf.relation_info.to_fields,
                    },
                )
            } else {
                None
            },
            FieldV::ScalarField(_) => None,
        };
    let mut foreign_keys: Vec<ForeignKey> = Vec::new();
    let mut w: usize = 0;
    proof {
        assert(spec_filter_map(mv.fields.take(0int), fkf) =~= Seq::<ForeignKeyV>::empty());
        assert(foreign_keys.deep_view() =~= spec_filter_map(mv.fields.take(0int), fkf));
    }
    while w < m.fields.len()
        invariant
            w <= m.fields@.len(),
            mv == m.deep_view(),
            mv.fields.len() == m.fields@.len(),
            fkf == (|f: FieldV|
                match f {
                    FieldV::RelationField(rf) => if rf.relation_info.fields.len() > 0 {
                        Some(
                            ForeignKeyV {
                                constraint_name: None,
                                columns: rf.relation_info.fields,
                                referenced_table: rf.relation_info.to,
                                on_delete_action: spec_action_for_strategy(
                                    rf.relation_info.on_delete,
                                ),
                                on_update_action: ForeignKeyAction::NoAction,
                                referenced_columns: rf.relation_info.to_fields,
                            },
                        )
                    } else {
                        None
                    },
                    FieldV::ScalarField(_) => None,
                }),
            foreign_keys.deep_view() == spec_filter_map(mv.fields.take(w as int), fkf),
        decreases m.fields@.len() - w,
    {
        let ghost before = foreign_keys.deep_view();
        match &m.fields[w] {
            Field::RelationField(rf) => {
                if rf.relation_info.fields.len() > 0 {
                    foreign_keys.push(
                        ForeignKey {
                            constraint_name: None,
                            columns: clone_string_vec(&rf.relation_info.fields),
                            referenced_table: rf.relation_info.to.clone(),
                            on_delete_action: match rf.relation_info.on_delete {
                                OnDeleteStrategy::NoAction => ForeignKeyAction::NoAction,
                                OnDeleteStrategy::Cascade => ForeignKeyAction::Cascade,
                            },
                            on_update_action: ForeignKeyAction::NoAction,
                            referenced_columns: clone_string_vec(&rf.relation_info.to_fields),
                        },
                    );
                    proof {
                        assert(foreign_keys.deep_view() =~= before.push(
                            foreign_keys@[foreign_keys@.len() - 1].deep_view(),
                        ));
                    }
                }
            },
            Field::ScalarField(_) => {},
        }
        proof {
            lemma_filter_map_take_succ(mv.fields, fkf, w as int);
        }
        w = w + 1;
    }
    proof {
        assert(mv.fields.take(mv.fields.len() as int) =~= mv.fields);
    }

    let r = Table { name: table_name, columns, indices, primary_key, foreign_keys };
    proof {
        assert(r.deep_view() =~= spec_table_for_model(mv));
    }
    r
}

/// Compute the SQL schema a data model implies, for the chosen dialect.
pub fn calculate_sql_schema(data_model: &Datamodel, family: &SqlFamily) -> (r: SqlSchema)
    ensures
        r.deep_view() == spec_calculate_sql_schema(data_model.deep_view(), *family),
{
    let ghost dmv = data_model.deep_view();
    let ghost keepf = |m: ModelV|
        if m.is_commented_out {
            None
        } else {
            Some(spec_table_for_model(m))
        };
    let mut tables: Vec<Table> = Vec::new();
    let mut i: usize = 0;
    proof {
        assert(spec_filter_map(dmv.models.take(0int), keepf) =~= Seq::<TableV>::empty());
        assert(tables.deep_view() =~= spec_filter_map(dmv.models.take(0int), keepf));
    }
    while i < data_model.models.len()
        invariant
            i <= data_model.models@.len(),
            dmv == data_model.deep_view(),
            dmv.models.len() == data_model.models@.len(),
            keepf == (|m: ModelV|
                if m.is_commented_out {
                    None
                } else {
                    Some(spec_table_for_model(m))
                }),
            tables.deep_view() == spec_filter_map(dmv.models.take(i as int), keepf),
        decreases data_model.models@.len() - i,
    {
        let ghost before = tables.deep_view();
        let m = &data_model.models[i];
        if !m.is_commented_out {
            tables.push(table_for_model(m));
            proof {
                assert(tables.deep_view() =~= before.push(tables@[tables@.len() - 1].deep_view()));
            }
        }
        proof {
            lemma_filter_map_take_succ(dmv.models, keepf, i as int);
        }
        i = i + 1;
    }
    proof {
        assert(dmv.models.take(dmv.models.len() as int) =~= dmv.models);
    }

    let enums: Vec<crate::schema::Enum> = if matches!(family, SqlFamily::Postgres) {
        PostgresFlavour {}.calculate_enums(data_model)
    } else {
        Vec::new()
    };
    let r = SqlSchema { tables, enums, sequences: Vec::new() };
    proof {
        assert(r.enums.deep_view() =~= spec_calculate_sql_schema(dmv, *family).enums);
        assert(r.sequences.deep_view() =~= Seq::<crate::schema::SequenceV>::empty());
        assert(r.deep_view() =~= spec_calculate_sql_schema(dmv, *family));
    }
    r
}

} // verus!
