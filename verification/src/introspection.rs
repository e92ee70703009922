//! The introspector: derive a high-level data model from a described SQL
//! schema. Scalar fields mirror columns; foreign keys become relation-field
//! pairs with deterministic names; `_AToB(A, B)` tables become implicit
//! many-to-many relations; tables without a unique identifier are kept but
//! commented out.

use vstd::prelude::*;
use crate::dml::{Datamodel, DatamodelV, DefaultValue as DmlDefault, DefaultValueV as DmlDefaultV,
    Enum as DmlEnum, EnumV as DmlEnumV, EnumValue, EnumValueV, Field, FieldArity, FieldType,
    FieldTypeV, FieldV, IndexDefinition, IndexDefinitionV, Model, ModelV, RelationField,
    RelationFieldV, RelationInfo, RelationInfoV, ScalarField, ScalarFieldV, ScalarType,
    OnDeleteStrategy, ValueGenerator, spec_autoincrement, spec_field_name};
use crate::schema::{spec_find_column, Column, ColumnArity, ColumnTypeFamily, ColumnTypeFamilyV,
    ColumnV, DefaultValue, DefaultValueV, Enum as SqlEnum, EnumV as SqlEnumV, ForeignKey,
    ForeignKeyV, IndexType, IndexV, SqlFamily, SqlSchema, SqlSchemaV, Table, TableV};
use crate::strutil::{sanitize_identifier, spec_join, spec_sanitize, str_eq, string_eq};
use crate::sequences::{lemma_filter_map_take_succ, spec_filter_map};

verus! {

/// The documentation put on a model whose table has no usable identifier.
pub open spec fn spec_no_identifier_doc() -> Seq<char> {
    "The underlying table does not contain a valid unique identifier and can therefore currently not be handled."@
}

/// The documentation put on a field whose column type is unsupported.
pub open spec fn spec_unsupported_doc() -> Seq<char> {
    "This type is currently not supported."@
}

/// The display name of a column-type family, as field names of unsupported
/// columns carry it.
pub open spec fn spec_family_name(family: ColumnTypeFamilyV) -> Seq<char> {
    match family {
        ColumnTypeFamilyV::Int => "Int"@,
        ColumnTypeFamilyV::Float => "Float"@,
        ColumnTypeFamilyV::Boolean => "Boolean"@,
        ColumnTypeFamilyV::String => "String"@,
        ColumnTypeFamilyV::DateTime => "DateTime"@,
        ColumnTypeFamilyV::Binary => "Binary"@,
        ColumnTypeFamilyV::Json => "Json"@,
        ColumnTypeFamilyV::Uuid => "Uuid"@,
        ColumnTypeFamilyV::Enum(name) => name,
        ColumnTypeFamilyV::Geometric => "Geometric"@,
        ColumnTypeFamilyV::LogSequenceNumber => "LogSequenceNumber"@,
        ColumnTypeFamilyV::TextSearch => "TextSearch"@,
        ColumnTypeFamilyV::TransactionId => "TransactionId"@,
        ColumnTypeFamilyV::Unsupported(name) => name,
    }
}

impl ColumnTypeFamily {
    /// The display name of the family.
    pub fn display_name(&self) -> (r: String)
        ensures
            r@ == spec_family_name(self.deep_view()),
    {
        match self {
            ColumnTypeFamily::Int => "Int".to_owned(),
            ColumnTypeFamily::Float => "Float".to_owned(),
            ColumnTypeFamily::Boolean => "Boolean".to_owned(),
            ColumnTypeFamily::String => "String".to_owned(),
            ColumnTypeFamily::DateTime => "DateTime".to_owned(),
            ColumnTypeFamily::Binary => "Binary".to_owned(),
            ColumnTypeFamily::Json => "Json".to_owned(),
            ColumnTypeFamily::Uuid => "Uuid".to_owned(),
            ColumnTypeFamily::Enum(name) => name.clone(),
            ColumnTypeFamily::Geometric => "Geometric".to_owned(),
            ColumnTypeFamily::LogSequenceNumber => "LogSequenceNumber".to_owned(),
            ColumnTypeFamily::TextSearch => "TextSearch".to_owned(),
            ColumnTypeFamily::TransactionId => "TransactionId".to_owned(),
            ColumnTypeFamily::Unsupported(name) => name.clone(),
        }
    }
}

/// Whether the data model has a scalar type for the family.
pub open spec fn spec_family_supported(family: ColumnTypeFamilyV) -> bool {
    match family {
        ColumnTypeFamilyV::Int => true,
        ColumnTypeFamilyV::Float => true,
        ColumnTypeFamilyV::Boolean => true,
        ColumnTypeFamilyV::String => true,
        ColumnTypeFamilyV::DateTime => true,
        ColumnTypeFamilyV::Json => true,
        ColumnTypeFamilyV::Uuid => true,
        ColumnTypeFamilyV::Enum(_) => true,
        _ => false,
    }
}

/// The field type for a column family: supported families map to their
/// scalar (`Uuid` to `String`), enums reference the enum by name, the rest
/// become `Unsupported` carrying the family's display name.
pub open spec fn spec_field_type_for_family(family: ColumnTypeFamilyV) -> FieldTypeV {
    match family {
        ColumnTypeFamilyV::Int => FieldTypeV::Base(ScalarType::Int, None),
        ColumnTypeFamilyV::Float => FieldTypeV::Base(ScalarType::Float, None),
        ColumnTypeFamilyV::Boolean => FieldTypeV::Base(ScalarType::Boolean, None),
        ColumnTypeFamilyV::String => FieldTypeV::Base(ScalarType::String, None),
        ColumnTypeFamilyV::DateTime => FieldTypeV::Base(ScalarType::DateTime, None),
        ColumnTypeFamilyV::Json => FieldTypeV::Base(ScalarType::Json, None),
        ColumnTypeFamilyV::Uuid => FieldTypeV::Base(ScalarType::String, None),
        ColumnTypeFamilyV::Enum(name) => FieldTypeV::Enum(name),
        other => FieldTypeV::Unsupported(spec_family_name(other)),
    }
}

/// The field arity for a column arity.
pub open spec fn spec_field_arity(arity: ColumnArity) -> FieldArity {
    match arity {
        ColumnArity::Required => FieldArity::Required,
        ColumnArity::Nullable => FieldArity::Optional,
        ColumnArity::List => FieldArity::List,
    }
}

/// Whether the table's primary key is exactly this one column.
pub open spec fn spec_column_is_single_pk(t: TableV, name: Seq<char>) -> bool {
    match t.primary_key {
        Some(pk) => pk.columns == seq![name],
        None => false,
    }
}

/// Whether some unique index covers exactly this one column.
pub open spec fn spec_column_has_single_unique(t: TableV, name: Seq<char>) -> bool {
    exists|i: int|
        0 <= i < t.indices.len() && #[trigger] t.indices[i].tpe == IndexType::Unique
            && t.indices[i].columns == seq![name]
}

/// The field default derived from a column: auto-increment becomes the
/// `autoincrement()` generator (schema-level sequence details are dropped),
/// a literal default is kept, and other defaults are not represented.
pub open spec fn spec_field_default(c: ColumnV) -> Option<DmlDefaultV> {
    if c.auto_increment {
        Some(DmlDefaultV::Expression(spec_autoincrement()))
    } else {
        match c.default {
            Some(DefaultValueV::VALUE(v)) => Some(DmlDefaultV::Single(v)),
            _ => None,
        }
    }
}

/// The scalar field derived from one column of `t`.
pub open spec fn spec_scalar_field(t: TableV, c: ColumnV) -> ScalarFieldV {
    let sanitized = spec_sanitize(c.name);
    let supported = spec_family_supported(c.tpe.family);
    ScalarFieldV {
        name: sanitized,
        arity: spec_field_arity(c.tpe.arity),
        field_type: spec_field_type_for_family(c.tpe.family),
        database_name: if sanitized == c.name {
            None
        } else {
            Some(c.name)
        },
        default_value: spec_field_default(c),
        is_unique: spec_column_has_single_unique(t, c.name),
        is_id: spec_column_is_single_pk(t, c.name),
        documentation: if supported {
            None
        } else {
            Some(spec_unsupported_doc())
        },
        is_generated: false,
        is_updated_at: false,
        is_commented_out: !supported,
    }
}

/// The index definitions kept on a model: single-column unique indices are
/// expressed as the field's `is_unique` flag instead; every other index is
/// kept, its column names sanitised.
pub open spec fn spec_kept_indices(t: TableV) -> Seq<IndexDefinitionV> {
    spec_filter_map(
        t.indices,
        |idx: IndexV|
            if idx.tpe == IndexType::Unique && idx.columns.len() == 1 {
                None
            } else {
                Some(
                    IndexDefinitionV {
                        name: Some(idx.name),
                        fields: idx.columns.map_values(|c: Seq<char>| spec_sanitize(c)),
                        tpe: idx.tpe,
                    },
                )
            },
    )
}

/// Whether the table carries a usable unique identifier: a primary key, or
/// some unique index.
pub open spec fn spec_table_has_identifier(t: TableV) -> bool {
    ||| match t.primary_key {
        Some(pk) => pk.columns.len() > 0,
        None => false,
    }
    ||| exists|i: int|
        0 <= i < t.indices.len() && #[trigger] t.indices[i].tpe == IndexType::Unique
}

/// The model derived from one table, before relation fields are added: the
/// scalar fields in column order, the kept indices, the compound-id fields,
/// and the commented-out marker when no identifier exists.
pub open spec fn spec_base_model(t: TableV) -> ModelV {
    let has_identifier = spec_table_has_identifier(t);
    ModelV {
        name: t.name,
        database_name: None,
        documentation: if has_identifier {
            None
        } else {
            Some(spec_no_identifier_doc())
        },
        is_embedded: false,
        is_generated: false,
        is_commented_out: !has_identifier,
        fields: t.columns.map_values(|c: ColumnV| FieldV::ScalarField(spec_scalar_field(t, c))),
        indices: spec_kept_indices(t),
        id_fields: match t.primary_key {
            Some(pk) => if pk.columns.len() > 1 {
                pk.columns.map_values(|c: Seq<char>| spec_sanitize(c))
            } else {
                Seq::<Seq<char>>::empty()
            },
            None => Seq::<Seq<char>>::empty(),
        },
    }
}

/// A fresh value equal to the given one.
pub fn clone_prisma_value(v: &crate::schema::PrismaValue) -> (r: crate::schema::PrismaValue)
    ensures
        r.deep_view() == v.deep_view(),
{
    match v {
        crate::schema::PrismaValue::String(s) => crate::schema::PrismaValue::String(s.clone()),
        crate::schema::PrismaValue::Boolean(b) => crate::schema::PrismaValue::Boolean(*b),
        crate::schema::PrismaValue::Int(i) => crate::schema::PrismaValue::Int(*i),
        crate::schema::PrismaValue::Float(s) => crate::schema::PrismaValue::Float(s.clone()),
        crate::schema::PrismaValue::Enum(s) => crate::schema::PrismaValue::Enum(s.clone()),
        crate::schema::PrismaValue::DateTime(s) => crate::schema::PrismaValue::DateTime(s.clone()),
        crate::schema::PrismaValue::Json(s) => crate::schema::PrismaValue::Json(s.clone()),
        crate::schema::PrismaValue::Null => crate::schema::PrismaValue::Null,
    }
}

/// Map a column arity to a field arity.
fn field_arity(arity: &ColumnArity) -> (r: FieldArity)
    ensures
        r == spec_field_arity(*arity),
{
    match arity {
        ColumnArity::Required => FieldArity::Required,
        ColumnArity::Nullable => FieldArity::Optional,
        ColumnArity::List => FieldArity::List,
    }
}

/// Sanitise every name of a list.
pub fn sanitize_all(names: &Vec<String>) -> (r: Vec<String>)
    ensures
        r.deep_view() == names.deep_view().map_values(|c: Seq<char>| spec_sanitize(c)),
{
    let ghost src = names.deep_view();
    let mut out: Vec<String> = Vec::new();
    let mut i: usize = 0;
    proof {
        assert(out.deep_view() =~= src.take(0int).map_values(|c: Seq<char>| spec_sanitize(c)));
    }
    while i < names.len()
        invariant
            i <= names@.len(),
            src == names.deep_view(),
            src.len() == names@.len(),
            out.deep_view() == src.take(i as int).map_values(|c: Seq<char>| spec_sanitize(c)),
        decreases names@.len() - i,
    {
        let ghost prev = out.deep_view();
        out.push(sanitize_identifier(names[i].as_str()));
        proof {
            assert(out@.len() == prev.len() + 1);
            assert(out.deep_view() =~= prev.push(out@[out@.len() - 1]@));
            src.lemma_map_take_succ(|c: Seq<char>| spec_sanitize(c), i as int);
        }
        i = i + 1;
    }
    proof {
        assert(src.take(src.len() as int) =~= src);
    }
    out
}

/// Whether the table's primary key is exactly this one column.
fn column_is_single_pk(table: &Table, name: &str) -> (r: bool)
    ensures
        r == spec_column_is_single_pk(table.deep_view(), name@),
{
    match &table.primary_key {
        Some(pk) => {
            if pk.columns.len() == 1 {
                let hit = str_eq(pk.columns[0].as_str(), name);
                proof {
                    if hit {
                        assert(table.deep_view().primary_key->Some_0.columns =~= seq![name@]);
                    } else {
                        assert(table.deep_view().primary_key->Some_0.columns != seq![name@]) by {
                            assert(table.deep_view().primary_key->Some_0.columns[0] != seq![
                                name@,
                            ][0]);
                        }
                    }
                }
                hit
            } else {
                proof {
                    assert(table.deep_view().primary_key->Some_0.columns.len() != 1);
                }
                false
            }
        },
        None => false,
    }
}

/// Whether some unique index covers exactly this one column.
fn column_has_single_unique(table: &Table, name: &str) -> (r: bool)
    ensures
        r == spec_column_has_single_unique(table.deep_view(), name@),
{
    let ghost t = table.deep_view();
    let mut i: usize = 0;
    while i < table.indices.len()
        invariant
            i <= table.indices@.len(),
            t == table.deep_view(),
            t.indices.len() == table.indices@.len(),
            forall|j: int|
                0 <= j < i ==> !(#[trigger] t.indices[j].tpe == IndexType::Unique && t.indices[
                    j
                ].columns == seq![name@]),
        decreases table.indices@.len() - i,
    {
        let index = &table.indices[i];
        if index.is_unique() && index.columns.len() == 1 && str_eq(
            index.columns[0].as_str(),
            name,
        ) {
            proof {
                assert(t.indices[i as int].columns =~= seq![name@]);
                assert(spec_column_has_single_unique(t, name@)) by {
                    assert(0 <= i < t.indices.len() && t.indices[i as int].tpe
                        == IndexType::Unique && t.indices[i as int].columns == seq![name@]);
                }
            }
            return true;
        }
        proof {
            if t.indices[i as int].columns == seq![name@] {
                assert(t.indices[i as int].columns.len() == 1);
                assert(t.indices[i as int].columns[0] == name@);
            }
        }
        i = i + 1;
    }
    false
}

/// Derive the scalar field for one column.
fn calculate_scalar_field(table: &Table, column: &Column) -> (r: ScalarField)
    ensures
        r.deep_view() == spec_scalar_field(table.deep_view(), column.deep_view()),
{
    let sanitized = sanitize_identifier(column.name.as_str());
    let database_name: Option<String> = if string_eq(&sanitized, &column.name) {
        None
    } else {
        Some(column.name.clone())
    };
    let field_type: FieldType = match &column.tpe.family {
        ColumnTypeFamily::Int => FieldType::Base(ScalarType::Int, None),
        ColumnTypeFamily::Float => FieldType::Base(ScalarType::Float, None),
        ColumnTypeFamily::Boolean => FieldType::Base(ScalarType::Boolean, None),
        ColumnTypeFamily::String => FieldType::Base(ScalarType::String, None),
        ColumnTypeFamily::DateTime => FieldType::Base(ScalarType::DateTime, None),
        ColumnTypeFamily::Json => FieldType::Base(ScalarType::Json, None),
        ColumnTypeFamily::Uuid => FieldType::Base(ScalarType::String, None),
        ColumnTypeFamily::Enum(name) => FieldType::Enum(name.clone()),
        other => FieldType::Unsupported(other.display_name()),
    };
    let supported = !matches!(field_type, FieldType::Unsupported(_));
    proof {
        assert(supported == spec_family_supported(column.deep_view().tpe.family));
    }
    let default_value: Option<DmlDefault> = if column.auto_increment {
        Some(DmlDefault::Expression(ValueGenerator::new_autoincrement()))
    } else {
        match &column.default {
            Some(DefaultValue::VALUE(v)) => Some(DmlDefault::Single(clone_prisma_value(v))),
            _ => None,
        }
    };
    ScalarField {
        name: sanitized,
        arity: field_arity(&column.tpe.arity),
        field_type,
        database_name,
        default_value,
        is_unique: column_has_single_unique(table, column.name.as_str()),
        is_id: column_is_single_pk(table, column.name.as_str()),
        documentation: if supported {
            None
        } else {
            Some("This type is currently not supported.".to_owned())
        },
        is_generated: false,
        is_updated_at: false,
        is_commented_out: !supported,
    }
}

/// Whether the table carries a usable unique identifier.
fn table_has_identifier(table: &Table) -> (r: bool)
    ensures
        r == spec_table_has_identifier(table.deep_view()),
{
    let ghost t = table.deep_view();
    match &table.primary_key {
        Some(pk) => {
            if pk.columns.len() > 0 {
                return true;
            }
        },
        None => {},
    }
    let mut i: usize = 0;
    while i < table.indices.len()
        invariant
            i <= table.indices@.len(),
            t == table.deep_view(),
            t.indices.len() == table.indices@.len(),
            forall|j: int|
                0 <= j < i ==> !(#[trigger] t.indices[j].tpe == IndexType::Unique),
        decreases table.indices@.len() - i,
    {
        let index = &table.indices[i];
        if index.is_unique() {
            proof {
                assert(spec_table_has_identifier(t)) by {
                    assert(0 <= i < t.indices.len() && t.indices[i as int].tpe
                        == IndexType::Unique);
                }
            }
            return true;
        }
        i = i + 1;
    }
    proof {
        assert(match t.primary_key {
            Some(pk) => !(pk.columns.len() > 0),
            None => true,
        });
    }
    false
}

/// Derive the base model for one table: scalar fields, kept indices, id
/// fields and the commented-out marker, without relation fields yet.
fn calculate_base_model(table: &Table) -> (r: Model)
    ensures
        r.deep_view() == spec_base_model(table.deep_view()),
{
    let ghost t = table.deep_view();
    let has_identifier = table_has_identifier(table);

    let mut fields: Vec<Field> = Vec::new();
    let mut i: usize = 0;
    proof {
        assert(fields.deep_view() =~= t.columns.take(0int).map_values(
            |c: ColumnV| FieldV::ScalarField(spec_scalar_field(t, c)),
        ));
    }
    while i < table.columns.len()
        invariant
            i <= table.columns@.len(),
            t == table.deep_view(),
            t.columns.len() == table.columns@.len(),
            fields.deep_view() == t.columns.take(i as int).map_values(
                |c: ColumnV| FieldV::ScalarField(spec_scalar_field(t, c)),
            ),
        decreases table.columns@.len() - i,
    {
        let ghost prev = fields.deep_view();
        let field = calculate_scalar_field(table, &table.columns[i]);
        fields.push(Field::ScalarField(field));
        proof {
            assert(fields@.len() == prev.len() + 1);
            assert(fields.deep_view() =~= prev.push(fields@[fields@.len() - 1].deep_view()));
            t.columns.lemma_map_take_succ(
                |c: ColumnV| FieldV::ScalarField(spec_scalar_field(t, c)),
                i as int,
            );
        }
        i = i + 1;
    }
    proof {
        assert(t.columns.take(t.columns.len() as int) =~= t.columns);
    }

    let ghost keep = |idx: IndexV|
        if idx.tpe == IndexType::Unique && idx.columns.len() == 1 {
            None
        } else {
            Some(
                IndexDefinitionV {
                    name: Some(idx.name),
                    fields: idx.columns.map_values(|c: Seq<char>| spec_sanitize(c)),
                    tpe: idx.tpe,
                },
            )
        };
    let mut indices: Vec<IndexDefinition> = Vec::new();
    let mut j: usize = 0;
    proof {
        assert(spec_filter_map(t.indices.take(0int), keep) =~= Seq::<IndexDefinitionV>::empty());
        assert(indices.deep_view() =~= spec_filter_map(t.indices.take(0int), keep));
    }
    while j < table.indices.len()
        invariant
            j <= table.indices@.len(),
            t == table.deep_view(),
            t.indices.len() == table.indices@.len(),
            keep == (|idx: IndexV|
                if idx.tpe == IndexType::Unique && idx.columns.len() == 1 {
                    None
                } else {
                    Some(
                        IndexDefinitionV {
                            name: Some(idx.name),
                            fields: idx.columns.map_values(|c: Seq<char>| spec_sanitize(c)),
                            tpe: idx.tpe,
                        },
                    )
                }),
            indices.deep_view() == spec_filter_map(t.indices.take(j as int), keep),
        decreases table.indices@.len() - j,
    {
        let ghost prev = indices.deep_view();
        let index = &table.indices[j];
        if !(index.is_unique() && index.columns.len() == 1) {
            let definition = IndexDefinition {
                name: Some(index.name.clone()),
                fields: sanitize_all(&index.columns),
                tpe: index.tpe,
            };
            indices.push(definition);
            proof {
                assert(indices@.len() == prev.len() + 1);
                assert(indices.deep_view() =~= prev.push(
                    indices@[indices@.len() - 1].deep_view(),
                ));
            }
        }
        proof {
            lemma_filter_map_take_succ(t.indices, keep, j as int);
        }
        j = j + 1;
    }
    proof {
        assert(t.indices.take(t.indices.len() as int) =~= t.indices);
    }

    let id_fields: Vec<String> = match &table.primary_key {
        Some(pk) => {
            if pk.columns.len() > 1 {
                sanitize_all(&pk.columns)
            } else {
                Vec::new()
            }
        },
        None => Vec::new(),
    };
    proof {
        assert(id_fields.deep_view() =~= spec_base_model(t).id_fields);
    }

    Model {
        name: table.name.clone(),
        database_name: None,
        documentation: if has_identifier {
            None
        } else {
            Some(
                "The underlying table does not contain a valid unique identifier and can therefore currently not be handled.".to_owned(),
            )
        },
        is_embedded: false,
        is_generated: false,
        is_commented_out: !has_identifier,
        fields,
        indices,
        id_fields,
    }
}

// --- implicit join tables -------------------------------------------------

/// The first foreign key of the list whose local columns are exactly the
/// one given name.
pub open spec fn spec_fk_with_single_column(fks: Seq<ForeignKeyV>, col: Seq<char>) -> Option<
    ForeignKeyV,
>
    decreases fks.len(),
{
    if fks.len() == 0 {
        None
    } else if fks[0].columns == seq![col] {
        Some(fks[0])
    } else {
        spec_fk_with_single_column(fks.drop_first(), col)
    }
}

proof fn lemma_fk_with_single_column_skip(fks: Seq<ForeignKeyV>, col: Seq<char>, i: int)
    requires
        0 <= i <= fks.len(),
        forall|j: int| 0 <= j < i ==> fks[j].columns != seq![col],
    ensures
        spec_fk_with_single_column(fks, col) == spec_fk_with_single_column(fks.skip(i), col),
    decreases i,
{
    if i > 0 {
        lemma_fk_with_single_column_skip(fks, col, i - 1);
        let shorter = fks.skip(i - 1);
        assert(shorter[0] == fks[i - 1]);
        assert(shorter.drop_first() =~= fks.skip(i));
    } else {
        assert(fks.skip(0) =~= fks);
    }
}

/// The first foreign key of the table whose local columns are exactly the
/// one given name.
fn fk_with_single_column<'a>(table: &'a Table, col: &str) -> (r: Option<&'a ForeignKey>)
    ensures
        match r {
            Some(fk) => spec_fk_with_single_column(table.deep_view().foreign_keys, col@) == Some(
                fk.deep_view(),
            ),
            None => spec_fk_with_single_column(table.deep_view().foreign_keys, col@) is None,
        },
{
    let ghost fks = table.deep_view().foreign_keys;
    let mut i: usize = 0;
    while i < table.foreign_keys.len()
        invariant
            i <= table.foreign_keys@.len(),
            fks == table.deep_view().foreign_keys,
            fks.len() == table.foreign_keys@.len(),
            forall|j: int| 0 <= j < i ==> fks[j].columns != seq![col@],
        decreases table.foreign_keys@.len() - i,
    {
        let fk = &table.foreign_keys[i];
        if fk.columns.len() == 1 && str_eq(fk.columns[0].as_str(), col) {
            proof {
                assert(fks[i as int].columns =~= seq![col@]);
                lemma_fk_with_single_column_skip(fks, col@, i as int);
                assert(fks.skip(i as int)[0] == fks[i as int]);
            }
            return Some(fk);
        }
        proof {
            if fks[i as int].columns == seq![col@] {
                assert(fks[i as int].columns.len() == 1);
                assert(fks[i as int].columns[0] == col@);
            }
        }
        i = i + 1;
    }
    proof {
        lemma_fk_with_single_column_skip(fks, col@, fks.len() as int);
        assert(fks.skip(fks.len() as int) =~= Seq::<ForeignKeyV>::empty());
    }
    None
}

/// Whether the index is the unique `(A, B)` index of a join table.
pub open spec fn spec_index_is_ab_unique(idx: IndexV) -> bool {
    idx.tpe == IndexType::Unique && (idx.columns == seq!["A"@, "B"@] || idx.columns == seq![
        "B"@,
        "A"@,
    ])
}

/// Whether the table is an implicit many-to-many join table: named with a
/// leading underscore, exactly the two columns `A` and `B`, one
/// single-column foreign key on each, and a unique index over the pair.
pub open spec fn spec_is_join_table(t: TableV) -> bool {
    &&& t.name.len() > 0
    &&& t.name[0] == '_'
    &&& t.columns.len() == 2
    &&& ((t.columns[0].name == "A"@ && t.columns[1].name == "B"@) || (t.columns[0].name == "B"@
        && t.columns[1].name == "A"@))
    &&& t.foreign_keys.len() == 2
    &&& spec_fk_with_single_column(t.foreign_keys, "A"@) is Some
    &&& spec_fk_with_single_column(t.foreign_keys, "B"@) is Some
    &&& exists|i: int| 0 <= i < t.indices.len() && spec_index_is_ab_unique(#[trigger] t.indices[i])
}

/// Whether the table is an implicit many-to-many join table.
pub fn is_join_table(table: &Table) -> (r: bool)
    ensures
        r == spec_is_join_table(table.deep_view()),
{
    let ghost t = table.deep_view();
    let name_len = table.name.as_str().unicode_len();
    if name_len == 0 || table.name.as_str().get_char(0) != '_' {
        return false;
    }
    if table.columns.len() != 2 {
        return false;
    }
    let first_a = str_eq(table.columns[0].name.as_str(), "A") && str_eq(
        table.columns[1].name.as_str(),
        "B",
    );
    let first_b = str_eq(table.columns[0].name.as_str(), "B") && str_eq(
        table.columns[1].name.as_str(),
        "A",
    );
    if !(first_a || first_b) {
        return false;
    }
    if table.foreign_keys.len() != 2 {
        return false;
    }
    if fk_with_single_column(table, "A").is_none() {
        return false;
    }
    if fk_with_single_column(table, "B").is_none() {
        return false;
    }
    let mut i: usize = 0;
    while i < table.indices.len()
        invariant
            i <= table.indices@.len(),
            t == table.deep_view(),
            t.indices.len() == table.indices@.len(),
            t.name.len() > 0,
            t.name[0] == '_',
            t.columns.len() == 2,
            (t.columns[0].name == "A"@ && t.columns[1].name == "B"@) || (t.columns[0].name
                == "B"@ && t.columns[1].name == "A"@),
            t.foreign_keys.len() == 2,
            spec_fk_with_single_column(t.foreign_keys, "A"@) is Some,
            spec_fk_with_single_column(t.foreign_keys, "B"@) is Some,
            forall|j: int| 0 <= j < i ==> !spec_index_is_ab_unique(#[trigger] t.indices[j]),
        decreases table.indices@.len() - i,
    {
        let index = &table.indices[i];
        if index.is_unique() && index.columns.len() == 2 {
            let ab = str_eq(index.columns[0].as_str(), "A") && str_eq(
                index.columns[1].as_str(),
                "B",
            );
            let ba = str_eq(index.columns[0].as_str(), "B") && str_eq(
                index.columns[1].as_str(),
                "A",
            );
            if ab || ba {
                proof {
                    assert(t.indices[i as int].columns =~= seq![
                        index.columns@[0]@,
                        index.columns@[1]@,
                    ]);
                    assert(spec_index_is_ab_unique(t.indices[i as int]));
                    assert(exists|j: int|
                        0 <= j < t.indices.len() && spec_index_is_ab_unique(
                            #[trigger] t.indices[j],
                        )) by {
                        assert(0 <= i < t.indices.len() && spec_index_is_ab_unique(
                            t.indices[i as int],
                        ));
                    }
                    assert(t.columns.len() == 2);
                }
                return true;
            }
        }
        proof {
            if spec_index_is_ab_unique(t.indices[i as int]) {
                assert(t.indices[i as int].columns.len() == 2);
                assert(t.indices[i as int].columns[0] == seq!["A"@, "B"@][0] || t.indices[
                    i as int
                ].columns[0] == seq!["B"@, "A"@][0]);
            }
        }
        i = i + 1;
    }
    false
}

// --- relation naming ------------------------------------------------------

/// The foreign keys of the list that reference the given table.
pub open spec fn spec_fks_to(fks: Seq<ForeignKeyV>, referenced: Seq<char>) -> Seq<ForeignKeyV> {
    spec_filter_map(
        fks,
        |k: ForeignKeyV|
            if k.referenced_table == referenced {
                Some(k)
            } else {
                None
            },
    )
}

/// The relation name of a foreign key: `{A}To{B}` with the model names in
/// lexicographic order; a second foreign key to the same table, or a
/// self-reference, disambiguates by splicing the local column list after
/// the owning model's name.
pub open spec fn spec_relation_name(t: TableV, fk: ForeignKeyV) -> Seq<char> {
    let referenced = fk.referenced_table;
    let ambiguous = spec_fks_to(t.foreign_keys, referenced).len() >= 2 || t.name == referenced;
    let cols = spec_join(fk.columns, "_"@);
    if !ambiguous {
        if crate::strutil::spec_str_lt(t.name, referenced) {
            t.name + "To"@ + referenced
        } else {
            referenced + "To"@ + t.name
        }
    } else {
        if crate::strutil::spec_str_lt(t.name, referenced) {
            t.name + "_"@ + cols + "To"@ + referenced
        } else {
            referenced + "To"@ + t.name + "_"@ + cols
        }
    }
}

/// The relation name of a foreign key of `table`.
fn relation_name(table: &Table, fk: &ForeignKey) -> (r: String)
    ensures
        r@ == spec_relation_name(table.deep_view(), fk.deep_view()),
{
    let ghost t = table.deep_view();
    let ghost fkv = fk.deep_view();
    let ghost pick = |k: ForeignKeyV|
        if k.referenced_table == fkv.referenced_table {
            Some(k)
        } else {
            None
        };
    let mut count: usize = 0;
    let mut i: usize = 0;
    proof {
        assert(spec_filter_map(t.foreign_keys.take(0int), pick) =~= Seq::<ForeignKeyV>::empty());
    }
    while i < table.foreign_keys.len()
        invariant
            i <= table.foreign_keys@.len(),
            t == table.deep_view(),
            fkv == fk.deep_view(),
            t.foreign_keys.len() == table.foreign_keys@.len(),
            pick == (|k: ForeignKeyV|
                if k.referenced_table == fkv.referenced_table {
                    Some(k)
                } else {
                    None
                }),
            count == spec_filter_map(t.foreign_keys.take(i as int), pick).len(),
            count <= i,
        decreases table.foreign_keys@.len() - i,
    {
        if str_eq(
            table.foreign_keys[i].referenced_table.as_str(),
            fk.referenced_table.as_str(),
        ) {
            count = count + 1;
        }
        proof {
            lemma_filter_map_take_succ(t.foreign_keys, pick, i as int);
        }
        i = i + 1;
    }
    proof {
        assert(t.foreign_keys.take(t.foreign_keys.len() as int) =~= t.foreign_keys);
    }
    let self_reference = str_eq(table.name.as_str(), fk.referenced_table.as_str());
    let ambiguous = count >= 2 || self_reference;
    let owner_first = crate::strutil::str_lt(table.name.as_str(), fk.referenced_table.as_str());
    let mut out = String::new();
    if !ambiguous {
        if owner_first {
            out.append(table.name.as_str());
            out.append("To");
            out.append(fk.referenced_table.as_str());
        } else {
            out.append(fk.referenced_table.as_str());
            out.append("To");
            out.append(table.name.as_str());
        }
    } else {
        let cols = crate::strutil::join_strings(&fk.columns, "_");
        if owner_first {
            out.append(table.name.as_str());
            out.append("_");
            out.append(cols.as_str());
            out.append("To");
            out.append(fk.referenced_table.as_str());
        } else {
            out.append(fk.referenced_table.as_str());
            out.append("To");
            out.append(table.name.as_str());
            out.append("_");
            out.append(cols.as_str());
        }
    }
    out
}

// --- relation fields ------------------------------------------------------

/// Whether every local column of the foreign key is required on its table.
pub open spec fn spec_fk_all_required(t: TableV, fk: ForeignKeyV) -> bool {
    forall|i: int|
        0 <= i < fk.columns.len() ==> match spec_find_column(t.columns, #[trigger] fk.columns[i]) {
            Some(c) => c.tpe.arity == ColumnArity::Required,
            None => false,
        }
}

/// Whether every local column of the foreign key is required on `table`.
fn fk_all_required(table: &Table, fk: &ForeignKey) -> (r: bool)
    ensures
        r == spec_fk_all_required(table.deep_view(), fk.deep_view()),
{
    let ghost t = table.deep_view();
    let ghost fkv = fk.deep_view();
    let mut i: usize = 0;
    while i < fk.columns.len()
        invariant
            i <= fk.columns@.len(),
            t == table.deep_view(),
            fkv == fk.deep_view(),
            fkv.columns.len() == fk.columns@.len(),
            forall|j: int|
                0 <= j < i ==> match spec_find_column(t.columns, #[trigger] fkv.columns[j]) {
                    Some(c) => c.tpe.arity == ColumnArity::Required,
                    None => false,
                },
        decreases fk.columns@.len() - i,
    {
        let required = match table.find_column(fk.columns[i].as_str()) {
            Some(c) => matches!(c.tpe.arity, ColumnArity::Required),
            None => false,
        };
        if !required {
            proof {
                assert(fkv.columns[i as int] == fk.columns@[i as int]@);
                assert(!spec_fk_all_required(t, fkv)) by {
                    assert(!match spec_find_column(t.columns, fkv.columns[i as int]) {
                        Some(c) => c.tpe.arity == ColumnArity::Required,
                        None => false,
                    });
                }
            }
            return false;
        }
        i = i + 1;
    }
    true
}

/// Whether the two column lists name the same set of columns.
pub open spec fn spec_same_column_set(a: Seq<Seq<char>>, b: Seq<Seq<char>>) -> bool {
    &&& a.len() == b.len()
    &&& forall|i: int| 0 <= i < a.len() ==> b.contains(#[trigger] a[i])
    &&& forall|i: int| 0 <= i < b.len() ==> a.contains(#[trigger] b[i])
}

/// Whether the list of names holds `name`.
fn names_contain(names: &Vec<String>, name: &str) -> (r: bool)
    ensures
        r == names.deep_view().contains(name@),
{
    let ghost src = names.deep_view();
    let mut i: usize = 0;
    while i < names.len()
        invariant
            i <= names@.len(),
            src == names.deep_view(),
            src.len() == names@.len(),
            forall|j: int| 0 <= j < i ==> src[j] != name@,
        decreases names@.len() - i,
    {
        if str_eq(names[i].as_str(), name) {
            proof {
                assert(src.contains(name@)) by {
                    assert(src[i as int] == name@);
                }
            }
            return true;
        }
        i = i + 1;
    }
    proof {
        assert(!src.contains(name@));
    }
    false
}

/// Whether the two column lists name the same set of columns.
fn same_column_set(a: &Vec<String>, b: &Vec<String>) -> (r: bool)
    ensures
        r == spec_same_column_set(a.deep_view(), b.deep_view()),
{
    let ghost av = a.deep_view();
    let ghost bv = b.deep_view();
    if a.len() != b.len() {
        proof {
            assert(av.len() == a@.len() && bv.len() == b@.len());
        }
        return false;
    }
    let mut i: usize = 0;
    while i < a.len()
        invariant
            i <= a@.len(),
            av == a.deep_view(),
            bv == b.deep_view(),
            av.len() == a@.len(),
            bv.len() == b@.len(),
            av.len() == bv.len(),
            forall|j: int| 0 <= j < i ==> bv.contains(#[trigger] av[j]),
        decreases a@.len() - i,
    {
        if !names_contain(b, a[i].as_str()) {
            proof {
                assert(!spec_same_column_set(av, bv)) by {
                    assert(0 <= i < av.len() && !bv.contains(av[i as int]));
                }
            }
            return false;
        }
        i = i + 1;
    }
    let mut j: usize = 0;
    while j < b.len()
        invariant
            j <= b@.len(),
            av == a.deep_view(),
            bv == b.deep_view(),
            av.len() == a@.len(),
            bv.len() == b@.len(),
            av.len() == bv.len(),
            forall|k: int| 0 <= k < av.len() ==> bv.contains(#[trigger] av[k]),
            forall|k: int| 0 <= k < j ==> av.contains(#[trigger] bv[k]),
        decreases b@.len() - j,
    {
        if !names_contain(a, b[j].as_str()) {
            proof {
                assert(!spec_same_column_set(av, bv)) by {
                    assert(0 <= j < bv.len() && !av.contains(bv[j as int]));
                }
            }
            return false;
        }
        j = j + 1;
    }
    true
}

/// Whether a unique index of `t` covers exactly the foreign key's columns,
/// which makes the inferred relation one-to-one.
pub open spec fn spec_fk_is_one_to_one(t: TableV, fk: ForeignKeyV) -> bool {
    exists|i: int|
        0 <= i < t.indices.len() && (#[trigger] t.indices[i]).tpe == IndexType::Unique
            && spec_same_column_set(t.indices[i].columns, fk.columns)
}

/// Whether a unique index of `table` covers exactly the foreign key's
/// columns.
fn fk_is_one_to_one(table: &Table, fk: &ForeignKey) -> (r: bool)
    ensures
        r == spec_fk_is_one_to_one(table.deep_view(), fk.deep_view()),
{
    let ghost t = table.deep_view();
    let ghost fkv = fk.deep_view();
    let mut i: usize = 0;
    while i < table.indices.len()
        invariant
            i <= table.indices@.len(),
            t == table.deep_view(),
            fkv == fk.deep_view(),
            t.indices.len() == table.indices@.len(),
            forall|j: int|
                0 <= j < i ==> !((#[trigger] t.indices[j]).tpe == IndexType::Unique
                    && spec_same_column_set(t.indices[j].columns, fkv.columns)),
        decreases table.indices@.len() - i,
    {
        let index = &table.indices[i];
        if index.is_unique() && same_column_set(&index.columns, &fk.columns) {
            proof {
                assert(spec_fk_is_one_to_one(t, fkv)) by {
                    assert(0 <= i < t.indices.len() && t.indices[i as int].tpe
                        == IndexType::Unique && spec_same_column_set(
                        t.indices[i as int].columns,
                        fkv.columns,
                    ));
                }
            }
            return true;
        }
        i = i + 1;
    }
    false
}

/// The relation field placed on the model owning the foreign key.
pub open spec fn spec_forward_field(t: TableV, fk: ForeignKeyV) -> FieldV {
    FieldV::RelationField(
        RelationFieldV {
            name: fk.referenced_table,
            arity: if spec_fk_all_required(t, fk) {
                FieldArity::Required
            } else {
                FieldArity::Optional
            },
            relation_info: RelationInfoV {
                to: fk.referenced_table,
                fields: fk.columns.map_values(|c: Seq<char>| spec_sanitize(c)),
                to_fields: fk.referenced_columns.map_values(|c: Seq<char>| spec_sanitize(c)),
                name: spec_relation_name(t, fk),
                on_delete: OnDeleteStrategy::NoAction,
            },
        },
    )
}

/// The back-reference field placed on the referenced model: a list, unless
/// a unique index over the foreign key's columns makes the relation
/// one-to-one; on a self-relation its name is prefixed with `other_`.
pub open spec fn spec_back_field(t: TableV, fk: ForeignKeyV) -> FieldV {
    FieldV::RelationField(
        RelationFieldV {
            name: if t.name == fk.referenced_table {
                "other_"@ + t.name
            } else {
                t.name
            },
            arity: if spec_fk_is_one_to_one(t, fk) {
                FieldArity::Optional
            } else {
                FieldArity::List
            },
            relation_info: RelationInfoV {
                to: t.name,
                fields: Seq::<Seq<char>>::empty(),
                to_fields: Seq::<Seq<char>>::empty(),
                name: spec_relation_name(t, fk),
                on_delete: OnDeleteStrategy::NoAction,
            },
        },
    )
}

/// The relation field placed on the model owning the foreign key.
fn forward_field(table: &Table, fk: &ForeignKey) -> (r: Field)
    ensures
        r.deep_view() == spec_forward_field(table.deep_view(), fk.deep_view()),
{
    let arity = if fk_all_required(table, fk) {
        FieldArity::Required
    } else {
        FieldArity::Optional
    };
    Field::RelationField(RelationField {
        name: fk.referenced_table.clone(),
        arity,
        relation_info: RelationInfo {
            to: fk.referenced_table.clone(),
            fields: sanitize_all(&fk.columns),
            to_fields: sanitize_all(&fk.referenced_columns),
            name: relation_name(table, fk),
            on_delete: OnDeleteStrategy::NoAction,
        },
    })
}

/// The back-reference field placed on the referenced model.
fn back_field(table: &Table, fk: &ForeignKey) -> (r: Field)
    ensures
        r.deep_view() == spec_back_field(table.deep_view(), fk.deep_view()),
{
    let self_relation = str_eq(table.name.as_str(), fk.referenced_table.as_str());
    let name = if self_relation {
        crate::strutil::concat_str("other_", table.name.as_str())
    } else {
        table.name.clone()
    };
    let arity = if fk_is_one_to_one(table, fk) {
        FieldArity::Optional
    } else {
        FieldArity::List
    };
    let r = Field::RelationField(RelationField {
        name,
        arity,
        relation_info: RelationInfo {
            to: table.name.clone(),
            fields: Vec::new(),
            to_fields: Vec::new(),
            name: relation_name(table, fk),
            on_delete: OnDeleteStrategy::NoAction,
        },
    });
    proof {
        assert(r.deep_view() =~= spec_back_field(table.deep_view(), fk.deep_view()));
    }
    r
}

// --- placing relation fields on models ------------------------------------

/// The model with one more field at the end.
pub open spec fn spec_with_extra_field(m: ModelV, f: FieldV) -> ModelV {
    ModelV {
        name: m.name,
        database_name: m.database_name,
        documentation: m.documentation,
        is_embedded: m.is_embedded,
        is_generated: m.is_generated,
        is_commented_out: m.is_commented_out,
        fields: m.fields.push(f),
        indices: m.indices,
        id_fields: m.id_fields,
    }
}

/// The models with `f` appended to the first model named `target`; no model
/// of that name leaves the list unchanged.
pub open spec fn spec_push_field(models: Seq<ModelV>, target: Seq<char>, f: FieldV) -> Seq<ModelV>
    decreases models.len(),
{
    if models.len() == 0 {
        models
    } else if models[0].name == target {
        seq![spec_with_extra_field(models[0], f)] + models.drop_first()
    } else {
        seq![models[0]] + spec_push_field(models.drop_first(), target, f)
    }
}

proof fn lemma_push_field_at(models: Seq<ModelV>, target: Seq<char>, f: FieldV, k: int)
    requires
        0 <= k < models.len(),
        models[k].name == target,
        forall|j: int| 0 <= j < k ==> models[j].name != target,
    ensures
        spec_push_field(models, target, f) == models.update(
            k,
            spec_with_extra_field(models[k], f),
        ),
    decreases k,
{
    if k == 0 {
        assert(seq![spec_with_extra_field(models[0], f)] + models.drop_first() =~= models.update(
            0,
            spec_with_extra_field(models[0], f),
        ));
    } else {
        lemma_push_field_at(models.drop_first(), target, f, k - 1);
        assert(models.drop_first()[k - 1] == models[k]);
        assert(seq![models[0]] + models.drop_first().update(
            k - 1,
            spec_with_extra_field(models[k], f),
        ) =~= models.update(k, spec_with_extra_field(models[k], f)));
    }
}

proof fn lemma_push_field_absent(models: Seq<ModelV>, target: Seq<char>, f: FieldV)
    requires
        forall|j: int| 0 <= j < models.len() ==> models[j].name != target,
    ensures
        spec_push_field(models, target, f) == models,
    decreases models.len(),
{
    if models.len() > 0 {
        lemma_push_field_absent(models.drop_first(), target, f);
        assert(seq![models[0]] + models.drop_first() =~= models);
    }
}

/// Append `field` to the first model named `target`, if there is one.
fn push_relation_field(models: &mut Vec<Model>, target: &str, field: Field)
    ensures
        final(models).deep_view() == spec_push_field(
            old(models).deep_view(),
            target@,
            field.deep_view(),
        ),
{
    let ghost orig = models.deep_view();
    let mut k: usize = 0;
    while k < models.len()
        invariant
            k <= models@.len(),
            *models == *old(models),
            orig == models.deep_view(),
            orig.len() == models@.len(),
            forall|j: int| 0 <= j < k ==> orig[j].name != target@,
        decreases models@.len() - k,
    {
        if str_eq(models[k].name.as_str(), target) {
            let ghost fv = field.deep_view();
            models[k].fields.push(field);
            proof {
                lemma_push_field_at(orig, target@, fv, k as int);
                assert(models@[k as int].fields.deep_view() =~= orig[k as int].fields.push(fv));
                assert(models@[k as int].deep_view() =~= spec_with_extra_field(
                    orig[k as int],
                    fv,
                ));
                assert(models.deep_view() =~= orig.update(
                    k as int,
                    spec_with_extra_field(orig[k as int], fv),
                ));
            }
            return;
        }
        k = k + 1;
    }
    proof {
        lemma_push_field_absent(orig, target@, field.deep_view());
    }
}

/// One foreign key together with the table that declares it.
#[verifier::ext_equal]
pub ghost struct RelEventV {
    pub owner: TableV,
    pub fk: ForeignKeyV,
}

/// Place the two relation fields of one foreign key: the forward field on
/// the owning model, then the back-reference on the referenced model.
pub open spec fn spec_apply_fk_event(models: Seq<ModelV>, e: RelEventV) -> Seq<ModelV> {
    spec_push_field(
        spec_push_field(models, e.owner.name, spec_forward_field(e.owner, e.fk)),
        e.fk.referenced_table,
        spec_back_field(e.owner, e.fk),
    )
}

/// Place the relation fields of every foreign key, in order.
pub open spec fn spec_apply_fk_events(models: Seq<ModelV>, events: Seq<RelEventV>) -> Seq<ModelV>
    decreases events.len(),
{
    if events.len() == 0 {
        models
    } else {
        spec_apply_fk_events(spec_apply_fk_event(models, events[0]), events.drop_first())
    }
}

proof fn lemma_apply_fk_events_push(models: Seq<ModelV>, events: Seq<RelEventV>, e: RelEventV)
    ensures
        spec_apply_fk_events(models, events.push(e)) == spec_apply_fk_event(
            spec_apply_fk_events(models, events),
            e,
        ),
    decreases events.len(),
{
    if events.len() == 0 {
        assert(events.push(e).drop_first() =~= Seq::<RelEventV>::empty());
        assert(events.push(e)[0] == e);
        assert(spec_apply_fk_events(spec_apply_fk_event(models, e), Seq::<RelEventV>::empty())
            == spec_apply_fk_event(models, e));
        assert(spec_apply_fk_events(models, events) == models);
    } else {
        assert(events.push(e).drop_first() =~= events.drop_first().push(e));
        assert(events.push(e)[0] == events[0]);
        lemma_apply_fk_events_push(spec_apply_fk_event(models, events[0]), events.drop_first(), e);
    }
}

/// The tables that become models: all but the implicit join tables.
pub open spec fn spec_regular_tables(s: SqlSchemaV) -> Seq<TableV> {
    spec_filter_map(
        s.tables,
        |t: TableV|
            if spec_is_join_table(t) {
                None
            } else {
                Some(t)
            },
    )
}

/// The implicit join tables, in schema order.
pub open spec fn spec_join_tables(s: SqlSchemaV) -> Seq<TableV> {
    spec_filter_map(
        s.tables,
        |t: TableV|
            if spec_is_join_table(t) {
                Some(t)
            } else {
                None
            },
    )
}

/// The foreign-key events of one table.
pub open spec fn spec_table_fk_events(t: TableV) -> Seq<RelEventV> {
    t.foreign_keys.map_values(|k: ForeignKeyV| RelEventV { owner: t, fk: k })
}

/// The foreign-key events of the whole schema: regular tables in order,
/// each table's foreign keys in declaration order.
pub open spec fn spec_fk_events(s: SqlSchemaV) -> Seq<RelEventV> {
    spec_regular_tables(s).flat_map(|t: TableV| spec_table_fk_events(t))
}

// --- implicit many-to-many fields -----------------------------------------

/// Whether some relation field of the models already carries this relation
/// name.
pub open spec fn spec_relation_name_taken(models: Seq<ModelV>, name: Seq<char>) -> bool {
    exists|i: int, j: int|
        0 <= i < models.len() && 0 <= j < models[i].fields.len() && (#[trigger] models[
            i
        ].fields[j]) is RelationField && models[i].fields[j]->RelationField_0.relation_info.name
            == name
}

/// Whether some relation field of the models already carries this relation
/// name.
fn relation_name_taken(models: &Vec<Model>, name: &str) -> (r: bool)
    ensures
        r == spec_relation_name_taken(models.deep_view(), name@),
{
    let ghost mv = models.deep_view();
    let mut i: usize = 0;
    while i < models.len()
        invariant
            i <= models@.len(),
            mv == models.deep_view(),
            mv.len() == models@.len(),
            forall|a: int, b: int|
                0 <= a < i && 0 <= b < mv[a].fields.len() ==> !((#[trigger] mv[
                    a
                ].fields[b]) is RelationField && mv[a].fields[b]->RelationField_0.relation_info.name
                    == name@),
        decreases models@.len() - i,
    {
        let model = &models[i];
        let mut j: usize = 0;
        while j < model.fields.len()
            invariant
                j <= model.fields@.len(),
                mv == models.deep_view(),
                mv.len() == models@.len(),
                i < models@.len(),
                model == &models@[i as int],
                model.fields.deep_view() == mv[i as int].fields,
                mv[i as int].fields.len() == model.fields@.len(),
                forall|b: int|
                    0 <= b < j ==> !((#[trigger] mv[i as int].fields[b]) is RelationField && mv[
                        i as int
                    ].fields[b]->RelationField_0.relation_info.name == name@),
            decreases model.fields@.len() - j,
        {
            match &model.fields[j] {
                Field::RelationField(rf) => {
                    if str_eq(rf.relation_info.name.as_str(), name) {
                        proof {
                            assert(spec_relation_name_taken(mv, name@)) by {
                                assert(0 <= i < mv.len() && 0 <= j < mv[i as int].fields.len()
                                    && mv[i as int].fields[j as int] is RelationField && mv[
                                    i as int
                                ].fields[j as int]->RelationField_0.relation_info.name == name@);
                            }
                        }
                        return true;
                    }
                },
                Field::ScalarField(_) => {},
            }
            j = j + 1;
        }
        i = i + 1;
    }
    false
}

/// A many-to-many list field pointing at `to`.
pub open spec fn spec_mn_field(to: Seq<char>, field_name: Seq<char>, rel: Seq<char>) -> FieldV {
    FieldV::RelationField(
        RelationFieldV {
            name: field_name,
            arity: FieldArity::List,
            relation_info: RelationInfoV {
                to: to,
                fields: Seq::<Seq<char>>::empty(),
                to_fields: Seq::<Seq<char>>::empty(),
                name: rel,
                on_delete: OnDeleteStrategy::NoAction,
            },
        },
    )
}

/// A many-to-many list field pointing at `to`.
fn mn_field(to: &str, field_name: String, rel: &str) -> (r: Field)
    ensures
        r.deep_view() == spec_mn_field(to@, field_name@, rel@),
{
    let r = Field::RelationField(RelationField {
        name: field_name,
        arity: FieldArity::List,
        relation_info: RelationInfo {
            to: to.to_owned(),
            fields: Vec::new(),
            to_fields: Vec::new(),
            name: rel.to_owned(),
            on_delete: OnDeleteStrategy::NoAction,
        },
    });
    proof {
        assert(r.deep_view() =~= spec_mn_field(to@, r.deep_view()->RelationField_0.name, rel@));
    }
    r
}

/// The relation name a join table gives rise to: its name without the
/// leading underscore, suffixed with `ManyToMany` when a relation of that
/// name already exists.
pub open spec fn spec_join_table_relation_name(models: Seq<ModelV>, jt: TableV) -> Seq<char> {
    let base = jt.name.drop_first();
    if spec_relation_name_taken(models, base) {
        base + "ManyToMany"@
    } else {
        base
    }
}

/// Place the two list fields of one join table: on the model referenced
/// through `A` a field named after the `B`-side model and the other way
/// round; when both ends are the same model, the two fields are named
/// `{model}_A_{relation}` and `{model}_B_{relation}`.
pub open spec fn spec_apply_join_table(models: Seq<ModelV>, jt: TableV) -> Seq<ModelV> {
    let fka = spec_fk_with_single_column(jt.foreign_keys, "A"@)->Some_0;
    let fkb = spec_fk_with_single_column(jt.foreign_keys, "B"@)->Some_0;
    let rel = spec_join_table_relation_name(models, jt);
    let ta = fka.referenced_table;
    let tb = fkb.referenced_table;
    if ta == tb {
        let fa = spec_mn_field(ta, ta + "_A_"@ + rel, rel);
        let fb = spec_mn_field(ta, ta + "_B_"@ + rel, rel);
        spec_push_field(spec_push_field(models, ta, fa), ta, fb)
    } else {
        spec_push_field(
            spec_push_field(models, ta, spec_mn_field(tb, tb, rel)),
            tb,
            spec_mn_field(ta, ta, rel),
        )
    }
}

/// Place the fields of every join table, in schema order.
pub open spec fn spec_apply_join_tables(models: Seq<ModelV>, jts: Seq<TableV>) -> Seq<ModelV>
    decreases jts.len(),
{
    if jts.len() == 0 {
        models
    } else {
        spec_apply_join_tables(spec_apply_join_table(models, jts[0]), jts.drop_first())
    }
}

proof fn lemma_apply_join_tables_push(models: Seq<ModelV>, jts: Seq<TableV>, jt: TableV)
    ensures
        spec_apply_join_tables(models, jts.push(jt)) == spec_apply_join_table(
            spec_apply_join_tables(models, jts),
            jt,
        ),
    decreases jts.len(),
{
    if jts.len() == 0 {
        assert(jts.push(jt).drop_first() =~= Seq::<TableV>::empty());
        assert(jts.push(jt)[0] == jt);
        assert(spec_apply_join_tables(spec_apply_join_table(models, jt), Seq::<TableV>::empty())
            == spec_apply_join_table(models, jt));
        assert(spec_apply_join_tables(models, jts) == models);
    } else {
        assert(jts.push(jt).drop_first() =~= jts.drop_first().push(jt));
        assert(jts.push(jt)[0] == jts[0]);
        lemma_apply_join_tables_push(spec_apply_join_table(models, jts[0]), jts.drop_first(), jt);
    }
}

// --- renaming colliding relation fields -------------------------------------

/// The fields of the list whose name is `name`.
pub open spec fn spec_fields_named(fields: Seq<FieldV>, name: Seq<char>) -> Seq<FieldV> {
    spec_filter_map(
        fields,
        |f: FieldV|
            if spec_field_name(f) == name {
                Some(f)
            } else {
                None
            },
    )
}

/// A relation field whose name collides with another field of the same
/// model is renamed to `{name}_{relation name}`; scalar fields always keep
/// their name.
pub open spec fn spec_dedup_field(all: Seq<FieldV>, f: FieldV) -> FieldV {
    match f {
        FieldV::RelationField(rf) => if spec_fields_named(all, rf.name).len() > 1 {
            FieldV::RelationField(
                RelationFieldV {
                    name: rf.name + "_"@ + rf.relation_info.name,
                    arity: rf.arity,
                    relation_info: rf.relation_info,
                },
            )
        } else {
            f
        },
        FieldV::ScalarField(_) => f,
    }
}

/// The model with its colliding relation fields renamed.
pub open spec fn spec_dedup_model(m: ModelV) -> ModelV {
    ModelV {
        name: m.name,
        database_name: m.database_name,
        documentation: m.documentation,
        is_embedded: m.is_embedded,
        is_generated: m.is_generated,
        is_commented_out: m.is_commented_out,
        fields: m.fields.map_values(|f: FieldV| spec_dedup_field(m.fields, f)),
        indices: m.indices,
        id_fields: m.id_fields,
    }
}

/// How many fields of the list carry this name.
fn count_fields_named(fields: &Vec<Field>, name: &str) -> (r: usize)
    ensures
        r == spec_fields_named(fields.deep_view(), name@).len(),
{
    let ghost src = fields.deep_view();
    let ghost pick = |f: FieldV|
        if spec_field_name(f) == name@ {
            Some(f)
        } else {
            None
        };
    let mut count: usize = 0;
    let mut i: usize = 0;
    proof {
        assert(spec_filter_map(src.take(0int), pick) =~= Seq::<FieldV>::empty());
    }
    while i < fields.len()
        invariant
            i <= fields@.len(),
            src == fields.deep_view(),
            src.len() == fields@.len(),
            pick == (|f: FieldV|
                if spec_field_name(f) == name@ {
                    Some(f)
                } else {
                    None
                }),
            count == spec_filter_map(src.take(i as int), pick).len(),
            count <= i,
        decreases fields@.len() - i,
    {
        if str_eq(fields[i].name().as_str(), name) {
            count = count + 1;
        }
        proof {
            lemma_filter_map_take_succ(src, pick, i as int);
        }
        i = i + 1;
    }
    proof {
        assert(src.take(src.len() as int) =~= src);
    }
    count
}

/// Rename the relation fields of the model that collide with another field
/// of the same model.
fn dedup_model(model: Model) -> (r: Model)
    ensures
        r.deep_view() == spec_dedup_model(model.deep_view()),
{
    let ghost mv = model.deep_view();
    let Model {
        name,
        database_name,
        documentation,
        is_embedded,
        is_generated,
        is_commented_out,
        fields,
        indices,
        id_fields,
    } = model;
    let ghost orig = fields.deep_view();

    let mut counts: Vec<usize> = Vec::new();
    let mut i: usize = 0;
    while i < fields.len()
        invariant
            i <= fields@.len(),
            orig == fields.deep_view(),
            orig.len() == fields@.len(),
            counts@.len() == i,
            forall|j: int|
                0 <= j < i ==> counts@[j] == spec_fields_named(
                    orig,
                    spec_field_name(#[trigger] orig[j]),
                ).len(),
        decreases fields@.len() - i,
    {
        let c = count_fields_named(&fields, fields[i].name().as_str());
        counts.push(c);
        i = i + 1;
    }

    let mut remaining = fields;
    let total_fields = remaining.len();
    let mut out_fields: Vec<Field> = Vec::new();
    let mut j: usize = 0;
    proof {
        assert(remaining.deep_view() =~= orig.skip(0int));
        assert(out_fields.deep_view() =~= orig.take(0int).map_values(
            |f: FieldV| spec_dedup_field(orig, f),
        ));
    }
    while remaining.len() > 0
        invariant
            j + remaining@.len() == total_fields,
            orig.len() == total_fields,
            counts@.len() == orig.len(),
            remaining.deep_view() == orig.skip(j as int),
            out_fields.deep_view() == orig.take(j as int).map_values(
                |f: FieldV| spec_dedup_field(orig, f),
            ),
            forall|k: int|
                0 <= k < orig.len() ==> counts@[k] == spec_fields_named(
                    orig,
                    spec_field_name(#[trigger] orig[k]),
                ).len(),
        decreases remaining@.len(),
    {
        let ghost prev = out_fields.deep_view();
        let ghost old_rem = remaining@;
        let f = remaining.remove(0);
        proof {
            assert(f.deep_view() == orig.skip(j as int)[0]);
            assert(orig.skip(j as int)[0] == orig[j as int]);
            assert(remaining@ =~= old_rem.drop_first());
            assert forall|k: int| 0 <= k < remaining@.len() implies remaining@[k].deep_view()
                == orig.skip(j + 1int)[k] by {
                assert(remaining@[k] == old_rem[k + 1]);
                assert(old_rem[k + 1].deep_view() == orig.skip(j as int)[k + 1]);
                assert(orig.skip(j as int)[k + 1] == orig[j + 1 + k]);
            }
            assert(remaining.deep_view() =~= orig.skip(j + 1int));
        }
        match f {
            Field::ScalarField(sf) => {
                out_fields.push(Field::ScalarField(sf));
            },
            Field::RelationField(rf) => {
                if counts[j] > 1 {
                    let RelationField { name: old_name, arity, relation_info } = rf;
                    let mut new_name = old_name;
                    new_name.append("_");
                    new_name.append(relation_info.name.as_str());
                    out_fields.push(
                        Field::RelationField(RelationField { name: new_name, arity, relation_info }),
                    );
                } else {
                    out_fields.push(Field::RelationField(rf));
                }
            },
        }
        proof {
            assert(out_fields@.len() == prev.len() + 1);
            assert(out_fields@[out_fields@.len() - 1].deep_view() == spec_dedup_field(
                orig,
                orig[j as int],
            ));
            assert(out_fields.deep_view() =~= prev.push(spec_dedup_field(orig, orig[j as int])));
            orig.lemma_map_take_succ(|f: FieldV| spec_dedup_field(orig, f), j as int);
        }
        j = j + 1;
    }
    proof {
        assert(orig.take(orig.len() as int) =~= orig);
    }

    let r = Model {
        name,
        database_name,
        documentation,
        is_embedded,
        is_generated,
        is_commented_out,
        fields: out_fields,
        indices,
        id_fields,
    };
    proof {
        assert(r.deep_view() =~= spec_dedup_model(mv));
    }
    r
}

// --- enums ------------------------------------------------------------------

/// The data-model enum for a database enum: same name, each value carried
/// over.
pub open spec fn spec_dml_enum(e: SqlEnumV) -> DmlEnumV {
    DmlEnumV {
        name: e.name,
        database_name: None,
        documentation: None,
        commented_out: false,
        values: e.values.map_values(
            |v: Seq<char>|
                EnumValueV { name: v, database_name: None, documentation: None, commented_out: false },
        ),
    }
}

/// The data-model enums of the schema, in order.
pub open spec fn spec_dml_enums(s: SqlSchemaV) -> Seq<DmlEnumV> {
    s.enums.map_values(|e: SqlEnumV| spec_dml_enum(e))
}

/// The data-model enum for a database enum.
fn dml_enum(e: &SqlEnum) -> (r: DmlEnum)
    ensures
        r.deep_view() == spec_dml_enum(e.deep_view()),
{
    let ghost ev = e.deep_view();
    let mut values: Vec<EnumValue> = Vec::new();
    let mut i: usize = 0;
    proof {
        assert(values.deep_view() =~= ev.values.take(0int).map_values(
            |v: Seq<char>|
                EnumValueV { name: v, database_name: None, documentation: None, commented_out: false },
        ));
    }
    while i < e.values.len()
        invariant
            i <= e.values@.len(),
            ev == e.deep_view(),
            ev.values.len() == e.values@.len(),
            values.deep_view() == ev.values.take(i as int).map_values(
                |v: Seq<char>|
                    EnumValueV {
                        name: v,
                        database_name: None,
                        documentation: None,
                        commented_out: false,
                    },
            ),
        decreases e.values@.len() - i,
    {
        let ghost prev = values.deep_view();
        values.push(
            EnumValue {
                name: e.values[i].clone(),
                database_name: None,
                documentation: None,
                commented_out: false,
            },
        );
        proof {
            assert(values@.len() == prev.len() + 1);
            assert(values.deep_view() =~= prev.push(values@[values@.len() - 1].deep_view()));
            ev.values.lemma_map_take_succ(
                |v: Seq<char>|
                    EnumValueV {
                        name: v,
                        database_name: None,
                        documentation: None,
                        commented_out: false,
                    },
                i as int,
            );
        }
        i = i + 1;
    }
    proof {
        assert(ev.values.take(ev.values.len() as int) =~= ev.values);
    }
    DmlEnum {
        name: e.name.clone(),
        database_name: None,
        documentation: None,
        commented_out: false,
        values,
    }
}

// --- input validation -------------------------------------------------------

/// Whether a foreign key of table `t` is well-formed in `s`: the referenced
/// table exists, the column counts agree, and every local column exists.
pub open spec fn spec_fk_valid(s: SqlSchemaV, t: TableV, fk: ForeignKeyV) -> bool {
    &&& exists|i: int|
        0 <= i < s.tables.len() && (#[trigger] s.tables[i]).name == fk.referenced_table
    &&& fk.columns.len() == fk.referenced_columns.len()
    &&& forall|i: int|
        0 <= i < fk.columns.len() ==> spec_find_column(t.columns, #[trigger] fk.columns[i]) is Some
}

/// Whether every foreign key of the schema is well-formed.
pub open spec fn spec_schema_valid(s: SqlSchemaV) -> bool {
    forall|i: int, j: int|
        0 <= i < s.tables.len() && 0 <= j < s.tables[i].foreign_keys.len() ==> spec_fk_valid(
            s,
            s.tables[i],
            #[trigger] s.tables[i].foreign_keys[j],
        )
}

/// Whether the schema holds a table of this name.
fn schema_has_table(schema: &SqlSchema, name: &str) -> (r: bool)
    ensures
        r == exists|i: int|
            0 <= i < schema.deep_view().tables.len() && (#[trigger] schema.deep_view().tables[
                i
            ]).name == name@,
{
    let ghost sv = schema.deep_view();
    let mut i: usize = 0;
    while i < schema.tables.len()
        invariant
            i <= schema.tables@.len(),
            sv == schema.deep_view(),
            sv.tables.len() == schema.tables@.len(),
            forall|j: int| 0 <= j < i ==> (#[trigger] sv.tables[j]).name != name@,
        decreases schema.tables@.len() - i,
    {
        if str_eq(schema.tables[i].name.as_str(), name) {
            proof {
                assert(0 <= i < sv.tables.len() && sv.tables[i as int].name == name@);
            }
            return true;
        }
        i = i + 1;
    }
    false
}

/// Whether one foreign key of `table` is well-formed in the schema.
fn fk_valid(schema: &SqlSchema, table: &Table, fk: &ForeignKey) -> (r: bool)
    ensures
        r == spec_fk_valid(schema.deep_view(), table.deep_view(), fk.deep_view()),
{
    let ghost sv = schema.deep_view();
    let ghost tv = table.deep_view();
    let ghost fkv = fk.deep_view();
    if !schema_has_table(schema, fk.referenced_table.as_str()) {
        return false;
    }
    if fk.columns.len() != fk.referenced_columns.len() {
        proof {
            assert(fkv.columns.len() != fkv.referenced_columns.len());
        }
        return false;
    }
    let mut i: usize = 0;
    while i < fk.columns.len()
        invariant
            i <= fk.columns@.len(),
            sv == schema.deep_view(),
            tv == table.deep_view(),
            fkv == fk.deep_view(),
            fkv.columns.len() == fk.columns@.len(),
            exists|k: int| 0 <= k < sv.tables.len() && (#[trigger] sv.tables[k]).name
                == fkv.referenced_table,
            fkv.columns.len() == fkv.referenced_columns.len(),
            forall|j: int|
                0 <= j < i ==> spec_find_column(tv.columns, #[trigger] fkv.columns[j]) is Some,
        decreases fk.columns@.len() - i,
    {
        if table.find_column(fk.columns[i].as_str()).is_none() {
            proof {
                assert(fkv.columns[i as int] == fk.columns@[i as int]@);
                assert(!spec_fk_valid(sv, tv, fkv)) by {
                    assert(spec_find_column(tv.columns, fkv.columns[i as int]) is None);
                }
            }
            return false;
        }
        i = i + 1;
    }
    true
}

/// Whether every foreign key of the schema is well-formed.
fn validate_schema(schema: &SqlSchema) -> (r: bool)
    ensures
        r == spec_schema_valid(schema.deep_view()),
{
    let ghost sv = schema.deep_view();
    let mut ti: usize = 0;
    while ti < schema.tables.len()
        invariant
            ti <= schema.tables@.len(),
            sv == schema.deep_view(),
            sv.tables.len() == schema.tables@.len(),
            forall|i: int, j: int|
                0 <= i < ti && 0 <= j < sv.tables[i].foreign_keys.len() ==> spec_fk_valid(
                    sv,
                    sv.tables[i],
                    #[trigger] sv.tables[i].foreign_keys[j],
                ),
        decreases schema.tables@.len() - ti,
    {
        let table = &schema.tables[ti];
        let mut q: usize = 0;
        while q < table.foreign_keys.len()
            invariant
                q <= table.foreign_keys@.len(),
                ti < schema.tables@.len(),
                sv == schema.deep_view(),
                sv.tables.len() == schema.tables@.len(),
                table == &schema.tables@[ti as int],
                table.deep_view() == sv.tables[ti as int],
                sv.tables[ti as int].foreign_keys.len() == table.foreign_keys@.len(),
                forall|j: int|
                    0 <= j < q ==> spec_fk_valid(
                        sv,
                        sv.tables[ti as int],
                        #[trigger] sv.tables[ti as int].foreign_keys[j],
                    ),
            decreases table.foreign_keys@.len() - q,
        {
            if !fk_valid(schema, table, &table.foreign_keys[q]) {
                proof {
                    assert(!spec_schema_valid(sv)) by {
                        assert(!spec_fk_valid(
                            sv,
                            sv.tables[ti as int],
                            sv.tables[ti as int].foreign_keys[q as int],
                        ));
                    }
                }
                return false;
            }
            q = q + 1;
        }
        proof {
            assert forall|i: int, j: int|
                0 <= i < ti + 1 && 0 <= j < sv.tables[i].foreign_keys.len() implies spec_fk_valid(
                sv,
                sv.tables[i],
                #[trigger] sv.tables[i].foreign_keys[j],
            ) by {}
        }
        ti = ti + 1;
    }
    true
}

// --- the introspector -------------------------------------------------------

/// The models of the derived data model: one base model per regular table,
/// then the relation fields of every foreign key, then the implicit
/// many-to-many fields, then colliding relation-field names resolved.
pub open spec fn spec_base_models(s: SqlSchemaV) -> Seq<ModelV> {
    spec_filter_map(
        s.tables,
        |t: TableV|
            if spec_is_join_table(t) {
                None
            } else {
                Some(spec_base_model(t))
            },
    )
}

/// The models of the derived data model.
pub open spec fn spec_introspect_models(s: SqlSchemaV) -> Seq<ModelV> {
    spec_apply_join_tables(
        spec_apply_fk_events(spec_base_models(s), spec_fk_events(s)),
        spec_join_tables(s),
    ).map_values(|m: ModelV| spec_dedup_model(m))
}

/// The data model the introspector derives from a schema.
pub open spec fn spec_calculate_datamodel(s: SqlSchemaV) -> DatamodelV {
    DatamodelV { models: spec_introspect_models(s), enums: spec_dml_enums(s) }
}

/// What the introspector hands back: the derived data model.
#[derive(Clone, PartialEq, Eq, Debug)]
pub struct IntrospectionResult {
    pub data_model: Datamodel,
}

/// Why introspection refuses a schema.
#[derive(Clone, Copy, PartialEq, Eq, Structural, Debug)]
pub enum SqlIntrospectionError {
    /// A foreign key references a missing table or column, or its column
    /// counts disagree.
    InputInvalid,
}

/// Derive a data model from a described SQL schema. Fails exactly when some
/// foreign key references a missing table or column or has mismatched
/// column counts; on every other schema it returns the canonical data
/// model, whatever the dialect.
pub fn calculate_datamodel(
    schema: &SqlSchema,
    _family: &SqlFamily,
    _previous: &Datamodel,
) -> (r: Result<IntrospectionResult, SqlIntrospectionError>)
    ensures
        r is Ok <==> spec_schema_valid(schema.deep_view()),
        r is Ok ==> r->Ok_0.data_model.deep_view() == spec_calculate_datamodel(schema.deep_view()),
{
    let ghost sv = schema.deep_view();
    if !validate_schema(schema) {
        return Err(SqlIntrospectionError::InputInvalid);
    }

    let ghost basef = |t: TableV|
        if spec_is_join_table(t) {
            None
        } else {
            Some(spec_base_model(t))
        };
    let ghost keepf = |t: TableV|
        if spec_is_join_table(t) {
            None
        } else {
            Some(t)
        };
    let ghost joinf = |t: TableV|
        if spec_is_join_table(t) {
            Some(t)
        } else {
            None
        };
    let ghost evf = |t: TableV| spec_table_fk_events(t);

    // One base model per regular table, in schema order.
    let mut models: Vec<Model> = Vec::new();
    let mut ti: usize = 0;
    proof {
        assert(spec_filter_map(sv.tables.take(0int), basef) =~= Seq::<ModelV>::empty());
        assert(models.deep_view() =~= spec_filter_map(sv.tables.take(0int), basef));
    }
    while ti < schema.tables.len()
        invariant
            ti <= schema.tables@.len(),
            sv == schema.deep_view(),
            sv.tables.len() == schema.tables@.len(),
            basef == (|t: TableV|
                if spec_is_join_table(t) {
                    None
                } else {
                    Some(spec_base_model(t))
                }),
            models.deep_view() == spec_filter_map(sv.tables.take(ti as int), basef),
        decreases schema.tables@.len() - ti,
    {
        let ghost prev = models.deep_view();
        let table = &schema.tables[ti];
        if !is_join_table(table) {
            let model = calculate_base_model(table);
            models.push(model);
            proof {
                assert(models@.len() == prev.len() + 1);
                assert(models.deep_view() =~= prev.push(models@[models@.len() - 1].deep_view()));
            }
        }
        proof {
            lemma_filter_map_take_succ(sv.tables, basef, ti as int);
        }
        ti = ti + 1;
    }
    proof {
        assert(sv.tables.take(sv.tables.len() as int) =~= sv.tables);
        assert(models.deep_view() == spec_base_models(sv));
    }

    // The relation fields of every foreign key, in schema and declaration
    // order.
    let ghost base = models.deep_view();
    let mut ti2: usize = 0;
    proof {
        assert(spec_filter_map(sv.tables.take(0int), keepf) =~= Seq::<TableV>::empty());
        assert(spec_filter_map(sv.tables.take(0int), keepf).flat_map(evf)
            =~= Seq::<RelEventV>::empty());
        assert(spec_apply_fk_events(base, Seq::<RelEventV>::empty()) == base);
    }
    while ti2 < schema.tables.len()
        invariant
            ti2 <= schema.tables@.len(),
            sv == schema.deep_view(),
            sv.tables.len() == schema.tables@.len(),
            keepf == (|t: TableV|
                if spec_is_join_table(t) {
                    None
                } else {
                    Some(t)
                }),
            evf == (|t: TableV| spec_table_fk_events(t)),
            models.deep_view() == spec_apply_fk_events(
                base,
                spec_filter_map(sv.tables.take(ti2 as int), keepf).flat_map(evf),
            ),
        decreases schema.tables@.len() - ti2,
    {
        let table = &schema.tables[ti2];
        let ghost tv = sv.tables[ti2 as int];
        let ghost done = spec_filter_map(sv.tables.take(ti2 as int), keepf).flat_map(evf);
        if !is_join_table(table) {
            let ghost chunk = spec_table_fk_events(tv);
            let ghost mid = models.deep_view();
            let mut q: usize = 0;
            proof {
                assert(chunk.take(0int) =~= Seq::<RelEventV>::empty());
                assert(spec_apply_fk_events(mid, chunk.take(0int)) == mid);
            }
            while q < table.foreign_keys.len()
                invariant
                    q <= table.foreign_keys@.len(),
                    sv == schema.deep_view(),
                    ti2 < schema.tables@.len(),
                    table == &schema.tables@[ti2 as int],
                    tv == sv.tables[ti2 as int],
                    table.deep_view() == tv,
                    chunk == spec_table_fk_events(tv),
                    chunk.len() == table.foreign_keys@.len(),
                    tv.foreign_keys.len() == table.foreign_keys@.len(),
                    models.deep_view() == spec_apply_fk_events(mid, chunk.take(q as int)),
                decreases table.foreign_keys@.len() - q,
            {
                let fk = &table.foreign_keys[q];
                let ghost ev = chunk[q as int];
                proof {
                    assert(ev == RelEventV { owner: tv, fk: tv.foreign_keys[q as int] });
                    assert(fk.deep_view() == tv.foreign_keys[q as int]);
                }
                let ghost before = models.deep_view();
                let fw = forward_field(table, fk);
                push_relation_field(&mut models, table.name.as_str(), fw);
                let bw = back_field(table, fk);
                push_relation_field(&mut models, fk.referenced_table.as_str(), bw);
                proof {
                    assert(models.deep_view() == spec_apply_fk_event(before, ev));
                    assert(chunk.take(q + 1int) =~= chunk.take(q as int).push(chunk[q as int]));
                    lemma_apply_fk_events_push(mid, chunk.take(q as int), chunk[q as int]);
                }
                q = q + 1;
            }
            proof {
                assert(chunk.take(chunk.len() as int) =~= chunk);
                lemma_filter_map_take_succ(sv.tables, keepf, ti2 as int);
                assert(spec_filter_map(sv.tables.take(ti2 + 1int), keepf) =~= spec_filter_map(
                    sv.tables.take(ti2 as int),
                    keepf,
                ).push(tv));
                spec_filter_map(sv.tables.take(ti2 as int), keepf).lemma_flat_map_push(evf, tv);
                lemma_apply_fk_events_concat(base, done, chunk);
            }
        } else {
            proof {
                lemma_filter_map_take_succ(sv.tables, keepf, ti2 as int);
                assert(spec_filter_map(sv.tables.take(ti2 + 1int), keepf) =~= spec_filter_map(
                    sv.tables.take(ti2 as int),
                    keepf,
                ));
            }
        }
        ti2 = ti2 + 1;
    }
    proof {
        assert(sv.tables.take(sv.tables.len() as int) =~= sv.tables);
        assert(models.deep_view() == spec_apply_fk_events(base, spec_fk_events(sv)));
    }

    // The implicit many-to-many relations of the join tables.
    let ghost after_fk = models.deep_view();
    let mut ti3: usize = 0;
    proof {
        assert(spec_filter_map(sv.tables.take(0int), joinf) =~= Seq::<TableV>::empty());
        assert(spec_apply_join_tables(after_fk, Seq::<TableV>::empty()) == after_fk);
    }
    while ti3 < schema.tables.len()
        invariant
            ti3 <= schema.tables@.len(),
            sv == schema.deep_view(),
            sv.tables.len() == schema.tables@.len(),
            joinf == (|t: TableV|
                if spec_is_join_table(t) {
                    Some(t)
                } else {
                    None
                }),
            models.deep_view() == spec_apply_join_tables(
                after_fk,
                spec_filter_map(sv.tables.take(ti3 as int), joinf),
            ),
        decreases schema.tables@.len() - ti3,
    {
        let table = &schema.tables[ti3];
        let ghost tv = sv.tables[ti3 as int];
        if is_join_table(table) {
            let ghost before = models.deep_view();
            let fka = match fk_with_single_column(table, "A") {
                Some(fk) => fk,
                None => {
                    proof {
                        assert(false);
                    }
                    &table.foreign_keys[0]
                },
            };
            let fkb = match fk_with_single_column(table, "B") {
                Some(fk) => fk,
                None => {
                    proof {
                        assert(false);
                    }
                    &table.foreign_keys[0]
                },
            };
            let name_len = table.name.as_str().unicode_len();
            let base_name = table.name.as_str().substring_char(1, name_len);
            proof {
                assert(base_name@ =~= tv.name.drop_first());
            }
            let rel = if relation_name_taken(&models, base_name) {
                crate::strutil::concat_str(base_name, "ManyToMany")
            } else {
                base_name.to_owned()
            };
            proof {
                assert(rel@ == spec_join_table_relation_name(before, tv));
            }
            let ta = fka.referenced_table.as_str();
            let tb = fkb.referenced_table.as_str();
            if str_eq(ta, tb) {
                let mut name_a = ta.to_owned();
                name_a.append("_A_");
                name_a.append(rel.as_str());
                let mut name_b = ta.to_owned();
                name_b.append("_B_");
                name_b.append(rel.as_str());
                let fa = mn_field(ta, name_a, rel.as_str());
                let fb = mn_field(ta, name_b, rel.as_str());
                push_relation_field(&mut models, ta, fa);
                push_relation_field(&mut models, ta, fb);
            } else {
                let fab = mn_field(tb, tb.to_owned(), rel.as_str());
                push_relation_field(&mut models, ta, fab);
                let fba = mn_field(ta, ta.to_owned(), rel.as_str());
                push_relation_field(&mut models, tb, fba);
            }
            proof {
                assert(models.deep_view() == spec_apply_join_table(before, tv));
                lemma_filter_map_take_succ(sv.tables, joinf, ti3 as int);
                assert(spec_filter_map(sv.tables.take(ti3 + 1int), joinf) =~= spec_filter_map(
                    sv.tables.take(ti3 as int),
                    joinf,
                ).push(tv));
                lemma_apply_join_tables_push(
                    after_fk,
                    spec_filter_map(sv.tables.take(ti3 as int), joinf),
                    tv,
                );
            }
        } else {
            proof {
                lemma_filter_map_take_succ(sv.tables, joinf, ti3 as int);
                assert(spec_filter_map(sv.tables.take(ti3 + 1int), joinf) =~= spec_filter_map(
                    sv.tables.take(ti3 as int),
                    joinf,
                ));
            }
        }
        ti3 = ti3 + 1;
    }
    proof {
        assert(sv.tables.take(sv.tables.len() as int) =~= sv.tables);
        assert(models.deep_view() == spec_apply_join_tables(after_fk, spec_join_tables(sv)));
    }

    // Resolve colliding relation-field names.
    let ghost placed = models.deep_view();
    let mut final_models: Vec<Model> = Vec::new();
    let mut mi: usize = 0;
    let mut remaining = models;
    let total_models = remaining.len();
    proof {
        assert(remaining.deep_view() =~= placed.skip(0int));
        assert(final_models.deep_view() =~= placed.take(0int).map_values(
            |m: ModelV| spec_dedup_model(m),
        ));
    }
    while remaining.len() > 0
        invariant
            mi + remaining@.len() == total_models,
            placed.len() == total_models,
            remaining.deep_view() == placed.skip(mi as int),
            final_models.deep_view() == placed.take(mi as int).map_values(
                |m: ModelV| spec_dedup_model(m),
            ),
        decreases remaining@.len(),
    {
        let ghost prev = final_models.deep_view();
        let ghost old_rem = remaining@;
        let model = remaining.remove(0);
        proof {
            assert(model.deep_view() == placed.skip(mi as int)[0]);
            assert(placed.skip(mi as int)[0] == placed[mi as int]);
            assert(remaining@ =~= old_rem.drop_first());
            assert forall|k: int| 0 <= k < remaining@.len() implies remaining@[k].deep_view()
                == placed.skip(mi + 1int)[k] by {
                assert(remaining@[k] == old_rem[k + 1]);
                assert(old_rem[k + 1].deep_view() == placed.skip(mi as int)[k + 1]);
                assert(placed.skip(mi as int)[k + 1] == placed[mi + 1 + k]);
            }
            assert(remaining.deep_view() =~= placed.skip(mi + 1int));
        }
        final_models.push(dedup_model(model));
        proof {
            assert(final_models@.len() == prev.len() + 1);
            assert(final_models.deep_view() =~= prev.push(spec_dedup_model(placed[mi as int])));
            placed.lemma_map_take_succ(|m: ModelV| spec_dedup_model(m), mi as int);
        }
        mi = mi + 1;
    }
    proof {
        assert(placed.take(placed.len() as int) =~= placed);
    }

    // The enums, carried over in order.
    let mut enums: Vec<DmlEnum> = Vec::new();
    let mut ei: usize = 0;
    proof {
        assert(enums.deep_view() =~= sv.enums.take(0int).map_values(
            |e: SqlEnumV| spec_dml_enum(e),
        ));
    }
    while ei < schema.enums.len()
        invariant
            ei <= schema.enums@.len(),
            sv == schema.deep_view(),
            sv.enums.len() == schema.enums@.len(),
            enums.deep_view() == sv.enums.take(ei as int).map_values(
                |e: SqlEnumV| spec_dml_enum(e),
            ),
        decreases schema.enums@.len() - ei,
    {
        let ghost prev = enums.deep_view();
        enums.push(dml_enum(&schema.enums[ei]));
        proof {
            assert(enums@.len() == prev.len() + 1);
            assert(enums.deep_view() =~= prev.push(enums@[enums@.len() - 1].deep_view()));
            sv.enums.lemma_map_take_succ(|e: SqlEnumV| spec_dml_enum(e), ei as int);
        }
        ei = ei + 1;
    }
    proof {
        assert(sv.enums.take(sv.enums.len() as int) =~= sv.enums);
    }

    let data_model = Datamodel { models: final_models, enums };
    proof {
        assert(data_model.deep_view() =~= spec_calculate_datamodel(sv));
    }
    Ok(IntrospectionResult { data_model })
}

proof fn lemma_apply_fk_events_concat(
    models: Seq<ModelV>,
    a: Seq<RelEventV>,
    b: Seq<RelEventV>,
)
    ensures
        spec_apply_fk_events(models, a + b) == spec_apply_fk_events(
            spec_apply_fk_events(models, a),
            b,
        ),
    decreases a.len(),
{
    if a.len() == 0 {
        assert(a + b =~= b);
        assert(spec_apply_fk_events(models, a) == models);
    } else {
        assert((a + b)[0] == a[0]);
        assert((a + b).drop_first() =~= a.drop_first() + b);
        lemma_apply_fk_events_concat(spec_apply_fk_event(models, a[0]), a.drop_first(), b);
    }
}

} // verus!
