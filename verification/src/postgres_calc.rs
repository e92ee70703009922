//! The PostgreSQL flavour of the schema calculator: database enums taken
//! from the data model, and the SQL column type implied by a declared
//! native type.

use vstd::prelude::*;
use crate::dml::{Datamodel, DatamodelV, EnumV as DmlEnumV, FieldArity, ScalarField};
use crate::schema::{ColumnArity, ColumnType, ColumnTypeFamily, ColumnTypeFamilyV, ColumnTypeV,
    Enum as SqlEnum, EnumV as SqlEnumV};
use crate::strutil::{render_u64, spec_decimal};

verus! {

/// A PostgreSQL native column type, as a schema may declare it on a field.
#[derive(Clone, PartialEq, Eq, Debug)]
pub enum PostgresType {
    SmallInt,
    Integer,
    BigInt,
    Decimal(u32, u32),
    Numeric(u32, u32),
    Real,
    DoublePrecision,
    SmallSerial,
    Serial,
    BigSerial,
    VarChar(u32),
    Char(u32),
    Text,
    ByteA,
    Timestamp(u32),
    TimestampWithTimeZone(u32),
    Date,
    Time(u32),
    TimeWithTimeZone(u32),
    Interval(u32),
    Boolean,
    Bit(u32),
    VarBit(u32),
    UUID,
    XML,
    JSON,
    JSONB,
    NotHandled,
}

/// A native type as the data model carries it: the deserialised type beside
/// the text it was declared with.
#[derive(Clone, PartialEq, Eq, Debug)]
pub struct NativeTypeInstance {
    pub native_type: PostgresType,
    pub serialized_native_type: String,
}

/// Ghost mirror of [`NativeTypeInstance`].
#[verifier::ext_equal]
pub ghost struct NativeTypeInstanceV {
    pub native_type: PostgresType,
    pub serialized_native_type: Seq<char>,
}

impl DeepView for NativeTypeInstance {
    type V = NativeTypeInstanceV;

    open spec fn deep_view(&self) -> NativeTypeInstanceV {
        NativeTypeInstanceV {
            native_type: self.native_type,
            serialized_native_type: self.serialized_native_type.deep_view(),
        }
    }
}

/// The SQL type text for a PostgreSQL native type.
pub open spec fn spec_postgres_type_name(t: PostgresType) -> Seq<char> {
    match t {
        PostgresType::SmallInt => "SMALLINT"@,
        PostgresType::Integer => "INTEGER"@,
        PostgresType::BigInt => "BIGINT"@,
        PostgresType::Decimal(precision, scale) => "DECIMAL("@ + spec_decimal(precision as int)
            + ", "@ + spec_decimal(scale as int) + ")"@,
        PostgresType::Numeric(precision, scale) => "NUMERIC("@ + spec_decimal(precision as int)
            + ", "@ + spec_decimal(scale as int) + ")"@,
        PostgresType::Real => "REAL"@,
        PostgresType::DoublePrecision => "DOUBLE PRECISION"@,
        PostgresType::SmallSerial => "SMALLSERIAL"@,
        PostgresType::Serial => "SERIAL"@,
        PostgresType::BigSerial => "BIGSERIAL"@,
        PostgresType::VarChar(size) => "VARCHAR("@ + spec_decimal(size as int) + ")"@,
        PostgresType::Char(size) => "CHAR("@ + spec_decimal(size as int) + ")"@,
        PostgresType::Text => "TEXT"@,
        PostgresType::ByteA => "BYTEA"@,
        PostgresType::Timestamp(precision) => "TIMESTAMP("@ + spec_decimal(precision as int)
            + ")"@,
        PostgresType::TimestampWithTimeZone(precision) => "TIMESTAMP("@ + spec_decimal(
            precision as int,
        ) + ") WITH TIME ZONE"@,
        PostgresType::Date => "DATE"@,
        PostgresType::Time(precision) => "TIME("@ + spec_decimal(precision as int) + ")"@,
        PostgresType::TimeWithTimeZone(precision) => "TIMETZ("@ + spec_decimal(precision as int)
            + ")"@,
        PostgresType::Interval(precision) => "INTERVAL("@ + spec_decimal(precision as int) + ")"@,
        PostgresType::Boolean => "BOOLEAN"@,
        PostgresType::Bit(size) => "BIT("@ + spec_decimal(size as int) + ")"@,
        PostgresType::VarBit(size) => "VARBIT("@ + spec_decimal(size as int) + ")"@,
        PostgresType::UUID => "UUID"@,
        PostgresType::XML => "XML"@,
        PostgresType::JSON => "JSON"@,
        PostgresType::JSONB => "JSONB"@,
        PostgresType::NotHandled => Seq::<char>::empty(),
    }
}

/// The column arity for a field arity.
pub open spec fn spec_column_arity(arity: FieldArity) -> ColumnArity {
    match arity {
        FieldArity::Required => ColumnArity::Required,
        FieldArity::Optional => ColumnArity::Nullable,
        FieldArity::List => ColumnArity::List,
    }
}

/// The flavour handle for PostgreSQL.
pub struct PostgresFlavour {}

impl PostgresFlavour {
    /// The database enums a data model implies on this dialect: one native
    /// enum type per data-model enum, under its database name where one is
    /// set, with each value's database name where one is set.
    pub fn calculate_enums(&self, data_model: &Datamodel) -> (r: Vec<SqlEnum>)
        ensures
            r.deep_view() == data_model.deep_view().enums.map_values(
                |e: DmlEnumV| spec_sql_enum(e),
            ),
    {
        let ghost dmv = data_model.deep_view();
        let mut out: Vec<SqlEnum> = Vec::new();
        let mut i: usize = 0;
        proof {
            assert(out.deep_view() =~= dmv.enums.take(0int).map_values(
                |e: DmlEnumV| spec_sql_enum(e),
            ));
        }
        while i < data_model.enums.len()
            invariant
                i <= data_model.enums@.len(),
                dmv == data_model.deep_view(),
                dmv.enums.len() == data_model.enums@.len(),
                out.deep_view() == dmv.enums.take(i as int).map_values(
                    |e: DmlEnumV| spec_sql_enum(e),
                ),
            decreases data_model.enums@.len() - i,
        {
            let ghost prev = out.deep_view();
            let e = &data_model.enums[i];
            let name = match &e.database_name {
                Some(db) => db.clone(),
                None => e.name.clone(),
            };
            let mut values: Vec<String> = Vec::new();
            let mut j: usize = 0;
            proof {
                assert(values.deep_view() =~= e.deep_view().values.take(0int).map_values(
                    |v: crate::dml::EnumValueV| spec_enum_value_db_name(v),
                ));
            }
            while j < e.values.len()
                invariant
                    j <= e.values@.len(),
                    e == &data_model.enums@[i as int],
                    e.deep_view().values.len() == e.values@.len(),
                    values.deep_view() == e.deep_view().values.take(j as int).map_values(
                        |v: crate::dml::EnumValueV| spec_enum_value_db_name(v),
                    ),
                decreases e.values@.len() - j,
            {
                let ghost vprev = values.deep_view();
                let value = &e.values[j];
                let db_value = match &value.database_name {
                    Some(db) => db.clone(),
                    None => value.name.clone(),
                };
                values.push(db_value);
                proof {
                    assert(values@.len() == vprev.len() + 1);
                    assert(values.deep_view() =~= vprev.push(values@[values@.len() - 1]@));
                    e.deep_view().values.lemma_map_take_succ(
                        |v: crate::dml::EnumValueV| spec_enum_value_db_name(v),
                        j as int,
                    );
                }
                j = j + 1;
            }
            proof {
                assert(e.deep_view().values.take(e.deep_view().values.len() as int)
                    =~= e.deep_view().values);
            }
            out.push(SqlEnum { name, values });
            proof {
                assert(out@.len() == prev.len() + 1);
                assert(out.deep_view() =~= prev.push(out@[out@.len() - 1].deep_view()));
                dmv.enums.lemma_map_take_succ(|e: DmlEnumV| spec_sql_enum(e), i as int);
            }
            i = i + 1;
        }
        proof {
            assert(dmv.enums.take(dmv.enums.len() as int) =~= dmv.enums);
        }
        out
    }

    /// The SQL column type a declared native type implies: the type text per
    /// dialect rule, the field's arity carried over, and the declared text
    /// kept as the native-type tag.
    pub fn column_type_for_native_type(
        &self,
        field: &ScalarField,
        native_type_instance: &NativeTypeInstance,
    ) -> (r: ColumnType)
        requires
            native_type_instance.native_type != PostgresType::NotHandled,
        ensures
            r.deep_view() == spec_column_type_for_native_type(
                field.deep_view().arity,
                native_type_instance.deep_view(),
            ),
    {
        let data_type = postgres_type_name(&native_type_instance.native_type);
        let full_data_type = data_type.clone();
        ColumnType {
            data_type,
            full_data_type,
            character_maximum_length: None,
            family: ColumnTypeFamily::String,
            arity: match field.arity {
                FieldArity::Required => ColumnArity::Required,
                FieldArity::Optional => ColumnArity::Nullable,
                FieldArity::List => ColumnArity::List,
            },
            native_type: Some(native_type_instance.serialized_native_type.clone()),
        }
    }
}

/// The database value of one data-model enum value.
pub open spec fn spec_enum_value_db_name(v: crate::dml::EnumValueV) -> Seq<char> {
    match v.database_name {
        Some(db) => db,
        None => v.name,
    }
}

/// The database enum a data-model enum implies.
pub open spec fn spec_sql_enum(e: DmlEnumV) -> SqlEnumV {
    SqlEnumV {
        name: match e.database_name {
            Some(db) => db,
            None => e.name,
        },
        values: e.values.map_values(|v: crate::dml::EnumValueV| spec_enum_value_db_name(v)),
    }
}

/// The SQL column type a declared native type implies.
pub open spec fn spec_column_type_for_native_type(
    arity: FieldArity,
    native: NativeTypeInstanceV,
) -> ColumnTypeV {
    let text = spec_postgres_type_name(native.native_type);
    ColumnTypeV {
        data_type: text,
        full_data_type: text,
        character_maximum_length: None,
        family: ColumnTypeFamilyV::String,
        arity: spec_column_arity(arity),
        native_type: Some(native.serialized_native_type),
    }
}

/// The SQL type text for a PostgreSQL native type.
fn postgres_type_name(t: &PostgresType) -> (r: String)
    ensures
        r@ == spec_postgres_type_name(*t),
{
    match t {
        PostgresType::SmallInt => "SMALLINT".to_owned(),
        PostgresType::Integer => "INTEGER".to_owned(),
        PostgresType::BigInt => "BIGINT".to_owned(),
        PostgresType::Decimal(precision, scale) => {
            sized_type2("DECIMAL(", *precision, ", ", *scale, ")")
        },
        PostgresType::Numeric(precision, scale) => {
            sized_type2("NUMERIC(", *precision, ", ", *scale, ")")
        },
        PostgresType::Real => "REAL".to_owned(),
        PostgresType::DoublePrecision => "DOUBLE PRECISION".to_owned(),
        PostgresType::SmallSerial => "SMALLSERIAL".to_owned(),
        PostgresType::Serial => "SERIAL".to_owned(),
        PostgresType::BigSerial => "BIGSERIAL".to_owned(),
        PostgresType::VarChar(size) => sized_type1("VARCHAR(", *size, ")"),
        PostgresType::Char(size) => sized_type1("CHAR(", *size, ")"),
        PostgresType::Text => "TEXT".to_owned(),
        PostgresType::ByteA => "BYTEA".to_owned(),
        PostgresType::Timestamp(precision) => sized_type1("TIMESTAMP(", *precision, ")"),
        PostgresType::TimestampWithTimeZone(precision) => {
            sized_type1("TIMESTAMP(", *precision, ") WITH TIME ZONE")
        },
        PostgresType::Date => "DATE".to_owned(),
        PostgresType::Time(precision) => sized_type1("TIME(", *precision, ")"),
        PostgresType::TimeWithTimeZone(precision) => sized_type1("TIMETZ(", *precision, ")"),
        PostgresType::Interval(precision) => sized_type1("INTERVAL(", *precision, ")"),
        PostgresType::Boolean => "BOOLEAN".to_owned(),
        PostgresType::Bit(size) => sized_type1("BIT(", *size, ")"),
        PostgresType::VarBit(size) => sized_type1("VARBIT(", *size, ")"),
        PostgresType::UUID => "UUID".to_owned(),
        PostgresType::XML => "XML".to_owned(),
        PostgresType::JSON => "JSON".to_owned(),
        PostgresType::JSONB => "JSONB".to_owned(),
        PostgresType::NotHandled => String::new(),
    }
}

/// A type text of the shape `HEAD(n)TAIL`.
fn sized_type1(head: &str, n: u32, tail: &str) -> (r: String)
    ensures
        r@ == head@ + spec_decimal(n as int) + tail@,
{
    let mut out = String::new();
    out.append(head);
    out.append(render_u64(n as u64).as_str());
    out.append(tail);
    out
}

/// A type text of the shape `HEAD(a, b)TAIL`.
fn sized_type2(head: &str, a: u32, mid: &str, b: u32, tail: &str) -> (r: String)
    ensures
        r@ == head@ + spec_decimal(a as int) + mid@ + spec_decimal(b as int) + tail@,
{
    let mut out = String::new();
    out.append(head);
    out.append(render_u64(a as u64).as_str());
    out.append(mid);
    out.append(render_u64(b as u64).as_str());
    out.append(tail);
    out
}

} // verus!
