//! Cross-component laws of the library, stated once and proved from the
//! components' own contracts.

use vstd::prelude::*;
use crate::calculator::spec_column_for_field;
use crate::dml::{DefaultValueV as DmlDefaultV, EnumV as DmlEnumV, FieldTypeV, ScalarFieldV,
    spec_autoincrement};
use crate::introspection::{spec_calculate_datamodel, spec_column_has_single_unique,
    spec_column_is_single_pk, spec_dml_enum, spec_scalar_field};
use crate::postgres_calc::spec_sql_enum;
use crate::schema::{SqlSchemaV, TableV};
use crate::strutil::spec_sanitize;

verus! {

/// Naming determinism: what introspection derives — models, field names,
/// relation names — is a function of the schema value alone. Two
/// introspections of the same schema agree completely; no iteration order
/// or environment can show through, because `calculate_datamodel` promises
/// its result equals this function of the input.
pub proof fn lemma_introspection_deterministic(a: SqlSchemaV, b: SqlSchemaV)
    requires
        a == b,
    ensures
        spec_calculate_datamodel(a) == spec_calculate_datamodel(b),
{
}

/// The enum leg of the round trip: a data-model enum carrying no database
/// names, documentation or commented-out markers comes back unchanged when
/// the database enum the calculator emits for it is introspected again.
pub proof fn lemma_enum_round_trip(e: DmlEnumV)
    requires
        e.database_name is None,
        e.documentation is None,
        !e.commented_out,
        forall|i: int|
            0 <= i < e.values.len() ==> (#[trigger] e.values[i]).database_name is None && e.values[
                i
            ].documentation is None && !e.values[i].commented_out,
    ensures
        spec_dml_enum(spec_sql_enum(e)) == e,
{
    assert(spec_dml_enum(spec_sql_enum(e)).values =~= e.values);
    assert(spec_dml_enum(spec_sql_enum(e)) =~= e);
}

/// The scalar-field leg of the round trip: a scalar field in the
/// introspector's canonical shape — a legal identifier for a name, no
/// separate database name, no documentation or generated markers, a base
/// or enum type without a native-type tag, and a default that is absent, a
/// literal, or `autoincrement()` — comes back unchanged when the column
/// the calculator emits for it is introspected on a table whose keys and
/// unique indices agree with the field's flags.
pub proof fn lemma_scalar_field_round_trip(t: TableV, f: ScalarFieldV)
    requires
        spec_sanitize(f.name) == f.name,
        f.database_name is None,
        f.documentation is None,
        !f.is_generated,
        !f.is_updated_at,
        !f.is_commented_out,
        match f.field_type {
            FieldTypeV::Base(_, native) => native is None,
            FieldTypeV::Enum(_) => true,
            FieldTypeV::Unsupported(_) => false,
        },
        match f.default_value {
            None => true,
            Some(DmlDefaultV::Single(_)) => true,
            Some(DmlDefaultV::Expression(g)) => g == spec_autoincrement(),
        },
        f.is_id == spec_column_is_single_pk(t, f.name),
        f.is_unique == spec_column_has_single_unique(t, f.name),
    ensures
        spec_scalar_field(t, spec_column_for_field(f)) == f,
{
    assert(spec_scalar_field(t, spec_column_for_field(f)) =~= f);
}

} // verus!
