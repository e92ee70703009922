//! The schema differ: compare two SQL schemas and emit the ordered change
//! plan, in the fixed top-level order — dropped foreign keys, dropped
//! indices, dropped tables, table alterations, created tables, created
//! indices and index renames, added foreign keys, then enum changes.

use vstd::prelude::*;
use crate::schema::{spec_find_column, spec_find_enum, spec_find_table,
    spec_index_has_nullable_column, index_has_nullable_column, find_enum, optional_defaults_eq,
    column_type_families_eq, string_lists_eq, clone_column, clone_enum, clone_foreign_key,
    clone_index, clone_table, Column, ColumnV, Enum, EnumV, ForeignKey, ForeignKeyV, Index,
    IndexType, IndexV, SqlSchema, SqlSchemaV, Table, TableV};
use crate::sql_migration::{AddForeignKey, AddForeignKeyV, AlterColumn, AlterColumnV, AlterIndex,
    AlterIndexV, AlterEnum, AlterEnumV, AlterTable, AlterTableV, CreateEnum, CreateEnumV,
    CreateIndex, CreateIndexV, CreateTable, CreateTableV, DropEnum, DropEnumV, DropForeignKey,
    DropForeignKeyV, DropIndex, DropIndexV, DropTable, DropTableV, SqlMigrationStep,
    SqlMigrationStepV, TableChange, TableChangeV};
use crate::strutil::str_eq;
use crate::sequences::{clone_string_vec, lemma_filter_map_all_none, lemma_filter_map_take_succ,
    lemma_flat_map_all_empty, spec_filter_map};

verus! {

// --- matching -------------------------------------------------------------

/// Whether two foreign keys are the same constraint: same local columns,
/// referenced table and referenced columns.
pub open spec fn spec_fk_matches(a: ForeignKeyV, b: ForeignKeyV) -> bool {
    a.columns == b.columns && a.referenced_table == b.referenced_table && a.referenced_columns
        == b.referenced_columns
}

/// Whether some foreign key of the list matches `fk`.
pub open spec fn spec_has_matching_fk(fks: Seq<ForeignKeyV>, fk: ForeignKeyV) -> bool {
    exists|i: int| 0 <= i < fks.len() && spec_fk_matches(#[trigger] fks[i], fk)
}

/// Whether two indices are the same: same name, columns and kind.
pub open spec fn spec_index_matches(a: IndexV, b: IndexV) -> bool {
    a.name == b.name && a.columns == b.columns && a.tpe == b.tpe
}

/// Whether two indices have the same shape: same columns and kind, any
/// name.
pub open spec fn spec_index_same_shape(a: IndexV, b: IndexV) -> bool {
    a.columns == b.columns && a.tpe == b.tpe
}

/// Whether some index of the list is the same as `ix`.
pub open spec fn spec_has_matching_index(indices: Seq<IndexV>, ix: IndexV) -> bool {
    exists|i: int| 0 <= i < indices.len() && spec_index_matches(#[trigger] indices[i], ix)
}

/// The first index of the list with the same shape as `ix`, if any.
pub open spec fn spec_find_same_shape(indices: Seq<IndexV>, ix: IndexV) -> Option<IndexV>
    decreases indices.len(),
{
    if indices.len() == 0 {
        None
    } else if spec_index_same_shape(indices[0], ix) {
        Some(indices[0])
    } else {
        spec_find_same_shape(indices.drop_first(), ix)
    }
}

/// Whether a kept column changed in any way the plan records: type family,
/// arity, default or auto-increment.
pub open spec fn spec_columns_differ(previous: ColumnV, next: ColumnV) -> bool {
    ||| previous.tpe.family != next.tpe.family
    ||| previous.tpe.arity != next.tpe.arity
    ||| previous.default != next.default
    ||| previous.auto_increment != next.auto_increment
}

/// Whether two foreign keys are the same constraint.
fn fk_matches(a: &ForeignKey, b: &ForeignKey) -> (r: bool)
    ensures
        r == spec_fk_matches(a.deep_view(), b.deep_view()),
{
    string_lists_eq(&a.columns, &b.columns) && str_eq(
        a.referenced_table.as_str(),
        b.referenced_table.as_str(),
    ) && string_lists_eq(&a.referenced_columns, &b.referenced_columns)
}

/// Whether some foreign key of the list matches `fk`.
fn has_matching_fk(fks: &Vec<ForeignKey>, fk: &ForeignKey) -> (r: bool)
    ensures
        r == spec_has_matching_fk(fks.deep_view(), fk.deep_view()),
{
    let ghost fv = fks.deep_view();
    let mut i: usize = 0;
    while i < fks.len()
        invariant
            i <= fks@.len(),
            fv == fks.deep_view(),
            fv.len() == fks@.len(),
            forall|j: int| 0 <= j < i ==> !spec_fk_matches(#[trigger] fv[j], fk.deep_view()),
        decreases fks@.len() - i,
    {
        if fk_matches(&fks[i], fk) {
            proof {
                assert(spec_has_matching_fk(fv, fk.deep_view())) by {
                    assert(0 <= i < fv.len() && spec_fk_matches(fv[i as int], fk.deep_view()));
                }
            }
            return true;
        }
        i = i + 1;
    }
    false
}

/// Whether two indices are the same.
fn index_matches(a: &Index, b: &Index) -> (r: bool)
    ensures
        r == spec_index_matches(a.deep_view(), b.deep_view()),
{
    str_eq(a.name.as_str(), b.name.as_str()) && string_lists_eq(&a.columns, &b.columns) && a.tpe
        == b.tpe
}

/// Whether two indices have the same shape.
fn index_same_shape(a: &Index, b: &Index) -> (r: bool)
    ensures
        r == spec_index_same_shape(a.deep_view(), b.deep_view()),
{
    string_lists_eq(&a.columns, &b.columns) && a.tpe == b.tpe
}

/// Whether some index of the list is the same as `ix`.
fn has_matching_index(indices: &Vec<Index>, ix: &Index) -> (r: bool)
    ensures
        r == spec_has_matching_index(indices.deep_view(), ix.deep_view()),
{
    let ghost iv = indices.deep_view();
    let mut i: usize = 0;
    while i < indices.len()
        invariant
            i <= indices@.len(),
            iv == indices.deep_view(),
            iv.len() == indices@.len(),
            forall|j: int| 0 <= j < i ==> !spec_index_matches(#[trigger] iv[j], ix.deep_view()),
        decreases indices@.len() - i,
    {
        if index_matches(&indices[i], ix) {
            proof {
                assert(spec_has_matching_index(iv, ix.deep_view())) by {
                    assert(0 <= i < iv.len() && spec_index_matches(iv[i as int], ix.deep_view()));
                }
            }
            return true;
        }
        i = i + 1;
    }
    false
}

proof fn lemma_find_same_shape_skip(indices: Seq<IndexV>, ix: IndexV, i: int)
    requires
        0 <= i <= indices.len(),
        forall|j: int| 0 <= j < i ==> !spec_index_same_shape(#[trigger] indices[j], ix),
    ensures
        spec_find_same_shape(indices, ix) == spec_find_same_shape(indices.skip(i), ix),
    decreases i,
{
    if i > 0 {
        lemma_find_same_shape_skip(indices, ix, i - 1);
        let shorter = indices.skip(i - 1);
        assert(shorter[0] == indices[i - 1]);
        assert(shorter.drop_first() =~= indices.skip(i));
    } else {
        assert(indices.skip(0) =~= indices);
    }
}

/// The first index of the list with the same shape as `ix`, if any.
fn find_same_shape<'a>(indices: &'a Vec<Index>, ix: &Index) -> (r: Option<&'a Index>)
    ensures
        match r {
            Some(found) => spec_find_same_shape(indices.deep_view(), ix.deep_view()) == Some(
                found.deep_view(),
            ),
            None => spec_find_same_shape(indices.deep_view(), ix.deep_view()) is None,
        },
{
    let ghost iv = indices.deep_view();
    let mut i: usize = 0;
    while i < indices.len()
        invariant
            i <= indices@.len(),
            iv == indices.deep_view(),
            iv.len() == indices@.len(),
            forall|j: int| 0 <= j < i ==> !spec_index_same_shape(#[trigger] iv[j], ix.deep_view()),
        decreases indices@.len() - i,
    {
        if index_same_shape(&indices[i], ix) {
            proof {
                lemma_find_same_shape_skip(iv, ix.deep_view(), i as int);
                assert(iv.skip(i as int)[0] == iv[i as int]);
            }
            return Some(&indices[i]);
        }
        i = i + 1;
    }
    proof {
        lemma_find_same_shape_skip(iv, ix.deep_view(), iv.len() as int);
        assert(iv.skip(iv.len() as int) =~= Seq::<IndexV>::empty());
    }
    None
}

/// Whether a kept column changed in any way the plan records.
fn columns_differ(previous: &Column, next: &Column) -> (r: bool)
    ensures
        r == spec_columns_differ(previous.deep_view(), next.deep_view()),
{
    !column_type_families_eq(&previous.tpe.family, &next.tpe.family) || previous.tpe.arity
        != next.tpe.arity || !optional_defaults_eq(&previous.default, &next.default)
        || previous.auto_increment != next.auto_increment
}

// --- the change groups ----------------------------------------------------

/// What one foreign key of a kept table contributes to the dropped group:
/// a drop of its named constraint when nothing in the next table matches
/// it; an unnamed constraint cannot be dropped by name and is left alone.
pub open spec fn spec_drop_fk_entry(owner: Seq<char>, tn: TableV, k: ForeignKeyV) -> Option<
    SqlMigrationStepV,
> {
    if !spec_has_matching_fk(tn.foreign_keys, k) && k.constraint_name is Some {
        Some(
            SqlMigrationStepV::DropForeignKey(
                DropForeignKeyV { table: owner, constraint_name: k.constraint_name->Some_0 },
            ),
        )
    } else {
        None
    }
}

/// The dropped foreign keys of one previous table.
pub open spec fn spec_dropped_fks_of(tp: TableV, n: SqlSchemaV) -> Seq<SqlMigrationStepV> {
    match spec_find_table(n.tables, tp.name) {
        Some(tn) => spec_filter_map(
            tp.foreign_keys,
            |k: ForeignKeyV| spec_drop_fk_entry(tp.name, tn, k),
        ),
        None => Seq::<SqlMigrationStepV>::empty(),
    }
}

/// The named foreign keys of kept tables whose constraint no longer
/// matches anything in the next schema.
pub open spec fn spec_dropped_foreign_keys(p: SqlSchemaV, n: SqlSchemaV) -> Seq<
    SqlMigrationStepV,
> {
    p.tables.flat_map(|tp: TableV| spec_dropped_fks_of(tp, n))
}

/// What one index of a kept table contributes to the dropped group: a drop
/// when it neither survives unchanged nor survives as a pure rename.
pub open spec fn spec_drop_index_entry(owner: Seq<char>, tn: TableV, ix: IndexV) -> Option<
    SqlMigrationStepV,
> {
    if !spec_has_matching_index(tn.indices, ix) && spec_find_same_shape(tn.indices, ix) is None {
        Some(SqlMigrationStepV::DropIndex(DropIndexV { table: owner, name: ix.name }))
    } else {
        None
    }
}

/// The dropped indices of one previous table.
pub open spec fn spec_dropped_indexes_of(tp: TableV, n: SqlSchemaV) -> Seq<SqlMigrationStepV> {
    match spec_find_table(n.tables, tp.name) {
        Some(tn) => spec_filter_map(
            tp.indices,
            |ix: IndexV| spec_drop_index_entry(tp.name, tn, ix),
        ),
        None => Seq::<SqlMigrationStepV>::empty(),
    }
}

/// The indices of kept tables that neither survive unchanged nor survive
/// as a pure rename.
pub open spec fn spec_dropped_indexes(p: SqlSchemaV, n: SqlSchemaV) -> Seq<SqlMigrationStepV> {
    p.tables.flat_map(|tp: TableV| spec_dropped_indexes_of(tp, n))
}

/// The tables of `p` that `n` no longer holds.
pub open spec fn spec_dropped_tables(p: SqlSchemaV, n: SqlSchemaV) -> Seq<SqlMigrationStepV> {
    spec_filter_map(
        p.tables,
        |tp: TableV|
            if spec_find_table(n.tables, tp.name) is None {
                Some(SqlMigrationStepV::DropTable(DropTableV { name: tp.name }))
            } else {
                None
            },
    )
}

/// What one previous column contributes: a drop when the next table no
/// longer holds a column of its name.
pub open spec fn spec_drop_column_entry(tn: TableV, c: ColumnV) -> Option<TableChangeV> {
    if spec_find_column(tn.columns, c.name) is None {
        Some(TableChangeV::DropColumn(c.name))
    } else {
        None
    }
}

/// What one next column contributes to additions: an add when the previous
/// table held no column of its name.
pub open spec fn spec_add_column_entry(tp: TableV, c: ColumnV) -> Option<TableChangeV> {
    if spec_find_column(tp.columns, c.name) is None {
        Some(TableChangeV::AddColumn(c))
    } else {
        None
    }
}

/// What one next column contributes to alterations: an alter when a column
/// of its name existed before and differs.
pub open spec fn spec_alter_column_entry(tp: TableV, c: ColumnV) -> Option<TableChangeV> {
    match spec_find_column(tp.columns, c.name) {
        Some(pc) => if spec_columns_differ(pc, c) {
            Some(TableChangeV::AlterColumn(AlterColumnV { name: c.name, column: c }))
        } else {
            None
        },
        None => None,
    }
}

/// The changes to the columns of one kept table: dropped columns first,
/// then added columns, then altered columns.
pub open spec fn spec_column_changes(tp: TableV, tn: TableV) -> Seq<TableChangeV> {
    spec_filter_map(tp.columns, |c: ColumnV| spec_drop_column_entry(tn, c)) + spec_filter_map(
        tn.columns,
        |c: ColumnV| spec_add_column_entry(tp, c),
    ) + spec_filter_map(tn.columns, |c: ColumnV| spec_alter_column_entry(tp, c))
}

/// The primary-key changes of one kept table: where the column lists
/// differ, the old key is dropped and the new one added.
pub open spec fn spec_pk_changes(tp: TableV, tn: TableV) -> Seq<TableChangeV> {
    let pcols: Seq<Seq<char>> = match tp.primary_key {
        Some(pk) => pk.columns,
        None => Seq::<Seq<char>>::empty(),
    };
    let ncols: Seq<Seq<char>> = match tn.primary_key {
        Some(pk) => pk.columns,
        None => Seq::<Seq<char>>::empty(),
    };
    if pcols == ncols {
        Seq::<TableChangeV>::empty()
    } else {
        (if pcols.len() > 0 {
            seq![
                TableChangeV::DropPrimaryKey {
                    constraint_name: match tp.primary_key {
                        Some(pk) => pk.constraint_name,
                        None => None,
                    },
                },
            ]
        } else {
            Seq::<TableChangeV>::empty()
        }) + (if ncols.len() > 0 {
            seq![TableChangeV::AddPrimaryKey { columns: ncols }]
        } else {
            Seq::<TableChangeV>::empty()
        })
    }
}

/// The alteration of one kept table, when anything changed.
pub open spec fn spec_altered_table_of(tp: TableV, n: SqlSchemaV) -> Seq<SqlMigrationStepV> {
    match spec_find_table(n.tables, tp.name) {
        Some(tn) => {
            let changes = spec_column_changes(tp, tn) + spec_pk_changes(tp, tn);
            if changes.len() == 0 {
                Seq::<SqlMigrationStepV>::empty()
            } else {
                seq![SqlMigrationStepV::AlterTable(AlterTableV { table: tn, changes: changes })]
            }
        },
        None => Seq::<SqlMigrationStepV>::empty(),
    }
}

/// One table alteration per kept table with changes.
pub open spec fn spec_altered_tables(p: SqlSchemaV, n: SqlSchemaV) -> Seq<SqlMigrationStepV> {
    p.tables.flat_map(|tp: TableV| spec_altered_table_of(tp, n))
}

/// The tables of `n` that `p` does not hold yet.
pub open spec fn spec_created_tables(p: SqlSchemaV, n: SqlSchemaV) -> Seq<SqlMigrationStepV> {
    spec_filter_map(
        n.tables,
        |tn: TableV|
            if spec_find_table(p.tables, tn.name) is None {
                Some(SqlMigrationStepV::CreateTable(CreateTableV { table: tn }))
            } else {
                None
            },
    )
}

/// The index creation for one index of table `t`.
pub open spec fn spec_create_index_step(t: TableV, ix: IndexV, by_create: bool) -> SqlMigrationStepV {
    SqlMigrationStepV::CreateIndex(
        CreateIndexV {
            table: t.name,
            index: ix,
            caused_by_create_table: by_create,
            contains_nullable_columns: spec_index_has_nullable_column(t, ix),
        },
    )
}

/// What one next index of a kept table contributes: a creation when it
/// neither existed before nor arises by pure rename.
pub open spec fn spec_create_index_entry(tn: TableV, tp: TableV, ix: IndexV) -> Option<
    SqlMigrationStepV,
> {
    if !spec_has_matching_index(tp.indices, ix) && spec_find_same_shape(tp.indices, ix) is None {
        Some(spec_create_index_step(tn, ix, false))
    } else {
        None
    }
}

/// The created indices of one next table: every index of a created table,
/// the genuinely new indices of a kept table.
pub open spec fn spec_created_indexes_of(tn: TableV, p: SqlSchemaV) -> Seq<SqlMigrationStepV> {
    match spec_find_table(p.tables, tn.name) {
        Some(tp) => spec_filter_map(
            tn.indices,
            |ix: IndexV| spec_create_index_entry(tn, tp, ix),
        ),
        None => tn.indices.map_values(|ix: IndexV| spec_create_index_step(tn, ix, true)),
    }
}

/// The indices to create.
pub open spec fn spec_created_indexes(p: SqlSchemaV, n: SqlSchemaV) -> Seq<SqlMigrationStepV> {
    n.tables.flat_map(|tn: TableV| spec_created_indexes_of(tn, p))
}

/// What one previous index of a kept table contributes to renames: an
/// index rename when its shape survives under another name.
pub open spec fn spec_rename_index_entry(owner: Seq<char>, tn: TableV, ix: IndexV) -> Option<
    SqlMigrationStepV,
> {
    if !spec_has_matching_index(tn.indices, ix) {
        match spec_find_same_shape(tn.indices, ix) {
            Some(renamed) => Some(
                SqlMigrationStepV::AlterIndex(
                    AlterIndexV {
                        table: owner,
                        index_name: ix.name,
                        index_new_name: renamed.name,
                    },
                ),
            ),
            None => None,
        }
    } else {
        None
    }
}

/// The index renames of one previous table.
pub open spec fn spec_renamed_indexes_of(tp: TableV, n: SqlSchemaV) -> Seq<SqlMigrationStepV> {
    match spec_find_table(n.tables, tp.name) {
        Some(tn) => spec_filter_map(
            tp.indices,
            |ix: IndexV| spec_rename_index_entry(tp.name, tn, ix),
        ),
        None => Seq::<SqlMigrationStepV>::empty(),
    }
}

/// The pure index renames.
pub open spec fn spec_renamed_indexes(p: SqlSchemaV, n: SqlSchemaV) -> Seq<SqlMigrationStepV> {
    p.tables.flat_map(|tp: TableV| spec_renamed_indexes_of(tp, n))
}

/// What one next foreign key of a kept table contributes: an addition when
/// nothing in the previous table matches it.
pub open spec fn spec_add_fk_entry(owner: Seq<char>, tp: TableV, k: ForeignKeyV) -> Option<
    SqlMigrationStepV,
> {
    if !spec_has_matching_fk(tp.foreign_keys, k) {
        Some(
            SqlMigrationStepV::AddForeignKey(AddForeignKeyV { table: owner, foreign_key: k }),
        )
    } else {
        None
    }
}

/// The added foreign keys of one next table: all of them for a created
/// table, the unmatched ones for a kept table.
pub open spec fn spec_added_fks_of(tn: TableV, p: SqlSchemaV) -> Seq<SqlMigrationStepV> {
    match spec_find_table(p.tables, tn.name) {
        Some(tp) => spec_filter_map(
            tn.foreign_keys,
            |k: ForeignKeyV| spec_add_fk_entry(tn.name, tp, k),
        ),
        None => tn.foreign_keys.map_values(
            |k: ForeignKeyV|
                SqlMigrationStepV::AddForeignKey(
                    AddForeignKeyV { table: tn.name, foreign_key: k },
                ),
        ),
    }
}

/// The foreign keys to add.
pub open spec fn spec_added_foreign_keys(p: SqlSchemaV, n: SqlSchemaV) -> Seq<SqlMigrationStepV> {
    n.tables.flat_map(|tn: TableV| spec_added_fks_of(tn, p))
}

/// The enums of `n` that `p` does not hold yet.
pub open spec fn spec_created_enums(p: SqlSchemaV, n: SqlSchemaV) -> Seq<SqlMigrationStepV> {
    spec_filter_map(
        n.enums,
        |en: EnumV|
            if spec_find_enum(p.enums, en.name) is None {
                Some(SqlMigrationStepV::CreateEnum(CreateEnumV { enum_def: en }))
            } else {
                None
            },
    )
}

/// The enums of `p` that `n` no longer holds.
pub open spec fn spec_dropped_enums(p: SqlSchemaV, n: SqlSchemaV) -> Seq<SqlMigrationStepV> {
    spec_filter_map(
        p.enums,
        |ep: EnumV|
            if spec_find_enum(n.enums, ep.name) is None {
                Some(SqlMigrationStepV::DropEnum(DropEnumV { name: ep.name }))
            } else {
                None
            },
    )
}

/// What one kept enum contributes: an alteration listing the values that
/// appeared and the values that vanished, when either list is non-empty.
pub open spec fn spec_alter_enum_entry(p: SqlSchemaV, en: EnumV) -> Option<SqlMigrationStepV> {
    match spec_find_enum(p.enums, en.name) {
        Some(ep) => {
            let created = spec_filter_map(
                en.values,
                |v: Seq<char>|
                    if !ep.values.contains(v) {
                        Some(v)
                    } else {
                        None
                    },
            );
            let dropped = spec_filter_map(
                ep.values,
                |v: Seq<char>|
                    if !en.values.contains(v) {
                        Some(v)
                    } else {
                        None
                    },
            );
            if created.len() == 0 && dropped.len() == 0 {
                None
            } else {
                Some(
                    SqlMigrationStepV::AlterEnum(
                        AlterEnumV {
                            name: en.name,
                            created_values: created,
                            dropped_values: dropped,
                        },
                    ),
                )
            }
        },
        None => None,
    }
}

/// One enum alteration per kept enum whose value list changed.
pub open spec fn spec_altered_enums(p: SqlSchemaV, n: SqlSchemaV) -> Seq<SqlMigrationStepV> {
    spec_filter_map(n.enums, |en: EnumV| spec_alter_enum_entry(p, en))
}

/// The full plan for migrating `p` to `n`, in the fixed top-level order.
pub open spec fn spec_diff(p: SqlSchemaV, n: SqlSchemaV) -> Seq<SqlMigrationStepV> {
    spec_dropped_foreign_keys(p, n) + spec_dropped_indexes(p, n) + spec_dropped_tables(p, n)
        + spec_altered_tables(p, n) + spec_created_tables(p, n) + spec_created_indexes(p, n)
        + spec_renamed_indexes(p, n) + spec_added_foreign_keys(p, n) + spec_created_enums(p, n)
        + spec_dropped_enums(p, n) + spec_altered_enums(p, n)
}

// --- idempotence ----------------------------------------------------------

/// Whether the schema's table names are pairwise distinct.
pub open spec fn spec_distinct_table_names(s: SqlSchemaV) -> bool {
    forall|a: int, b: int|
        0 <= a < b < s.tables.len() ==> (#[trigger] s.tables[a].name) != (#[trigger]
        s.tables[b].name)
}

/// Whether the schema's enum names are pairwise distinct.
pub open spec fn spec_distinct_enum_names(s: SqlSchemaV) -> bool {
    forall|a: int, b: int|
        0 <= a < b < s.enums.len() ==> (#[trigger] s.enums[a].name) != (#[trigger]
        s.enums[b].name)
}

/// Whether the table's column names are pairwise distinct.
pub open spec fn spec_distinct_column_names(t: TableV) -> bool {
    forall|a: int, b: int|
        0 <= a < b < t.columns.len() ==> (#[trigger] t.columns[a].name) != (#[trigger]
        t.columns[b].name)
}

/// Diff idempotence: comparing a well-formed schema — distinct table,
/// enum and per-table column names, as schemas hold by construction — with
/// itself yields the empty plan.
pub proof fn lemma_diff_idempotent(s: SqlSchemaV)
    requires
        spec_distinct_table_names(s),
        spec_distinct_enum_names(s),
        forall|i: int|
            0 <= i < s.tables.len() ==> spec_distinct_column_names(#[trigger] s.tables[i]),
    ensures
        spec_diff(s, s) == Seq::<SqlMigrationStepV>::empty(),
{
    // Dropped foreign keys: every foreign key matches itself.
    assert forall|i: int| 0 <= i < s.tables.len() implies (#[trigger] spec_dropped_fks_of(
        s.tables[i],
        s,
    )).len() == 0 by {
        let tp = s.tables[i];
        crate::schema::lemma_find_table_self(s.tables, i);
        let g = |k: ForeignKeyV| spec_drop_fk_entry(tp.name, tp, k);
        assert forall|j: int| 0 <= j < tp.foreign_keys.len() implies (#[trigger] g(
            tp.foreign_keys[j],
        )) is None by {
            assert(spec_has_matching_fk(tp.foreign_keys, tp.foreign_keys[j])) by {
                assert(spec_fk_matches(tp.foreign_keys[j], tp.foreign_keys[j]));
            }
        }
        lemma_filter_map_all_none(tp.foreign_keys, g);
    }
    lemma_flat_map_all_empty(s.tables, |tp: TableV| spec_dropped_fks_of(tp, s));
    assert(spec_dropped_foreign_keys(s, s) == Seq::<SqlMigrationStepV>::empty());

    // Dropped indices and renames: every index matches itself exactly.
    assert forall|i: int| 0 <= i < s.tables.len() implies (#[trigger] spec_dropped_indexes_of(
        s.tables[i],
        s,
    )).len() == 0 by {
        let tp = s.tables[i];
        crate::schema::lemma_find_table_self(s.tables, i);
        let g = |ix: IndexV| spec_drop_index_entry(tp.name, tp, ix);
        assert forall|j: int| 0 <= j < tp.indices.len() implies (#[trigger] g(
            tp.indices[j],
        )) is None by {
            assert(spec_has_matching_index(tp.indices, tp.indices[j])) by {
                assert(spec_index_matches(tp.indices[j], tp.indices[j]));
            }
        }
        lemma_filter_map_all_none(tp.indices, g);
    }
    lemma_flat_map_all_empty(s.tables, |tp: TableV| spec_dropped_indexes_of(tp, s));
    assert(spec_dropped_indexes(s, s) == Seq::<SqlMigrationStepV>::empty());

    assert forall|i: int| 0 <= i < s.tables.len() implies (#[trigger] spec_renamed_indexes_of(
        s.tables[i],
        s,
    )).len() == 0 by {
        let tp = s.tables[i];
        crate::schema::lemma_find_table_self(s.tables, i);
        let g = |ix: IndexV| spec_rename_index_entry(tp.name, tp, ix);
        assert forall|j: int| 0 <= j < tp.indices.len() implies (#[trigger] g(
            tp.indices[j],
        )) is None by {
            assert(spec_has_matching_index(tp.indices, tp.indices[j])) by {
                assert(spec_index_matches(tp.indices[j], tp.indices[j]));
            }
        }
        lemma_filter_map_all_none(tp.indices, g);
    }
    lemma_flat_map_all_empty(s.tables, |tp: TableV| spec_renamed_indexes_of(tp, s));
    assert(spec_renamed_indexes(s, s) == Seq::<SqlMigrationStepV>::empty());

    // Dropped and created tables: every table is found by its own name.
    assert forall|i: int| 0 <= i < s.tables.len() implies spec_find_table(
        s.tables,
        (#[trigger] s.tables[i]).name,
    ) is Some by {
        crate::schema::lemma_find_table_self(s.tables, i);
    }
    lemma_filter_map_all_none(
        s.tables,
        |tp: TableV|
            if spec_find_table(s.tables, tp.name) is None {
                Some(SqlMigrationStepV::DropTable(DropTableV { name: tp.name }))
            } else {
                None
            },
    );
    assert(spec_dropped_tables(s, s) == Seq::<SqlMigrationStepV>::empty());
    lemma_filter_map_all_none(
        s.tables,
        |tn: TableV|
            if spec_find_table(s.tables, tn.name) is None {
                Some(SqlMigrationStepV::CreateTable(CreateTableV { table: tn }))
            } else {
                None
            },
    );
    assert(spec_created_tables(s, s) == Seq::<SqlMigrationStepV>::empty());

    // Altered tables: a column compared with itself has not changed, and
    // the primary key is its own.
    assert forall|i: int| 0 <= i < s.tables.len() implies (#[trigger] spec_altered_table_of(
        s.tables[i],
        s,
    )).len() == 0 by {
        let tp = s.tables[i];
        crate::schema::lemma_find_table_self(s.tables, i);
        assert(spec_distinct_column_names(tp));
        let dropf = |c: ColumnV| spec_drop_column_entry(tp, c);
        assert forall|j: int| 0 <= j < tp.columns.len() implies (#[trigger] dropf(
            tp.columns[j],
        )) is None by {
            crate::schema::lemma_find_column_self(tp.columns, j);
        }
        lemma_filter_map_all_none(tp.columns, dropf);
        let addf = |c: ColumnV| spec_add_column_entry(tp, c);
        assert forall|j: int| 0 <= j < tp.columns.len() implies (#[trigger] addf(
            tp.columns[j],
        )) is None by {
            crate::schema::lemma_find_column_self(tp.columns, j);
        }
        lemma_filter_map_all_none(tp.columns, addf);
        let alterf = |c: ColumnV| spec_alter_column_entry(tp, c);
        assert forall|j: int| 0 <= j < tp.columns.len() implies (#[trigger] alterf(
            tp.columns[j],
        )) is None by {
            crate::schema::lemma_find_column_self(tp.columns, j);
            assert(!spec_columns_differ(tp.columns[j], tp.columns[j]));
        }
        lemma_filter_map_all_none(tp.columns, alterf);
        assert(spec_column_changes(tp, tp) =~= Seq::<TableChangeV>::empty());
        assert(spec_pk_changes(tp, tp) == Seq::<TableChangeV>::empty());
        assert(spec_column_changes(tp, tp) + spec_pk_changes(tp, tp)
            =~= Seq::<TableChangeV>::empty());
    }
    lemma_flat_map_all_empty(s.tables, |tp: TableV| spec_altered_table_of(tp, s));
    assert(spec_altered_tables(s, s) == Seq::<SqlMigrationStepV>::empty());

    // Created indices and added foreign keys: everything matches itself.
    assert forall|i: int| 0 <= i < s.tables.len() implies (#[trigger] spec_created_indexes_of(
        s.tables[i],
        s,
    )).len() == 0 by {
        let tn = s.tables[i];
        crate::schema::lemma_find_table_self(s.tables, i);
        let g = |ix: IndexV| spec_create_index_entry(tn, tn, ix);
        assert forall|j: int| 0 <= j < tn.indices.len() implies (#[trigger] g(
            tn.indices[j],
        )) is None by {
            assert(spec_has_matching_index(tn.indices, tn.indices[j])) by {
                assert(spec_index_matches(tn.indices[j], tn.indices[j]));
            }
        }
        lemma_filter_map_all_none(tn.indices, g);
    }
    lemma_flat_map_all_empty(s.tables, |tn: TableV| spec_created_indexes_of(tn, s));
    assert(spec_created_indexes(s, s) == Seq::<SqlMigrationStepV>::empty());

    assert forall|i: int| 0 <= i < s.tables.len() implies (#[trigger] spec_added_fks_of(
        s.tables[i],
        s,
    )).len() == 0 by {
        let tn = s.tables[i];
        crate::schema::lemma_find_table_self(s.tables, i);
        let g = |k: ForeignKeyV| spec_add_fk_entry(tn.name, tn, k);
        assert forall|j: int| 0 <= j < tn.foreign_keys.len() implies (#[trigger] g(
            tn.foreign_keys[j],
        )) is None by {
            assert(spec_has_matching_fk(tn.foreign_keys, tn.foreign_keys[j])) by {
                assert(spec_fk_matches(tn.foreign_keys[j], tn.foreign_keys[j]));
            }
        }
        lemma_filter_map_all_none(tn.foreign_keys, g);
    }
    lemma_flat_map_all_empty(s.tables, |tn: TableV| spec_added_fks_of(tn, s));
    assert(spec_added_foreign_keys(s, s) == Seq::<SqlMigrationStepV>::empty());

    // Enums: every enum is found by its own name, and its value list
    // already holds each of its values.
    assert forall|i: int| 0 <= i < s.enums.len() implies spec_find_enum(
        s.enums,
        (#[trigger] s.enums[i]).name,
    ) is Some by {
        crate::schema::lemma_find_enum_self(s.enums, i);
    }
    lemma_filter_map_all_none(
        s.enums,
        |en: EnumV|
            if spec_find_enum(s.enums, en.name) is None {
                Some(SqlMigrationStepV::CreateEnum(CreateEnumV { enum_def: en }))
            } else {
                None
            },
    );
    assert(spec_created_enums(s, s) == Seq::<SqlMigrationStepV>::empty());
    lemma_filter_map_all_none(
        s.enums,
        |ep: EnumV|
            if spec_find_enum(s.enums, ep.name) is None {
                Some(SqlMigrationStepV::DropEnum(DropEnumV { name: ep.name }))
            } else {
                None
            },
    );
    assert(spec_dropped_enums(s, s) == Seq::<SqlMigrationStepV>::empty());

    let alter_enumf = |en: EnumV| spec_alter_enum_entry(s, en);
    assert forall|i: int| 0 <= i < s.enums.len() implies (#[trigger] alter_enumf(
        s.enums[i],
    )) is None by {
        let en = s.enums[i];
        crate::schema::lemma_find_enum_self(s.enums, i);
        let keepf = |v: Seq<char>|
            if !en.values.contains(v) {
                Some(v)
            } else {
                None
            };
        assert forall|j: int| 0 <= j < en.values.len() implies (#[trigger] keepf(
            en.values[j],
        )) is None by {
            assert(en.values.contains(en.values[j]));
        }
        lemma_filter_map_all_none(en.values, keepf);
    }
    lemma_filter_map_all_none(s.enums, alter_enumf);
    assert(spec_altered_enums(s, s) == Seq::<SqlMigrationStepV>::empty());

    assert(spec_diff(s, s) =~= Seq::<SqlMigrationStepV>::empty());
}

// --- executable groups ----------------------------------------------------

fn push_dropped_foreign_keys(
    previous: &SqlSchema,
    next: &SqlSchema,
    out: &mut Vec<SqlMigrationStep>,
)
    ensures
        final(out).deep_view() == old(out).deep_view() + spec_dropped_foreign_keys(
            previous.deep_view(),
            next.deep_view(),
        ),
{
    let ghost pv = previous.deep_view();
    let ghost nv = next.deep_view();
    let ghost base = out.deep_view();
    let ghost chunkf = |tp: TableV| spec_dropped_fks_of(tp, nv);
    let mut ti: usize = 0;
    proof {
        assert(pv.tables.take(0int).flat_map(chunkf) =~= Seq::<SqlMigrationStepV>::empty());
        assert(out.deep_view() =~= base + pv.tables.take(0int).flat_map(chunkf));
    }
    while ti < previous.tables.len()
        invariant
            ti <= previous.tables@.len(),
            pv == previous.deep_view(),
            nv == next.deep_view(),
            pv.tables.len() == previous.tables@.len(),
            chunkf == (|tp: TableV| spec_dropped_fks_of(tp, nv)),
            out.deep_view() == base + pv.tables.take(ti as int).flat_map(chunkf),
        decreases previous.tables@.len() - ti,
    {
        let tp = &previous.tables[ti];
        let ghost tpv = pv.tables[ti as int];
        let ghost pre = out.deep_view();
        match next.find_table(tp.name.as_str()) {
            Some(tn) => {
                let ghost tnv = tn.deep_view();
                let ghost g = |k: ForeignKeyV| spec_drop_fk_entry(tpv.name, tnv, k);
                let mut q: usize = 0;
                proof {
                    assert(spec_filter_map(tpv.foreign_keys.take(0int), g)
                        =~= Seq::<SqlMigrationStepV>::empty());
                    assert(out.deep_view() =~= pre + spec_filter_map(
                        tpv.foreign_keys.take(0int),
                        g,
                    ));
                }
                while q < tp.foreign_keys.len()
                    invariant
                        q <= tp.foreign_keys@.len(),
                        pv == previous.deep_view(),
                        ti < previous.tables@.len(),
                        tp == &previous.tables@[ti as int],
                        tpv == pv.tables[ti as int],
                        tp.deep_view() == tpv,
                        tpv.foreign_keys.len() == tp.foreign_keys@.len(),
                        tnv == tn.deep_view(),
                        g == (|k: ForeignKeyV| spec_drop_fk_entry(tpv.name, tnv, k)),
                        out.deep_view() == pre + spec_filter_map(
                            tpv.foreign_keys.take(q as int),
                            g,
                        ),
                    decreases tp.foreign_keys@.len() - q,
                {
                    let fk = &tp.foreign_keys[q];
                    let ghost before = out.deep_view();
                    if !has_matching_fk(&tn.foreign_keys, fk) {
                        match &fk.constraint_name {
                            Some(constraint_name) => {
                                out.push(
                                    SqlMigrationStep::DropForeignKey(
                                        DropForeignKey {
                                            table: tp.name.clone(),
                                            constraint_name: constraint_name.clone(),
                                        },
                                    ),
                                );
                                proof {
                                    assert(out.deep_view() =~= before.push(
                                        out@[out@.len() - 1].deep_view(),
                                    ));
                                }
                            },
                            None => {},
                        }
                    }
                    proof {
                        lemma_filter_map_take_succ(tpv.foreign_keys, g, q as int);
                    }
                    q = q + 1;
                }
                proof {
                    assert(tpv.foreign_keys.take(tpv.foreign_keys.len() as int)
                        =~= tpv.foreign_keys);
                    assert(chunkf(tpv) == spec_filter_map(tpv.foreign_keys, g));
                }
            },
            None => {
                proof {
                    assert(chunkf(tpv) =~= Seq::<SqlMigrationStepV>::empty());
                    assert(out.deep_view() =~= pre + chunkf(tpv));
                }
            },
        }
        proof {
            pv.tables.lemma_flat_map_take_append(chunkf, ti as int);
            assert(out.deep_view() =~= base + (pv.tables.take(ti as int).flat_map(chunkf)
                + chunkf(tpv)));
        }
        ti = ti + 1;
    }
    proof {
        assert(pv.tables.take(pv.tables.len() as int) =~= pv.tables);
    }
}

fn push_dropped_indexes(previous: &SqlSchema, next: &SqlSchema, out: &mut Vec<SqlMigrationStep>)
    ensures
        final(out).deep_view() == old(out).deep_view() + spec_dropped_indexes(
            previous.deep_view(),
            next.deep_view(),
        ),
{
    let ghost pv = previous.deep_view();
    let ghost nv = next.deep_view();
    let ghost base = out.deep_view();
    let ghost chunkf = |tp: TableV| spec_dropped_indexes_of(tp, nv);
    let mut ti: usize = 0;
    proof {
        assert(pv.tables.take(0int).flat_map(chunkf) =~= Seq::<SqlMigrationStepV>::empty());
        assert(out.deep_view() =~= base + pv.tables.take(0int).flat_map(chunkf));
    }
    while ti < previous.tables.len()
        invariant
            ti <= previous.tables@.len(),
            pv == previous.deep_view(),
            nv == next.deep_view(),
            pv.tables.len() == previous.tables@.len(),
            chunkf == (|tp: TableV| spec_dropped_indexes_of(tp, nv)),
            out.deep_view() == base + pv.tables.take(ti as int).flat_map(chunkf),
        decreases previous.tables@.len() - ti,
    {
        let tp = &previous.tables[ti];
        let ghost tpv = pv.tables[ti as int];
        let ghost pre = out.deep_view();
        match next.find_table(tp.name.as_str()) {
            Some(tn) => {
                let ghost tnv = tn.deep_view();
                let ghost g = |ix: IndexV| spec_drop_index_entry(tpv.name, tnv, ix);
                let mut q: usize = 0;
                proof {
                    assert(spec_filter_map(tpv.indices.take(0int), g)
                        =~= Seq::<SqlMigrationStepV>::empty());
                    assert(out.deep_view() =~= pre + spec_filter_map(tpv.indices.take(0int), g));
                }
                while q < tp.indices.len()
                    invariant
                        q <= tp.indices@.len(),
                        pv == previous.deep_view(),
                        ti < previous.tables@.len(),
                        tp == &previous.tables@[ti as int],
                        tpv == pv.tables[ti as int],
                        tp.deep_view() == tpv,
                        tpv.indices.len() == tp.indices@.len(),
                        tnv == tn.deep_view(),
                        g == (|ix: IndexV| spec_drop_index_entry(tpv.name, tnv, ix)),
                        out.deep_view() == pre + spec_filter_map(tpv.indices.take(q as int), g),
                    decreases tp.indices@.len() - q,
                {
                    let ix = &tp.indices[q];
                    let ghost before = out.deep_view();
                    if !has_matching_index(&tn.indices, ix) && find_same_shape(
                        &tn.indices,
                        ix,
                    ).is_none() {
                        out.push(
                            SqlMigrationStep::DropIndex(
                                DropIndex { table: tp.name.clone(), name: ix.name.clone() },
                            ),
                        );
                        proof {
                            assert(out.deep_view() =~= before.push(
                                out@[out@.len() - 1].deep_view(),
                            ));
                        }
                    }
                    proof {
                        lemma_filter_map_take_succ(tpv.indices, g, q as int);
                    }
                    q = q + 1;
                }
                proof {
                    assert(tpv.indices.take(tpv.indices.len() as int) =~= tpv.indices);
                    assert(chunkf(tpv) == spec_filter_map(tpv.indices, g));
                }
            },
            None => {
                proof {
                    assert(chunkf(tpv) =~= Seq::<SqlMigrationStepV>::empty());
                    assert(out.deep_view() =~= pre + chunkf(tpv));
                }
            },
        }
        proof {
            pv.tables.lemma_flat_map_take_append(chunkf, ti as int);
            assert(out.deep_view() =~= base + (pv.tables.take(ti as int).flat_map(chunkf)
                + chunkf(tpv)));
        }
        ti = ti + 1;
    }
    proof {
        assert(pv.tables.take(pv.tables.len() as int) =~= pv.tables);
    }
}

fn push_renamed_indexes(previous: &SqlSchema, next: &SqlSchema, out: &mut Vec<SqlMigrationStep>)
    ensures
        final(out).deep_view() == old(out).deep_view() + spec_renamed_indexes(
            previous.deep_view(),
            next.deep_view(),
        ),
{
    let ghost pv = previous.deep_view();
    let ghost nv = next.deep_view();
    let ghost base = out.deep_view();
    let ghost chunkf = |tp: TableV| spec_renamed_indexes_of(tp, nv);
    let mut ti: usize = 0;
    proof {
        assert(pv.tables.take(0int).flat_map(chunkf) =~= Seq::<SqlMigrationStepV>::empty());
        assert(out.deep_view() =~= base + pv.tables.take(0int).flat_map(chunkf));
    }
    while ti < previous.tables.len()
        invariant
            ti <= previous.tables@.len(),
            pv == previous.deep_view(),
            nv == next.deep_view(),
            pv.tables.len() == previous.tables@.len(),
            chunkf == (|tp: TableV| spec_renamed_indexes_of(tp, nv)),
            out.deep_view() == base + pv.tables.take(ti as int).flat_map(chunkf),
        decreases previous.tables@.len() - ti,
    {
        let tp = &previous.tables[ti];
        let ghost tpv = pv.tables[ti as int];
        let ghost pre = out.deep_view();
        match next.find_table(tp.name.as_str()) {
            Some(tn) => {
                let ghost tnv = tn.deep_view();
                let ghost g = |ix: IndexV| spec_rename_index_entry(tpv.name, tnv, ix);
                let mut q: usize = 0;
                proof {
                    assert(spec_filter_map(tpv.indices.take(0int), g)
                        =~= Seq::<SqlMigrationStepV>::empty());
                    assert(out.deep_view() =~= pre + spec_filter_map(tpv.indices.take(0int), g));
                }
                while q < tp.indices.len()
                    invariant
                        q <= tp.indices@.len(),
                        pv == previous.deep_view(),
                        ti < previous.tables@.len(),
                        tp == &previous.tables@[ti as int],
                        tpv == pv.tables[ti as int],
                        tp.deep_view() == tpv,
                        tpv.indices.len() == tp.indices@.len(),
                        tnv == tn.deep_view(),
                        g == (|ix: IndexV| spec_rename_index_entry(tpv.name, tnv, ix)),
                        out.deep_view() == pre + spec_filter_map(tpv.indices.take(q as int), g),
                    decreases tp.indices@.len() - q,
                {
                    let ix = &tp.indices[q];
                    let ghost before = out.deep_view();
                    if !has_matching_index(&tn.indices, ix) {
                        match find_same_shape(&tn.indices, ix) {
                            Some(renamed) => {
                                out.push(
                                    SqlMigrationStep::AlterIndex(
                                        AlterIndex {
                                            table: tp.name.clone(),
                                            index_name: ix.name.clone(),
                                            index_new_name: renamed.name.clone(),
                                        },
                                    ),
                                );
                                proof {
                                    assert(out.deep_view() =~= before.push(
                                        out@[out@.len() - 1].deep_view(),
                                    ));
                                }
                            },
                            None => {},
                        }
                    }
                    proof {
                        lemma_filter_map_take_succ(tpv.indices, g, q as int);
                    }
                    q = q + 1;
                }
                proof {
                    assert(tpv.indices.take(tpv.indices.len() as int) =~= tpv.indices);
                    assert(chunkf(tpv) == spec_filter_map(tpv.indices, g));
                }
            },
            None => {
                proof {
                    assert(chunkf(tpv) =~= Seq::<SqlMigrationStepV>::empty());
                    assert(out.deep_view() =~= pre + chunkf(tpv));
                }
            },
        }
        proof {
            pv.tables.lemma_flat_map_take_append(chunkf, ti as int);
            assert(out.deep_view() =~= base + (pv.tables.take(ti as int).flat_map(chunkf)
                + chunkf(tpv)));
        }
        ti = ti + 1;
    }
    proof {
        assert(pv.tables.take(pv.tables.len() as int) =~= pv.tables);
    }
}

fn push_dropped_tables(previous: &SqlSchema, next: &SqlSchema, out: &mut Vec<SqlMigrationStep>)
    ensures
        final(out).deep_view() == old(out).deep_view() + spec_dropped_tables(
            previous.deep_view(),
            next.deep_view(),
        ),
{
    let ghost pv = previous.deep_view();
    let ghost nv = next.deep_view();
    let ghost base = out.deep_view();
    let ghost g = |tp: TableV|
        if spec_find_table(nv.tables, tp.name) is None {
            Some(SqlMigrationStepV::DropTable(DropTableV { name: tp.name }))
        } else {
            None
        };
    let mut ti: usize = 0;
    proof {
        assert(spec_filter_map(pv.tables.take(0int), g) =~= Seq::<SqlMigrationStepV>::empty());
        assert(out.deep_view() =~= base + spec_filter_map(pv.tables.take(0int), g));
    }
    while ti < previous.tables.len()
        invariant
            ti <= previous.tables@.len(),
            pv == previous.deep_view(),
            nv == next.deep_view(),
            pv.tables.len() == previous.tables@.len(),
            g == (|tp: TableV|
                if spec_find_table(nv.tables, tp.name) is None {
                    Some(SqlMigrationStepV::DropTable(DropTableV { name: tp.name }))
                } else {
                    None
                }),
            out.deep_view() == base + spec_filter_map(pv.tables.take(ti as int), g),
        decreases previous.tables@.len() - ti,
    {
        let tp = &previous.tables[ti];
        let ghost before = out.deep_view();
        if next.find_table(tp.name.as_str()).is_none() {
            out.push(SqlMigrationStep::DropTable(DropTable { name: tp.name.clone() }));
            proof {
                assert(out.deep_view() =~= before.push(out@[out@.len() - 1].deep_view()));
            }
        }
        proof {
            lemma_filter_map_take_succ(pv.tables, g, ti as int);
        }
        ti = ti + 1;
    }
    proof {
        assert(pv.tables.take(pv.tables.len() as int) =~= pv.tables);
    }
}

fn push_created_tables(previous: &SqlSchema, next: &SqlSchema, out: &mut Vec<SqlMigrationStep>)
    ensures
        final(out).deep_view() == old(out).deep_view() + spec_created_tables(
            previous.deep_view(),
            next.deep_view(),
        ),
{
    let ghost pv = previous.deep_view();
    let ghost nv = next.deep_view();
    let ghost base = out.deep_view();
    let ghost g = |tn: TableV|
        if spec_find_table(pv.tables, tn.name) is None {
            Some(SqlMigrationStepV::CreateTable(CreateTableV { table: tn }))
        } else {
            None
        };
    let mut ti: usize = 0;
    proof {
        assert(spec_filter_map(nv.tables.take(0int), g) =~= Seq::<SqlMigrationStepV>::empty());
        assert(out.deep_view() =~= base + spec_filter_map(nv.tables.take(0int), g));
    }
    while ti < next.tables.len()
        invariant
            ti <= next.tables@.len(),
            pv == previous.deep_view(),
            nv == next.deep_view(),
            nv.tables.len() == next.tables@.len(),
            g == (|tn: TableV|
                if spec_find_table(pv.tables, tn.name) is None {
                    Some(SqlMigrationStepV::CreateTable(CreateTableV { table: tn }))
                } else {
                    None
                }),
            out.deep_view() == base + spec_filter_map(nv.tables.take(ti as int), g),
        decreases next.tables@.len() - ti,
    {
        let tn = &next.tables[ti];
        let ghost before = out.deep_view();
        if previous.find_table(tn.name.as_str()).is_none() {
            out.push(SqlMigrationStep::CreateTable(CreateTable { table: clone_table(tn) }));
            proof {
                assert(out.deep_view() =~= before.push(out@[out@.len() - 1].deep_view()));
            }
        }
        proof {
            lemma_filter_map_take_succ(nv.tables, g, ti as int);
        }
        ti = ti + 1;
    }
    proof {
        assert(nv.tables.take(nv.tables.len() as int) =~= nv.tables);
    }
}

/// The changes to the columns of one kept table.
fn column_changes(tp: &Table, tn: &Table) -> (r: Vec<TableChange>)
    ensures
        r.deep_view() == spec_column_changes(tp.deep_view(), tn.deep_view()),
{
    let ghost tpv = tp.deep_view();
    let ghost tnv = tn.deep_view();
    let ghost dropf = |c: ColumnV| spec_drop_column_entry(tnv, c);
    let ghost addf = |c: ColumnV| spec_add_column_entry(tpv, c);
    let ghost alterf = |c: ColumnV| spec_alter_column_entry(tpv, c);
    let mut out: Vec<TableChange> = Vec::new();

    let mut i: usize = 0;
    proof {
        assert(spec_filter_map(tpv.columns.take(0int), dropf) =~= Seq::<TableChangeV>::empty());
        assert(out.deep_view() =~= spec_filter_map(tpv.columns.take(0int), dropf));
    }
    while i < tp.columns.len()
        invariant
            i <= tp.columns@.len(),
            tpv == tp.deep_view(),
            tnv == tn.deep_view(),
            tpv.columns.len() == tp.columns@.len(),
            dropf == (|c: ColumnV| spec_drop_column_entry(tnv, c)),
            out.deep_view() == spec_filter_map(tpv.columns.take(i as int), dropf),
        decreases tp.columns@.len() - i,
    {
        let c = &tp.columns[i];
        let ghost before = out.deep_view();
        if tn.find_column(c.name.as_str()).is_none() {
            out.push(TableChange::DropColumn(c.name.clone()));
            proof {
                assert(out.deep_view() =~= before.push(out@[out@.len() - 1].deep_view()));
            }
        }
        proof {
            lemma_filter_map_take_succ(tpv.columns, dropf, i as int);
        }
        i = i + 1;
    }
    proof {
        assert(tpv.columns.take(tpv.columns.len() as int) =~= tpv.columns);
    }
    let ghost dropped = out.deep_view();

    let mut j: usize = 0;
    proof {
        assert(spec_filter_map(tnv.columns.take(0int), addf) =~= Seq::<TableChangeV>::empty());
        assert(out.deep_view() =~= dropped + spec_filter_map(tnv.columns.take(0int), addf));
    }
    while j < tn.columns.len()
        invariant
            j <= tn.columns@.len(),
            tpv == tp.deep_view(),
            tnv == tn.deep_view(),
            tnv.columns.len() == tn.columns@.len(),
            addf == (|c: ColumnV| spec_add_column_entry(tpv, c)),
            out.deep_view() == dropped + spec_filter_map(tnv.columns.take(j as int), addf),
        decreases tn.columns@.len() - j,
    {
        let c = &tn.columns[j];
        let ghost before = out.deep_view();
        if tp.find_column(c.name.as_str()).is_none() {
            out.push(TableChange::AddColumn(clone_column(c)));
            proof {
                assert(out.deep_view() =~= before.push(out@[out@.len() - 1].deep_view()));
            }
        }
        proof {
            lemma_filter_map_take_succ(tnv.columns, addf, j as int);
        }
        j = j + 1;
    }
    proof {
        assert(tnv.columns.take(tnv.columns.len() as int) =~= tnv.columns);
    }
    let ghost added = spec_filter_map(tnv.columns, addf);

    let mut k: usize = 0;
    proof {
        assert(spec_filter_map(tnv.columns.take(0int), alterf) =~= Seq::<TableChangeV>::empty());
        assert(out.deep_view() =~= dropped + added + spec_filter_map(
            tnv.columns.take(0int),
            alterf,
        ));
    }
    while k < tn.columns.len()
        invariant
            k <= tn.columns@.len(),
            tpv == tp.deep_view(),
            tnv == tn.deep_view(),
            tnv.columns.len() == tn.columns@.len(),
            alterf == (|c: ColumnV| spec_alter_column_entry(tpv, c)),
            out.deep_view() == dropped + added + spec_filter_map(
                tnv.columns.take(k as int),
                alterf,
            ),
        decreases tn.columns@.len() - k,
    {
        let c = &tn.columns[k];
        let ghost before = out.deep_view();
        match tp.find_column(c.name.as_str()) {
            Some(pc) => {
                if columns_differ(pc, c) {
                    out.push(
                        TableChange::AlterColumn(
                            AlterColumn { name: c.name.clone(), column: clone_column(c) },
                        ),
                    );
                    proof {
                        assert(out.deep_view() =~= before.push(out@[out@.len() - 1].deep_view()));
                    }
                }
            },
            None => {},
        }
        proof {
            lemma_filter_map_take_succ(tnv.columns, alterf, k as int);
        }
        k = k + 1;
    }
    proof {
        assert(tnv.columns.take(tnv.columns.len() as int) =~= tnv.columns);
        assert(out.deep_view() =~= spec_column_changes(tpv, tnv));
    }
    out
}

/// The primary-key changes of one kept table.
fn pk_changes(tp: &Table, tn: &Table) -> (r: Vec<TableChange>)
    ensures
        r.deep_view() == spec_pk_changes(tp.deep_view(), tn.deep_view()),
{
    let ghost tpv = tp.deep_view();
    let ghost tnv = tn.deep_view();
    let same: bool = match (&tp.primary_key, &tn.primary_key) {
        (None, None) => true,
        (Some(a), Some(b)) => string_lists_eq(&a.columns, &b.columns),
        (Some(a), None) => a.columns.len() == 0,
        (None, Some(b)) => b.columns.len() == 0,
    };
    proof {
        let pcols: Seq<Seq<char>> = match tpv.primary_key {
            Some(pk) => pk.columns,
            None => Seq::<Seq<char>>::empty(),
        };
        let ncols: Seq<Seq<char>> = match tnv.primary_key {
            Some(pk) => pk.columns,
            None => Seq::<Seq<char>>::empty(),
        };
        if pcols.len() == 0 && ncols.len() == 0 {
            assert(pcols =~= ncols);
        }
        assert(same == (pcols == ncols));
    }
    let mut out: Vec<TableChange> = Vec::new();
    if same {
        proof {
            assert(out.deep_view() =~= spec_pk_changes(tpv, tnv));
        }
        return out;
    }
    match &tp.primary_key {
        Some(pk) => {
            if pk.columns.len() > 0 {
                let constraint_name: Option<String> = match &pk.constraint_name {
                    Some(n) => Some(n.clone()),
                    None => None,
                };
                out.push(TableChange::DropPrimaryKey { constraint_name });
            }
        },
        None => {},
    }
    match &tn.primary_key {
        Some(pk) => {
            if pk.columns.len() > 0 {
                out.push(
                    TableChange::AddPrimaryKey { columns: clone_string_vec(&pk.columns) },
                );
            }
        },
        None => {},
    }
    proof {
        assert(out.deep_view() =~= spec_pk_changes(tpv, tnv));
    }
    out
}

fn push_altered_tables(previous: &SqlSchema, next: &SqlSchema, out: &mut Vec<SqlMigrationStep>)
    ensures
        final(out).deep_view() == old(out).deep_view() + spec_altered_tables(
            previous.deep_view(),
            next.deep_view(),
        ),
{
    let ghost pv = previous.deep_view();
    let ghost nv = next.deep_view();
    let ghost base = out.deep_view();
    let ghost chunkf = |tp: TableV| spec_altered_table_of(tp, nv);
    let mut ti: usize = 0;
    proof {
        assert(pv.tables.take(0int).flat_map(chunkf) =~= Seq::<SqlMigrationStepV>::empty());
        assert(out.deep_view() =~= base + pv.tables.take(0int).flat_map(chunkf));
    }
    while ti < previous.tables.len()
        invariant
            ti <= previous.tables@.len(),
            pv == previous.deep_view(),
            nv == next.deep_view(),
            pv.tables.len() == previous.tables@.len(),
            chunkf == (|tp: TableV| spec_altered_table_of(tp, nv)),
            out.deep_view() == base + pv.tables.take(ti as int).flat_map(chunkf),
        decreases previous.tables@.len() - ti,
    {
        let tp = &previous.tables[ti];
        let ghost tpv = pv.tables[ti as int];
        let ghost pre = out.deep_view();
        match next.find_table(tp.name.as_str()) {
            Some(tn) => {
                let ghost tnv = tn.deep_view();
                let mut changes = column_changes(tp, tn);
                let mut pk = pk_changes(tp, tn);
                let ghost col_part = changes.deep_view();
                let ghost pk_part = pk.deep_view();
                changes.append(&mut pk);
                proof {
                    assert(changes.deep_view() =~= col_part + pk_part);
                }
                if changes.len() > 0 {
                    out.push(
                        SqlMigrationStep::AlterTable(
                            AlterTable { table: clone_table(tn), changes },
                        ),
                    );
                    proof {
                        assert(out.deep_view() =~= pre.push(out@[out@.len() - 1].deep_view()));
                        assert(chunkf(tpv) =~= seq![out@[out@.len() - 1].deep_view()]);
                        assert(out.deep_view() =~= pre + chunkf(tpv));
                    }
                } else {
                    proof {
                        assert(chunkf(tpv) =~= Seq::<SqlMigrationStepV>::empty());
                        assert(out.deep_view() =~= pre + chunkf(tpv));
                    }
                }
            },
            None => {
                proof {
                    assert(chunkf(tpv) =~= Seq::<SqlMigrationStepV>::empty());
                    assert(out.deep_view() =~= pre + chunkf(tpv));
                }
            },
        }
        proof {
            pv.tables.lemma_flat_map_take_append(chunkf, ti as int);
            assert(out.deep_view() =~= base + (pv.tables.take(ti as int).flat_map(chunkf)
                + chunkf(tpv)));
        }
        ti = ti + 1;
    }
    proof {
        assert(pv.tables.take(pv.tables.len() as int) =~= pv.tables);
    }
}

fn push_created_indexes(previous: &SqlSchema, next: &SqlSchema, out: &mut Vec<SqlMigrationStep>)
    ensures
        final(out).deep_view() == old(out).deep_view() + spec_created_indexes(
            previous.deep_view(),
            next.deep_view(),
        ),
{
    let ghost pv = previous.deep_view();
    let ghost nv = next.deep_view();
    let ghost base = out.deep_view();
    let ghost chunkf = |tn: TableV| spec_created_indexes_of(tn, pv);
    let mut ti: usize = 0;
    proof {
        assert(nv.tables.take(0int).flat_map(chunkf) =~= Seq::<SqlMigrationStepV>::empty());
        assert(out.deep_view() =~= base + nv.tables.take(0int).flat_map(chunkf));
    }
    while ti < next.tables.len()
        invariant
            ti <= next.tables@.len(),
            pv == previous.deep_view(),
            nv == next.deep_view(),
            nv.tables.len() == next.tables@.len(),
            chunkf == (|tn: TableV| spec_created_indexes_of(tn, pv)),
            out.deep_view() == base + nv.tables.take(ti as int).flat_map(chunkf),
        decreases next.tables@.len() - ti,
    {
        let tn = &next.tables[ti];
        let ghost tnv = nv.tables[ti as int];
        let ghost pre = out.deep_view();
        match previous.find_table(tn.name.as_str()) {
            Some(tp) => {
                let ghost tpv = tp.deep_view();
                let ghost g = |ix: IndexV| spec_create_index_entry(tnv, tpv, ix);
                let mut q: usize = 0;
                proof {
                    assert(spec_filter_map(tnv.indices.take(0int), g)
                        =~= Seq::<SqlMigrationStepV>::empty());
                    assert(out.deep_view() =~= pre + spec_filter_map(tnv.indices.take(0int), g));
                }
                while q < tn.indices.len()
                    invariant
                        q <= tn.indices@.len(),
                        nv == next.deep_view(),
                        ti < next.tables@.len(),
                        tn == &next.tables@[ti as int],
                        tnv == nv.tables[ti as int],
                        tn.deep_view() == tnv,
                        tnv.indices.len() == tn.indices@.len(),
                        tpv == tp.deep_view(),
                        g == (|ix: IndexV| spec_create_index_entry(tnv, tpv, ix)),
                        out.deep_view() == pre + spec_filter_map(tnv.indices.take(q as int), g),
                    decreases tn.indices@.len() - q,
                {
                    let ix = &tn.indices[q];
                    let ghost before = out.deep_view();
                    if !has_matching_index(&tp.indices, ix) && find_same_shape(
                        &tp.indices,
                        ix,
                    ).is_none() {
                        let nullable = index_has_nullable_column(tn, ix);
                        out.push(
                            SqlMigrationStep::CreateIndex(
                                CreateIndex {
                                    table: tn.name.clone(),
                                    index: clone_index(ix),
                                    caused_by_create_table: false,
                                    contains_nullable_columns: nullable,
                                },
                            ),
                        );
                        proof {
                            assert(out.deep_view() =~= before.push(
                                out@[out@.len() - 1].deep_view(),
                            ));
                        }
                    }
                    proof {
                        lemma_filter_map_take_succ(tnv.indices, g, q as int);
                    }
                    q = q + 1;
                }
                proof {
                    assert(tnv.indices.take(tnv.indices.len() as int) =~= tnv.indices);
                    assert(chunkf(tnv) == spec_filter_map(tnv.indices, g));
                }
            },
            None => {
                let ghost m = |ix: IndexV| spec_create_index_step(tnv, ix, true);
                let mut q: usize = 0;
                proof {
                    assert(tnv.indices.take(0int).map_values(m)
                        =~= Seq::<SqlMigrationStepV>::empty());
                    assert(out.deep_view() =~= pre + tnv.indices.take(0int).map_values(m));
                }
                while q < tn.indices.len()
                    invariant
                        q <= tn.indices@.len(),
                        nv == next.deep_view(),
                        ti < next.tables@.len(),
                        tn == &next.tables@[ti as int],
                        tnv == nv.tables[ti as int],
                        tn.deep_view() == tnv,
                        tnv.indices.len() == tn.indices@.len(),
                        m == (|ix: IndexV| spec_create_index_step(tnv, ix, true)),
                        out.deep_view() == pre + tnv.indices.take(q as int).map_values(m),
                    decreases tn.indices@.len() - q,
                {
                    let ix = &tn.indices[q];
                    let ghost before = out.deep_view();
                    let nullable = index_has_nullable_column(tn, ix);
                    out.push(
                        SqlMigrationStep::CreateIndex(
                            CreateIndex {
                                table: tn.name.clone(),
                                index: clone_index(ix),
                                caused_by_create_table: true,
                                contains_nullable_columns: nullable,
                            },
                        ),
                    );
                    proof {
                        assert(out.deep_view() =~= before.push(out@[out@.len() - 1].deep_view()));
                        tnv.indices.lemma_map_take_succ(m, q as int);
                    }
                    q = q + 1;
                }
                proof {
                    assert(tnv.indices.take(tnv.indices.len() as int) =~= tnv.indices);
                    assert(chunkf(tnv) == tnv.indices.map_values(m));
                }
            },
        }
        proof {
            nv.tables.lemma_flat_map_take_append(chunkf, ti as int);
            assert(out.deep_view() =~= base + (nv.tables.take(ti as int).flat_map(chunkf)
                + chunkf(tnv)));
        }
        ti = ti + 1;
    }
    proof {
        assert(nv.tables.take(nv.tables.len() as int) =~= nv.tables);
    }
}

fn push_added_foreign_keys(
    previous: &SqlSchema,
    next: &SqlSchema,
    out: &mut Vec<SqlMigrationStep>,
)
    ensures
        final(out).deep_view() == old(out).deep_view() + spec_added_foreign_keys(
            previous.deep_view(),
            next.deep_view(),
        ),
{
    let ghost pv = previous.deep_view();
    let ghost nv = next.deep_view();
    let ghost base = out.deep_view();
    let ghost chunkf = |tn: TableV| spec_added_fks_of(tn, pv);
    let mut ti: usize = 0;
    proof {
        assert(nv.tables.take(0int).flat_map(chunkf) =~= Seq::<SqlMigrationStepV>::empty());
        assert(out.deep_view() =~= base + nv.tables.take(0int).flat_map(chunkf));
    }
    while ti < next.tables.len()
        invariant
            ti <= next.tables@.len(),
            pv == previous.deep_view(),
            nv == next.deep_view(),
            nv.tables.len() == next.tables@.len(),
            chunkf == (|tn: TableV| spec_added_fks_of(tn, pv)),
            out.deep_view() == base + nv.tables.take(ti as int).flat_map(chunkf),
        decreases next.tables@.len() - ti,
    {
        let tn = &next.tables[ti];
        let ghost tnv = nv.tables[ti as int];
        let ghost pre = out.deep_view();
        match previous.find_table(tn.name.as_str()) {
            Some(tp) => {
                let ghost tpv = tp.deep_view();
                let ghost g = |k: ForeignKeyV| spec_add_fk_entry(tnv.name, tpv, k);
                let mut q: usize = 0;
                proof {
                    assert(spec_filter_map(tnv.foreign_keys.take(0int), g)
                        =~= Seq::<SqlMigrationStepV>::empty());
                    assert(out.deep_view() =~= pre + spec_filter_map(
                        tnv.foreign_keys.take(0int),
                        g,
                    ));
                }
                while q < tn.foreign_keys.len()
                    invariant
                        q <= tn.foreign_keys@.len(),
                        nv == next.deep_view(),
                        ti < next.tables@.len(),
                        tn == &next.tables@[ti as int],
                        tnv == nv.tables[ti as int],
                        tn.deep_view() == tnv,
                        tnv.foreign_keys.len() == tn.foreign_keys@.len(),
                        tpv == tp.deep_view(),
                        g == (|k: ForeignKeyV| spec_add_fk_entry(tnv.name, tpv, k)),
                        out.deep_view() == pre + spec_filter_map(
                            tnv.foreign_keys.take(q as int),
                            g,
                        ),
                    decreases tn.foreign_keys@.len() - q,
                {
                    let fk = &tn.foreign_keys[q];
                    let ghost before = out.deep_view();
                    if !has_matching_fk(&tp.foreign_keys, fk) {
                        out.push(
                            SqlMigrationStep::AddForeignKey(
                                AddForeignKey {
                                    table: tn.name.clone(),
                                    foreign_key: clone_foreign_key(fk),
                                },
                            ),
                        );
                        proof {
                            assert(out.deep_view() =~= before.push(
                                out@[out@.len() - 1].deep_view(),
                            ));
                        }
                    }
                    proof {
                        lemma_filter_map_take_succ(tnv.foreign_keys, g, q as int);
                    }
                    q = q + 1;
                }
                proof {
                    assert(tnv.foreign_keys.take(tnv.foreign_keys.len() as int)
                        =~= tnv.foreign_keys);
                    assert(chunkf(tnv) == spec_filter_map(tnv.foreign_keys, g));
                }
            },
            None => {
                let ghost m = |k: ForeignKeyV|
                    SqlMigrationStepV::AddForeignKey(
                        AddForeignKeyV { table: tnv.name, foreign_key: k },
                    );
                let mut q: usize = 0;
                proof {
                    assert(tnv.foreign_keys.take(0int).map_values(m)
                        =~= Seq::<SqlMigrationStepV>::empty());
                    assert(out.deep_view() =~= pre + tnv.foreign_keys.take(0int).map_values(m));
                }
                while q < tn.foreign_keys.len()
                    invariant
                        q <= tn.foreign_keys@.len(),
                        nv == next.deep_view(),
                        ti < next.tables@.len(),
                        tn == &next.tables@[ti as int],
                        tnv == nv.tables[ti as int],
                        tn.deep_view() == tnv,
                        tnv.foreign_keys.len() == tn.foreign_keys@.len(),
                        m == (|k: ForeignKeyV|
                            SqlMigrationStepV::AddForeignKey(
                                AddForeignKeyV { table: tnv.name, foreign_key: k },
                            )),
                        out.deep_view() == pre + tnv.foreign_keys.take(q as int).map_values(m),
                    decreases tn.foreign_keys@.len() - q,
                {
                    let fk = &tn.foreign_keys[q];
                    let ghost before = out.deep_view();
                    out.push(
                        SqlMigrationStep::AddForeignKey(
                            AddForeignKey {
                                table: tn.name.clone(),
                                foreign_key: clone_foreign_key(fk),
                            },
                        ),
                    );
                    proof {
                        assert(out.deep_view() =~= before.push(out@[out@.len() - 1].deep_view()));
                        tnv.foreign_keys.lemma_map_take_succ(m, q as int);
                    }
                    q = q + 1;
                }
                proof {
                    assert(tnv.foreign_keys.take(tnv.foreign_keys.len() as int)
                        =~= tnv.foreign_keys);
                    assert(chunkf(tnv) == tnv.foreign_keys.map_values(m));
                }
            },
        }
        proof {
            nv.tables.lemma_flat_map_take_append(chunkf, ti as int);
            assert(out.deep_view() =~= base + (nv.tables.take(ti as int).flat_map(chunkf)
                + chunkf(tnv)));
        }
        ti = ti + 1;
    }
    proof {
        assert(nv.tables.take(nv.tables.len() as int) =~= nv.tables);
    }
}

/// The values of `a` that `b` does not hold, in order.
fn missing_values(a: &Vec<String>, b: &Vec<String>) -> (r: Vec<String>)
    ensures
        r.deep_view() == spec_filter_map(
            a.deep_view(),
            |v: Seq<char>|
                if !b.deep_view().contains(v) {
                    Some(v)
                } else {
                    None
                },
        ),
{
    let ghost av = a.deep_view();
    let ghost bv = b.deep_view();
    let ghost g = |v: Seq<char>|
        if !bv.contains(v) {
            Some(v)
        } else {
            None
        };
    let mut out: Vec<String> = Vec::new();
    let mut i: usize = 0;
    proof {
        assert(spec_filter_map(av.take(0int), g) =~= Seq::<Seq<char>>::empty());
        assert(out.deep_view() =~= spec_filter_map(av.take(0int), g));
    }
    while i < a.len()
        invariant
            i <= a@.len(),
            av == a.deep_view(),
            bv == b.deep_view(),
            av.len() == a@.len(),
            g == (|v: Seq<char>|
                if !bv.contains(v) {
                    Some(v)
                } else {
                    None
                }),
            out.deep_view() == spec_filter_map(av.take(i as int), g),
        decreases a@.len() - i,
    {
        let ghost before = out.deep_view();
        let mut found = false;
        let mut j: usize = 0;
        while j < b.len()
            invariant
                j <= b@.len(),
                bv == b.deep_view(),
                bv.len() == b@.len(),
                av == a.deep_view(),
                av.len() == a@.len(),
                i < a@.len(),
                found ==> bv.contains(av[i as int]),
                !found ==> forall|k: int| 0 <= k < j ==> bv[k] != av[i as int],
            decreases b@.len() - j,
        {
            if str_eq(a[i].as_str(), b[j].as_str()) {
                found = true;
                proof {
                    assert(bv.contains(av[i as int])) by {
                        assert(bv[j as int] == av[i as int]);
                    }
                }
            }
            j = j + 1;
        }
        if !found {
            proof {
                assert(!bv.contains(av[i as int]));
            }
            out.push(a[i].clone());
            proof {
                assert(out.deep_view() =~= before.push(out@[out@.len() - 1]@));
            }
        }
        proof {
            lemma_filter_map_take_succ(av, g, i as int);
        }
        i = i + 1;
    }
    proof {
        assert(av.take(av.len() as int) =~= av);
    }
    out
}

fn push_enum_steps(previous: &SqlSchema, next: &SqlSchema, out: &mut Vec<SqlMigrationStep>)
    ensures
        final(out).deep_view() == old(out).deep_view() + spec_created_enums(
            previous.deep_view(),
            next.deep_view(),
        ) + spec_dropped_enums(previous.deep_view(), next.deep_view()) + spec_altered_enums(
            previous.deep_view(),
            next.deep_view(),
        ),
{
    let ghost pv = previous.deep_view();
    let ghost nv = next.deep_view();
    let ghost base = out.deep_view();

    // Created enums.
    let ghost createf = |en: EnumV|
        if spec_find_enum(pv.enums, en.name) is None {
            Some(SqlMigrationStepV::CreateEnum(CreateEnumV { enum_def: en }))
        } else {
            None
        };
    let mut i: usize = 0;
    proof {
        assert(spec_filter_map(nv.enums.take(0int), createf)
            =~= Seq::<SqlMigrationStepV>::empty());
        assert(out.deep_view() =~= base + spec_filter_map(nv.enums.take(0int), createf));
    }
    while i < next.enums.len()
        invariant
            i <= next.enums@.len(),
            pv == previous.deep_view(),
            nv == next.deep_view(),
            nv.enums.len() == next.enums@.len(),
            createf == (|en: EnumV|
                if spec_find_enum(pv.enums, en.name) is None {
                    Some(SqlMigrationStepV::CreateEnum(CreateEnumV { enum_def: en }))
                } else {
                    None
                }),
            out.deep_view() == base + spec_filter_map(nv.enums.take(i as int), createf),
        decreases next.enums@.len() - i,
    {
        let en = &next.enums[i];
        let ghost before = out.deep_view();
        if find_enum(&previous.enums, en.name.as_str()).is_none() {
            out.push(SqlMigrationStep::CreateEnum(CreateEnum { enum_def: clone_enum(en) }));
            proof {
                assert(out.deep_view() =~= before.push(out@[out@.len() - 1].deep_view()));
            }
        }
        proof {
            lemma_filter_map_take_succ(nv.enums, createf, i as int);
        }
        i = i + 1;
    }
    proof {
        assert(nv.enums.take(nv.enums.len() as int) =~= nv.enums);
    }
    let ghost created = spec_created_enums(pv, nv);

    // Dropped enums.
    let ghost dropf = |ep: EnumV|
        if spec_find_enum(nv.enums, ep.name) is None {
            Some(SqlMigrationStepV::DropEnum(DropEnumV { name: ep.name }))
        } else {
            None
        };
    let mut j: usize = 0;
    proof {
        assert(spec_filter_map(pv.enums.take(0int), dropf) =~= Seq::<SqlMigrationStepV>::empty());
        assert(out.deep_view() =~= base + created + spec_filter_map(
            pv.enums.take(0int),
            dropf,
        ));
    }
    while j < previous.enums.len()
        invariant
            j <= previous.enums@.len(),
            pv == previous.deep_view(),
            nv == next.deep_view(),
            pv.enums.len() == previous.enums@.len(),
            dropf == (|ep: EnumV|
                if spec_find_enum(nv.enums, ep.name) is None {
                    Some(SqlMigrationStepV::DropEnum(DropEnumV { name: ep.name }))
                } else {
                    None
                }),
            out.deep_view() == base + created + spec_filter_map(pv.enums.take(j as int), dropf),
        decreases previous.enums@.len() - j,
    {
        let ep = &previous.enums[j];
        let ghost before = out.deep_view();
        if find_enum(&next.enums, ep.name.as_str()).is_none() {
            out.push(SqlMigrationStep::DropEnum(DropEnum { name: ep.name.clone() }));
            proof {
                assert(out.deep_view() =~= before.push(out@[out@.len() - 1].deep_view()));
            }
        }
        proof {
            lemma_filter_map_take_succ(pv.enums, dropf, j as int);
        }
        j = j + 1;
    }
    proof {
        assert(pv.enums.take(pv.enums.len() as int) =~= pv.enums);
    }
    let ghost dropped = spec_dropped_enums(pv, nv);

    // Altered enums.
    let ghost alterf = |en: EnumV| spec_alter_enum_entry(pv, en);
    let mut k: usize = 0;
    proof {
        assert(spec_filter_map(nv.enums.take(0int), alterf)
            =~= Seq::<SqlMigrationStepV>::empty());
        assert(out.deep_view() =~= base + created + dropped + spec_filter_map(
            nv.enums.take(0int),
            alterf,
        ));
    }
    while k < next.enums.len()
        invariant
            k <= next.enums@.len(),
            pv == previous.deep_view(),
            nv == next.deep_view(),
            nv.enums.len() == next.enums@.len(),
            alterf == (|en: EnumV| spec_alter_enum_entry(pv, en)),
            out.deep_view() == base + created + dropped + spec_filter_map(
                nv.enums.take(k as int),
                alterf,
            ),
        decreases next.enums@.len() - k,
    {
        let en = &next.enums[k];
        let ghost before = out.deep_view();
        match find_enum(&previous.enums, en.name.as_str()) {
            Some(ep) => {
                let created_values = missing_values(&en.values, &ep.values);
                let dropped_values = missing_values(&ep.values, &en.values);
                if created_values.len() > 0 || dropped_values.len() > 0 {
                    out.push(
                        SqlMigrationStep::AlterEnum(
                            AlterEnum {
                                name: en.name.clone(),
                                created_values,
                                dropped_values,
                            },
                        ),
                    );
                    proof {
                        assert(out.deep_view() =~= before.push(out@[out@.len() - 1].deep_view()));
                    }
                }
            },
            None => {},
        }
        proof {
            lemma_filter_map_take_succ(nv.enums, alterf, k as int);
        }
        k = k + 1;
    }
    proof {
        assert(nv.enums.take(nv.enums.len() as int) =~= nv.enums);
    }
}

/// Compare two schemas and emit the ordered migration plan: dropped
/// foreign keys, dropped indices, dropped tables, table alterations,
/// created tables, created indices, index renames, added foreign keys,
/// then enum changes.
pub fn diff_schemas(previous: &SqlSchema, next: &SqlSchema) -> (r: Vec<SqlMigrationStep>)
    ensures
        r.deep_view() == spec_diff(previous.deep_view(), next.deep_view()),
{
    let mut out: Vec<SqlMigrationStep> = Vec::new();
    proof {
        assert(out.deep_view() =~= Seq::<SqlMigrationStepV>::empty());
    }
    push_dropped_foreign_keys(previous, next, &mut out);
    push_dropped_indexes(previous, next, &mut out);
    push_dropped_tables(previous, next, &mut out);
    push_altered_tables(previous, next, &mut out);
    push_created_tables(previous, next, &mut out);
    push_created_indexes(previous, next, &mut out);
    push_renamed_indexes(previous, next, &mut out);
    push_added_foreign_keys(previous, next, &mut out);
    push_enum_steps(previous, next, &mut out);
    proof {
        let pv = previous.deep_view();
        let nv = next.deep_view();
        assert(out.deep_view() =~= spec_diff(pv, nv));
    }
    out
}

} // verus!
