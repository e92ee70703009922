//! The destructive-change checker for SQLite: classify an in-place column
//! alteration as safe, warned, or unexecutable.

use vstd::prelude::*;
use crate::schema::{Column, ColumnArity, ColumnV, PrismaValueV, SqlSchema};
use crate::sql_migration::{SqlMigrationStep, TableChange, TableChangeV};

verus! {

/// The two columns an alteration replaces one with the other, on the named
/// table.
#[derive(Clone, PartialEq, Eq, Debug)]
pub struct ColumnDiffer {
    pub table: String,
    pub previous: Column,
    pub next: Column,
}

/// Ghost mirror of [`ColumnDiffer`].
#[verifier::ext_equal]
pub ghost struct ColumnDifferV {
    pub table: Seq<char>,
    pub previous: ColumnV,
    pub next: ColumnV,
}

impl DeepView for ColumnDiffer {
    type V = ColumnDifferV;

    open spec fn deep_view(&self) -> ColumnDifferV {
        ColumnDifferV {
            table: self.table.deep_view(),
            previous: self.previous.deep_view(),
            next: self.next.deep_view(),
        }
    }
}

/// Whether the column's type family changes.
pub open spec fn spec_type_changed(d: ColumnDifferV) -> bool {
    d.previous.tpe.family != d.next.tpe.family
}

/// Whether the column's arity changes.
pub open spec fn spec_arity_changed(d: ColumnDifferV) -> bool {
    d.previous.tpe.arity != d.next.tpe.arity
}

/// A warning the checker attaches to a plan step.
#[derive(Clone, PartialEq, Eq, Debug)]
pub enum SqlMigrationWarningCheck {
    /// The table is dropped with whatever rows it holds.
    DropTable { table: String },
    /// The column is dropped with whatever values it holds.
    DropColumn { table: String, column: String },
    /// The column is altered in place; existing data may not fit.
    AlterColumn { table: String, column: String },
}

/// Ghost mirror of [`SqlMigrationWarningCheck`].
#[verifier::ext_equal]
pub ghost enum SqlMigrationWarningCheckV {
    DropTable { table: Seq<char> },
    DropColumn { table: Seq<char>, column: Seq<char> },
    AlterColumn { table: Seq<char>, column: Seq<char> },
}

impl DeepView for SqlMigrationWarningCheck {
    type V = SqlMigrationWarningCheckV;

    open spec fn deep_view(&self) -> SqlMigrationWarningCheckV {
        match self {
            SqlMigrationWarningCheck::DropTable { table } => SqlMigrationWarningCheckV::DropTable {
                table: table.deep_view(),
            },
            SqlMigrationWarningCheck::DropColumn { table, column } => {
                SqlMigrationWarningCheckV::DropColumn {
                    table: table.deep_view(),
                    column: column.deep_view(),
                }
            },
            SqlMigrationWarningCheck::AlterColumn { table, column } => {
                SqlMigrationWarningCheckV::AlterColumn {
                    table: table.deep_view(),
                    column: column.deep_view(),
                }
            },
        }
    }
}

/// A plan step no database state can survive.
#[derive(Clone, PartialEq, Eq, Debug)]
pub enum UnexecutableStepCheck {
    /// An optional column becomes required without a default: a row holding
    /// null has no value to take.
    MadeOptionalFieldRequired { table: String, column: String },
}

/// Ghost mirror of [`UnexecutableStepCheck`].
#[verifier::ext_equal]
pub ghost enum UnexecutableStepCheckV {
    MadeOptionalFieldRequired { table: Seq<char>, column: Seq<char> },
}

impl DeepView for UnexecutableStepCheck {
    type V = UnexecutableStepCheckV;

    open spec fn deep_view(&self) -> UnexecutableStepCheckV {
        match self {
            UnexecutableStepCheck::MadeOptionalFieldRequired { table, column } => {
                UnexecutableStepCheckV::MadeOptionalFieldRequired {
                    table: table.deep_view(),
                    column: column.deep_view(),
                }
            },
        }
    }
}

/// What the checker found: warnings and unexecutable steps, each paired with
/// the index of the plan step it concerns.
#[derive(Clone, PartialEq, Eq, Debug)]
pub struct DestructiveCheckPlan {
    pub warnings: Vec<(SqlMigrationWarningCheck, usize)>,
    pub unexecutables: Vec<(UnexecutableStepCheck, usize)>,
}

/// Ghost mirror of [`DestructiveCheckPlan`].
#[verifier::ext_equal]
pub ghost struct DestructiveCheckPlanV {
    pub warnings: Seq<(SqlMigrationWarningCheckV, usize)>,
    pub unexecutables: Seq<(UnexecutableStepCheckV, usize)>,
}

impl DeepView for DestructiveCheckPlan {
    type V = DestructiveCheckPlanV;

    open spec fn deep_view(&self) -> DestructiveCheckPlanV {
        DestructiveCheckPlanV {
            warnings: self.warnings.deep_view(),
            unexecutables: self.unexecutables.deep_view(),
        }
    }
}

impl DestructiveCheckPlan {
    /// The empty check result.
    pub fn new() -> (r: DestructiveCheckPlan)
        ensures
            r.deep_view().warnings == Seq::<(SqlMigrationWarningCheckV, usize)>::empty(),
            r.deep_view().unexecutables == Seq::<(UnexecutableStepCheckV, usize)>::empty(),
    {
        let r = DestructiveCheckPlan { warnings: Vec::new(), unexecutables: Vec::new() };
        proof {
            assert(r.warnings.deep_view() =~= Seq::<(SqlMigrationWarningCheckV, usize)>::empty());
            assert(r.unexecutables.deep_view() =~= Seq::<(
                UnexecutableStepCheckV,
                usize,
            )>::empty());
        }
        r
    }

    /// Attach a warning to the plan step at `step_index`.
    pub fn push_warning(&mut self, check: SqlMigrationWarningCheck, step_index: usize)
        ensures
            final(self).deep_view().warnings == old(self).deep_view().warnings.push(
                (check.deep_view(), step_index),
            ),
            final(self).deep_view().unexecutables == old(self).deep_view().unexecutables,
    {
        let ghost prev = self.deep_view().warnings;
        self.warnings.push((check, step_index));
        proof {
            assert(self.warnings.deep_view() =~= prev.push(
                self.warnings@[self.warnings@.len() - 1].deep_view(),
            ));
        }
    }

    /// Mark the plan step at `step_index` unexecutable.
    pub fn push_unexecutable(&mut self, check: UnexecutableStepCheck, step_index: usize)
        ensures
            final(self).deep_view().unexecutables == old(self).deep_view().unexecutables.push(
                (check.deep_view(), step_index),
            ),
            final(self).deep_view().warnings == old(self).deep_view().warnings,
    {
        let ghost prev = self.deep_view().unexecutables;
        self.unexecutables.push((check, step_index));
        proof {
            assert(self.unexecutables.deep_view() =~= prev.push(
                self.unexecutables@[self.unexecutables@.len() - 1].deep_view(),
            ));
        }
    }
}

/// Whether the arity change alone is harmless: dropping a column to
/// nullable, or leaving the arity alone, is; making it required is not.
pub open spec fn spec_arity_change_is_safe(d: ColumnDifferV) -> bool {
    !(d.previous.tpe.arity == ColumnArity::Nullable && d.next.tpe.arity == ColumnArity::Required)
}

/// Whether the alteration draws a warning: the type family changes or the
/// column becomes required.
pub open spec fn spec_sqlite_alter_column_warns(d: ColumnDifferV) -> bool {
    spec_type_changed(d) || !spec_arity_change_is_safe(d)
}

/// Whether the alteration cannot be executed on rows that exist: the arity
/// changes, the column ends required, and no default fills the gap.
pub open spec fn spec_sqlite_alter_column_unexecutable(d: ColumnDifferV) -> bool {
    &&& spec_sqlite_alter_column_warns(d)
    &&& spec_arity_changed(d)
    &&& d.next.tpe.arity == ColumnArity::Required
    &&& d.next.default is None
}

/// The flavour handle for SQLite.
pub struct SqliteFlavour {}

impl SqliteFlavour {
    /// Classify one in-place column alteration: nothing is recorded when
    /// neither the type nor the arity changes for the worse; an alteration
    /// that makes an optional column required without a default is marked
    /// unexecutable; every recorded alteration also draws a warning naming
    /// the table and column.
    pub fn check_alter_column(
        &self,
        columns: &ColumnDiffer,
        plan: &mut DestructiveCheckPlan,
        step_index: usize,
    )
        requires
            columns.deep_view().previous.tpe.arity != ColumnArity::List,
            columns.deep_view().next.tpe.arity != ColumnArity::List,
        ensures
            final(plan).deep_view().warnings == if spec_sqlite_alter_column_warns(
                columns.deep_view(),
            ) {
                old(plan).deep_view().warnings.push(
                    (
                        SqlMigrationWarningCheckV::AlterColumn {
                            table: columns.deep_view().table,
                            column: columns.deep_view().next.name,
                        },
                        step_index,
                    ),
                )
            } else {
                old(plan).deep_view().warnings
            },
            final(plan).deep_view().unexecutables == if spec_sqlite_alter_column_unexecutable(
                columns.deep_view(),
            ) {
                old(plan).deep_view().unexecutables.push(
                    (
                        UnexecutableStepCheckV::MadeOptionalFieldRequired {
                            table: columns.deep_view().table,
                            column: columns.deep_view().previous.name,
                        },
                        step_index,
                    ),
                )
            } else {
                old(plan).deep_view().unexecutables
            },
    {
        let arity_change_is_safe = !(matches!(
            columns.previous.tpe.arity,
            ColumnArity::Nullable,
        ) && matches!(columns.next.tpe.arity, ColumnArity::Required));

        let type_changed = !crate::schema::column_type_families_eq(
            &columns.previous.tpe.family,
            &columns.next.tpe.family,
        );

        if !type_changed && arity_change_is_safe {
            return;
        }

        let arity_changed = columns.previous.tpe.arity != columns.next.tpe.arity;

        if arity_changed && columns.next.tpe.arity.is_required() && columns.next.default.is_none() {
            plan.push_unexecutable(
                UnexecutableStepCheck::MadeOptionalFieldRequired {
                    table: columns.table.clone(),
                    column: columns.previous.name.clone(),
                },
                step_index,
            );
        }

        plan.push_warning(
            SqlMigrationWarningCheck::AlterColumn {
                table: columns.table.clone(),
                column: columns.next.name.clone(),
            },
            step_index,
        );
    }
}

/// The column pair an in-place alteration concerns, read from the previous
/// schema and the planned column: nothing when the table or column is not
/// part of the previous schema.
pub open spec fn spec_alter_column_differ(
    prev: crate::schema::SqlSchemaV,
    table: crate::schema::TableV,
    ac: crate::sql_migration::AlterColumnV,
) -> Option<ColumnDifferV> {
    match crate::schema::spec_find_table(prev.tables, table.name) {
        Some(tp) => match crate::schema::spec_find_column(tp.columns, ac.name) {
            Some(pc) => Some(ColumnDifferV { table: table.name, previous: pc, next: ac.column }),
            None => None,
        },
        None => None,
    }
}

/// The warnings one table change contributes at step `i`: a drop of a
/// column warns; an in-place alteration warns by the alter-column rule.
pub open spec fn spec_change_warnings(
    prev: crate::schema::SqlSchemaV,
    table: crate::schema::TableV,
    c: TableChangeV,
    i: usize,
) -> Seq<(SqlMigrationWarningCheckV, usize)> {
    match c {
        TableChangeV::DropColumn(name) => seq![
            (SqlMigrationWarningCheckV::DropColumn { table: table.name, column: name }, i),
        ],
        TableChangeV::AlterColumn(ac) => match spec_alter_column_differ(prev, table, ac) {
            Some(d) => if spec_sqlite_alter_column_warns(d) {
                seq![
                    (
                        SqlMigrationWarningCheckV::AlterColumn {
                            table: d.table,
                            column: d.next.name,
                        },
                        i,
                    ),
                ]
            } else {
                Seq::<(SqlMigrationWarningCheckV, usize)>::empty()
            },
            None => Seq::<(SqlMigrationWarningCheckV, usize)>::empty(),
        },
        _ => Seq::<(SqlMigrationWarningCheckV, usize)>::empty(),
    }
}

/// The unexecutable marks one table change contributes at step `i`.
pub open spec fn spec_change_unexecutables(
    prev: crate::schema::SqlSchemaV,
    table: crate::schema::TableV,
    c: TableChangeV,
    i: usize,
) -> Seq<(UnexecutableStepCheckV, usize)> {
    match c {
        TableChangeV::AlterColumn(ac) => match spec_alter_column_differ(prev, table, ac) {
            Some(d) => if spec_sqlite_alter_column_unexecutable(d) {
                seq![
                    (
                        UnexecutableStepCheckV::MadeOptionalFieldRequired {
                            table: d.table,
                            column: d.previous.name,
                        },
                        i,
                    ),
                ]
            } else {
                Seq::<(UnexecutableStepCheckV, usize)>::empty()
            },
            None => Seq::<(UnexecutableStepCheckV, usize)>::empty(),
        },
        _ => Seq::<(UnexecutableStepCheckV, usize)>::empty(),
    }
}

/// The warnings one plan step contributes: dropping a table warns against
/// its rows; a table alteration contributes per change.
pub open spec fn spec_step_warnings(
    prev: crate::schema::SqlSchemaV,
    s: crate::sql_migration::SqlMigrationStepV,
    i: usize,
) -> Seq<(SqlMigrationWarningCheckV, usize)> {
    match s {
        crate::sql_migration::SqlMigrationStepV::DropTable(d) => seq![
            (SqlMigrationWarningCheckV::DropTable { table: d.name }, i),
        ],
        crate::sql_migration::SqlMigrationStepV::AlterTable(at) => at.changes.flat_map(
            |c: TableChangeV| spec_change_warnings(prev, at.table, c, i),
        ),
        _ => Seq::<(SqlMigrationWarningCheckV, usize)>::empty(),
    }
}

/// The unexecutable marks one plan step contributes.
pub open spec fn spec_step_unexecutables(
    prev: crate::schema::SqlSchemaV,
    s: crate::sql_migration::SqlMigrationStepV,
    i: usize,
) -> Seq<(UnexecutableStepCheckV, usize)> {
    match s {
        crate::sql_migration::SqlMigrationStepV::AlterTable(at) => at.changes.flat_map(
            |c: TableChangeV| spec_change_unexecutables(prev, at.table, c, i),
        ),
        _ => Seq::<(UnexecutableStepCheckV, usize)>::empty(),
    }
}

/// Whether every in-place alteration of the plan stays off list columns,
/// which this dialect does not hold.
pub open spec fn spec_plan_alterations_checkable(
    prev: crate::schema::SqlSchemaV,
    steps: Seq<crate::sql_migration::SqlMigrationStepV>,
) -> bool {
    forall|i: int, j: int|
        0 <= i < steps.len() && steps[i] is AlterTable && 0 <= j
            < steps[i]->AlterTable_0.changes.len() && #[trigger] steps[i]->AlterTable_0.changes[j]
            is AlterColumn ==> match spec_alter_column_differ(
            prev,
            steps[i]->AlterTable_0.table,
            steps[i]->AlterTable_0.changes[j]->AlterColumn_0,
        ) {
            Some(d) => d.previous.tpe.arity != ColumnArity::List && d.next.tpe.arity
                != ColumnArity::List,
            None => true,
        }
}

/// The warnings of a whole plan, step by step from `start`.
pub open spec fn spec_plan_warnings(
    prev: crate::schema::SqlSchemaV,
    steps: Seq<crate::sql_migration::SqlMigrationStepV>,
    start: usize,
) -> Seq<(SqlMigrationWarningCheckV, usize)>
    decreases steps.len(),
{
    if steps.len() == 0 {
        Seq::<(SqlMigrationWarningCheckV, usize)>::empty()
    } else {
        spec_step_warnings(prev, steps[0], start) + spec_plan_warnings(
            prev,
            steps.drop_first(),
            (start + 1) as usize,
        )
    }
}

/// The unexecutable marks of a whole plan, step by step from `start`.
pub open spec fn spec_plan_unexecutables(
    prev: crate::schema::SqlSchemaV,
    steps: Seq<crate::sql_migration::SqlMigrationStepV>,
    start: usize,
) -> Seq<(UnexecutableStepCheckV, usize)>
    decreases steps.len(),
{
    if steps.len() == 0 {
        Seq::<(UnexecutableStepCheckV, usize)>::empty()
    } else {
        spec_step_unexecutables(prev, steps[0], start) + spec_plan_unexecutables(
            prev,
            steps.drop_first(),
            (start + 1) as usize,
        )
    }
}

proof fn lemma_plan_warnings_push(
    prev: crate::schema::SqlSchemaV,
    steps: Seq<crate::sql_migration::SqlMigrationStepV>,
    s: crate::sql_migration::SqlMigrationStepV,
    start: usize,
)
    requires
        start + steps.len() <= usize::MAX,
    ensures
        spec_plan_warnings(prev, steps.push(s), start) == spec_plan_warnings(prev, steps, start)
            + spec_step_warnings(prev, s, (start + steps.len()) as usize),
        spec_plan_unexecutables(prev, steps.push(s), start) == spec_plan_unexecutables(
            prev,
            steps,
            start,
        ) + spec_step_unexecutables(prev, s, (start + steps.len()) as usize),
    decreases steps.len(),
{
    if steps.len() == 0 {
        assert(steps.push(s).drop_first()
            =~= Seq::<crate::sql_migration::SqlMigrationStepV>::empty());
        assert(steps.push(s)[0] == s);
        assert(spec_plan_warnings(
            prev,
            Seq::<crate::sql_migration::SqlMigrationStepV>::empty(),
            (start + 1) as usize,
        ) == Seq::<(SqlMigrationWarningCheckV, usize)>::empty());
        assert(spec_plan_warnings(prev, steps.push(s), start) =~= spec_step_warnings(
            prev,
            s,
            start,
        ));
        assert(spec_plan_warnings(prev, steps, start) + spec_step_warnings(prev, s, start)
            =~= spec_step_warnings(prev, s, start));
        assert(spec_plan_unexecutables(
            prev,
            Seq::<crate::sql_migration::SqlMigrationStepV>::empty(),
            (start + 1) as usize,
        ) == Seq::<(UnexecutableStepCheckV, usize)>::empty());
        assert(spec_plan_unexecutables(prev, steps.push(s), start) =~= spec_step_unexecutables(
            prev,
            s,
            start,
        ));
        assert(spec_plan_unexecutables(prev, steps, start) + spec_step_unexecutables(
            prev,
            s,
            start,
        ) =~= spec_step_unexecutables(prev, s, start));
    } else {
        assert(steps.push(s).drop_first() =~= steps.drop_first().push(s));
        assert(steps.push(s)[0] == steps[0]);
        lemma_plan_warnings_push(prev, steps.drop_first(), s, (start + 1) as usize);
        assert(spec_step_warnings(prev, steps[0], start) + (spec_plan_warnings(
            prev,
            steps.drop_first(),
            (start + 1) as usize,
        ) + spec_step_warnings(prev, s, (start + steps.len()) as usize))
            =~= (spec_step_warnings(prev, steps[0], start) + spec_plan_warnings(
            prev,
            steps.drop_first(),
            (start + 1) as usize,
        )) + spec_step_warnings(prev, s, (start + steps.len()) as usize));
        assert(spec_step_unexecutables(prev, steps[0], start) + (spec_plan_unexecutables(
            prev,
            steps.drop_first(),
            (start + 1) as usize,
        ) + spec_step_unexecutables(prev, s, (start + steps.len()) as usize))
            =~= (spec_step_unexecutables(prev, steps[0], start) + spec_plan_unexecutables(
            prev,
            steps.drop_first(),
            (start + 1) as usize,
        )) + spec_step_unexecutables(prev, s, (start + steps.len()) as usize));
    }
}

impl SqliteFlavour {
    /// Walk a whole plan against the previous schema: a table drop warns
    /// against its rows, a column drop warns against its values, and each
    /// in-place column alteration is classified by the alter-column rule.
    /// The checker never rewrites the plan; it only annotates it.
    pub fn check_plan(
        &self,
        previous: &SqlSchema,
        steps: &Vec<SqlMigrationStep>,
        plan: &mut DestructiveCheckPlan,
    )
        requires
            spec_plan_alterations_checkable(previous.deep_view(), steps.deep_view()),
        ensures
            final(plan).deep_view().warnings == old(plan).deep_view().warnings
                + spec_plan_warnings(previous.deep_view(), steps.deep_view(), 0),
            final(plan).deep_view().unexecutables == old(plan).deep_view().unexecutables
                + spec_plan_unexecutables(previous.deep_view(), steps.deep_view(), 0),
    {
        let ghost pv = previous.deep_view();
        let ghost sv = steps.deep_view();
        let ghost base_w = plan.deep_view().warnings;
        let ghost base_u = plan.deep_view().unexecutables;
        let mut i: usize = 0;
        proof {
            assert(spec_plan_warnings(pv, sv.take(0int), 0)
                =~= Seq::<(SqlMigrationWarningCheckV, usize)>::empty());
            assert(spec_plan_unexecutables(pv, sv.take(0int), 0)
                =~= Seq::<(UnexecutableStepCheckV, usize)>::empty());
            assert(plan.deep_view().warnings =~= base_w + spec_plan_warnings(
                pv,
                sv.take(0int),
                0,
            ));
            assert(plan.deep_view().unexecutables =~= base_u + spec_plan_unexecutables(
                pv,
                sv.take(0int),
                0,
            ));
        }
        while i < steps.len()
            invariant
                i <= steps@.len(),
                pv == previous.deep_view(),
                sv == steps.deep_view(),
                sv.len() == steps@.len(),
                spec_plan_alterations_checkable(pv, sv),
                plan.deep_view().warnings == base_w + spec_plan_warnings(pv, sv.take(i as int), 0),
                plan.deep_view().unexecutables == base_u + spec_plan_unexecutables(
                    pv,
                    sv.take(i as int),
                    0,
                ),
            decreases steps@.len() - i,
        {
            let ghost step_v = sv[i as int];
            let ghost pre_w = plan.deep_view().warnings;
            let ghost pre_u = plan.deep_view().unexecutables;
            match &steps[i] {
                SqlMigrationStep::DropTable(d) => {
                    plan.push_warning(
                        SqlMigrationWarningCheck::DropTable { table: d.name.clone() },
                        i,
                    );
                    proof {
                        assert(plan.deep_view().warnings =~= pre_w + spec_step_warnings(
                            pv,
                            step_v,
                            i,
                        ));
                        assert(plan.deep_view().unexecutables =~= pre_u + spec_step_unexecutables(
                            pv,
                            step_v,
                            i,
                        ));
                    }
                },
                SqlMigrationStep::AlterTable(at) => {
                    let ghost atv = at.deep_view();
                    let ghost wf = |c: TableChangeV| spec_change_warnings(pv, atv.table, c, i);
                    let ghost uf = |c: TableChangeV| spec_change_unexecutables(pv, atv.table, c, i);
                    let mut q: usize = 0;
                    proof {
                        assert(atv.changes.take(0int).flat_map(wf)
                            =~= Seq::<(SqlMigrationWarningCheckV, usize)>::empty());
                        assert(atv.changes.take(0int).flat_map(uf)
                            =~= Seq::<(UnexecutableStepCheckV, usize)>::empty());
                        assert(plan.deep_view().warnings =~= pre_w + atv.changes.take(
                            0int,
                        ).flat_map(wf));
                        assert(plan.deep_view().unexecutables =~= pre_u + atv.changes.take(
                            0int,
                        ).flat_map(uf));
                    }
                    while q < at.changes.len()
                        invariant
                            q <= at.changes@.len(),
                            pv == previous.deep_view(),
                            sv == steps.deep_view(),
                            i < steps@.len(),
                            sv.len() == steps@.len(),
                            at == steps@[i as int]->AlterTable_0,
                            atv == at.deep_view(),
                            step_v == sv[i as int],
                            step_v == crate::sql_migration::SqlMigrationStepV::AlterTable(atv),
                            atv.changes.len() == at.changes@.len(),
                            spec_plan_alterations_checkable(pv, sv),
                            wf == (|c: TableChangeV| spec_change_warnings(pv, atv.table, c, i)),
                            uf == (|c: TableChangeV| spec_change_unexecutables(
                                pv,
                                atv.table,
                                c,
                                i,
                            )),
                            plan.deep_view().warnings == pre_w + atv.changes.take(
                                q as int,
                            ).flat_map(wf),
                            plan.deep_view().unexecutables == pre_u + atv.changes.take(
                                q as int,
                            ).flat_map(uf),
                        decreases at.changes@.len() - q,
                    {
                        let ghost before_w = plan.deep_view().warnings;
                        let ghost before_u = plan.deep_view().unexecutables;
                        match &at.changes[q] {
                            TableChange::DropColumn(name) => {
                                plan.push_warning(
                                    SqlMigrationWarningCheck::DropColumn {
                                        table: at.table.name.clone(),
                                        column: name.clone(),
                                    },
                                    i,
                                );
                                proof {
                                    assert(plan.deep_view().warnings =~= before_w + wf(
                                        atv.changes[q as int],
                                    ));
                                    assert(plan.deep_view().unexecutables =~= before_u + uf(
                                        atv.changes[q as int],
                                    ));
                                }
                            },
                            TableChange::AlterColumn(ac) => {
                                proof {
                                    assert(sv[i as int]->AlterTable_0 == atv);
                                    assert(sv[i as int]->AlterTable_0.changes[q as int]
                                        == atv.changes[q as int]);
                                    assert(sv[i as int]->AlterTable_0.changes[q as int]
                                        is AlterColumn);
                                    assert(match spec_alter_column_differ(
                                        pv,
                                        sv[i as int]->AlterTable_0.table,
                                        sv[i as int]->AlterTable_0.changes[
                                            q as int
                                        ]->AlterColumn_0,
                                    ) {
                                        Some(d) => d.previous.tpe.arity != ColumnArity::List
                                            && d.next.tpe.arity != ColumnArity::List,
                                        None => true,
                                    });
                                    assert(match spec_alter_column_differ(
                                        pv,
                                        atv.table,
                                        atv.changes[q as int]->AlterColumn_0,
                                    ) {
                                        Some(d) => d.previous.tpe.arity != ColumnArity::List
                                            && d.next.tpe.arity != ColumnArity::List,
                                        None => true,
                                    });
                                }
                                match previous.find_table(at.table.name.as_str()) {
                                    Some(tp) => {
                                        match tp.find_column(ac.name.as_str()) {
                                            Some(pc) => {
                                                let differ = ColumnDiffer {
                                                    table: at.table.name.clone(),
                                                    previous: crate::schema::clone_column(pc),
                                                    next: crate::schema::clone_column(&ac.column),
                                                };
                                                self.check_alter_column(&differ, plan, i);
                                                proof {
                                                    assert(plan.deep_view().warnings =~= before_w
                                                        + wf(atv.changes[q as int]));
                                                    assert(plan.deep_view().unexecutables
                                                        =~= before_u + uf(
                                                        atv.changes[q as int],
                                                    ));
                                                }
                                            },
                                            None => {
                                                proof {
                                                    assert(plan.deep_view().warnings =~= before_w
                                                        + wf(atv.changes[q as int]));
                                                    assert(plan.deep_view().unexecutables
                                                        =~= before_u + uf(
                                                        atv.changes[q as int],
                                                    ));
                                                }
                                            },
                                        }
                                    },
                                    None => {
                                        proof {
                                            assert(plan.deep_view().warnings =~= before_w + wf(
                                                atv.changes[q as int],
                                            ));
                                            assert(plan.deep_view().unexecutables =~= before_u
                                                + uf(atv.changes[q as int]));
                                        }
                                    },
                                }
                            },
                            _ => {
                                proof {
                                    assert(plan.deep_view().warnings =~= before_w + wf(
                                        atv.changes[q as int],
                                    ));
                                    assert(plan.deep_view().unexecutables =~= before_u + uf(
                                        atv.changes[q as int],
                                    ));
                                }
                            },
                        }
                        proof {
                            atv.changes.lemma_flat_map_take_append(wf, q as int);
                            atv.changes.lemma_flat_map_take_append(uf, q as int);
                        }
                        q = q + 1;
                    }
                    proof {
                        assert(atv.changes.take(atv.changes.len() as int) =~= atv.changes);
                        assert(plan.deep_view().warnings =~= pre_w + spec_step_warnings(
                            pv,
                            step_v,
                            i,
                        ));
                        assert(plan.deep_view().unexecutables =~= pre_u + spec_step_unexecutables(
                            pv,
                            step_v,
                            i,
                        ));
                    }
                },
                _ => {
                    proof {
                        assert(spec_step_warnings(pv, step_v, i)
                            =~= Seq::<(SqlMigrationWarningCheckV, usize)>::empty());
                        assert(spec_step_unexecutables(pv, step_v, i)
                            =~= Seq::<(UnexecutableStepCheckV, usize)>::empty());
                        assert(plan.deep_view().warnings =~= pre_w + spec_step_warnings(
                            pv,
                            step_v,
                            i,
                        ));
                        assert(plan.deep_view().unexecutables =~= pre_u + spec_step_unexecutables(
                            pv,
                            step_v,
                            i,
                        ));
                    }
                },
            }
            proof {
                assert(sv.take(i + 1int) =~= sv.take(i as int).push(sv[i as int]));
                lemma_plan_warnings_push(pv, sv.take(i as int), sv[i as int], 0);
                assert((0 + sv.take(i as int).len()) as usize == i);
            }
            i = i + 1;
        }
        proof {
            assert(sv.take(sv.len() as int) =~= sv);
        }
    }
}

/// What one stored value of a column may be: a proper value, or null where
/// the column is nullable. A required column with no default cannot accept
/// a stored null.
pub open spec fn spec_value_admissible(c: ColumnV, v: Option<PrismaValueV>) -> bool {
    v is None ==> (c.tpe.arity == ColumnArity::Nullable || c.default is Some)
}

/// Soundness of the unexecutable mark: whenever an alteration is marked
/// `MadeOptionalFieldRequired`, there is a stored value — null — that the
/// previous column admits and the next column cannot accept, so the step
/// fails against any table that holds such a row.
pub proof fn lemma_unexecutable_alter_column_sound(d: ColumnDifferV)
    requires
        d.previous.tpe.arity != ColumnArity::List,
        d.next.tpe.arity != ColumnArity::List,
        spec_sqlite_alter_column_unexecutable(d),
    ensures
        exists|v: Option<PrismaValueV>|
            #[trigger] spec_value_admissible(d.previous, v) && !spec_value_admissible(d.next, v),
{
    assert(d.next.tpe.arity == ColumnArity::Required);
    assert(d.previous.tpe.arity == ColumnArity::Nullable);
    let witness: Option<PrismaValueV> = None;
    assert(spec_value_admissible(d.previous, witness));
    assert(!spec_value_admissible(d.next, witness));
}

} // verus!
