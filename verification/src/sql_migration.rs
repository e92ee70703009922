//! The migration plan: the ordered schema-change steps a differ produces and
//! a renderer turns into DDL.

use vstd::prelude::*;
use crate::schema::{Column, ColumnV, Enum, EnumV, ForeignKey, ForeignKeyV, Index, IndexV, Table,
    TableV};

verus! {

/// Creation of one table.
#[derive(Clone, PartialEq, Eq, Debug)]
pub struct CreateTable {
    pub table: Table,
}

/// Ghost mirror of [`CreateTable`].
#[verifier::ext_equal]
pub ghost struct CreateTableV {
    pub table: TableV,
}

impl DeepView for CreateTable {
    type V = CreateTableV;

    open spec fn deep_view(&self) -> CreateTableV {
        CreateTableV { table: self.table.deep_view() }
    }
}

/// Removal of one table.
#[derive(Clone, PartialEq, Eq, Debug)]
pub struct DropTable {
    pub name: String,
}

/// Ghost mirror of [`DropTable`].
#[verifier::ext_equal]
pub ghost struct DropTableV {
    pub name: Seq<char>,
}

impl DeepView for DropTable {
    type V = DropTableV;

    open spec fn deep_view(&self) -> DropTableV {
        DropTableV { name: self.name.deep_view() }
    }
}

/// One change applied to a kept table.
#[derive(Clone, PartialEq, Eq, Debug)]
pub enum TableChange {
    AddColumn(Column),
    DropColumn(String),
    AlterColumn(AlterColumn),
    AddPrimaryKey { columns: Vec<String> },
    DropPrimaryKey { constraint_name: Option<String> },
}

/// Replacement of a kept column: the previous and the next shape.
#[derive(Clone, PartialEq, Eq, Debug)]
pub struct AlterColumn {
    pub name: String,
    pub column: Column,
}

/// Ghost mirror of [`AlterColumn`].
#[verifier::ext_equal]
pub ghost struct AlterColumnV {
    pub name: Seq<char>,
    pub column: ColumnV,
}

impl DeepView for AlterColumn {
    type V = AlterColumnV;

    open spec fn deep_view(&self) -> AlterColumnV {
        AlterColumnV { name: self.name.deep_view(), column: self.column.deep_view() }
    }
}

/// Ghost mirror of [`TableChange`].
#[verifier::ext_equal]
pub ghost enum TableChangeV {
    AddColumn(ColumnV),
    DropColumn(Seq<char>),
    AlterColumn(AlterColumnV),
    AddPrimaryKey { columns: Seq<Seq<char>> },
    DropPrimaryKey { constraint_name: Option<Seq<char>> },
}

impl DeepView for TableChange {
    type V = TableChangeV;

    open spec fn deep_view(&self) -> TableChangeV {
        match self {
            TableChange::AddColumn(c) => TableChangeV::AddColumn(c.deep_view()),
            TableChange::DropColumn(n) => TableChangeV::DropColumn(n.deep_view()),
            TableChange::AlterColumn(a) => TableChangeV::AlterColumn(a.deep_view()),
            TableChange::AddPrimaryKey { columns } => TableChangeV::AddPrimaryKey {
                columns: columns.deep_view(),
            },
            TableChange::DropPrimaryKey { constraint_name } => TableChangeV::DropPrimaryKey {
                constraint_name: constraint_name.deep_view(),
            },
        }
    }
}

/// The changes applied to one kept table.
#[derive(Clone, PartialEq, Eq, Debug)]
pub struct AlterTable {
    pub table: Table,
    pub changes: Vec<TableChange>,
}

/// Ghost mirror of [`AlterTable`].
#[verifier::ext_equal]
pub ghost struct AlterTableV {
    pub table: TableV,
    pub changes: Seq<TableChangeV>,
}

impl DeepView for AlterTable {
    type V = AlterTableV;

    open spec fn deep_view(&self) -> AlterTableV {
        AlterTableV { table: self.table.deep_view(), changes: self.changes.deep_view() }
    }
}

/// Creation of one index.
#[derive(Clone, PartialEq, Eq, Debug)]
pub struct CreateIndex {
    pub table: String,
    pub index: Index,
    pub caused_by_create_table: bool,
    pub contains_nullable_columns: bool,
}

/// Ghost mirror of [`CreateIndex`].
#[verifier::ext_equal]
pub ghost struct CreateIndexV {
    pub table: Seq<char>,
    pub index: IndexV,
    pub caused_by_create_table: bool,
    pub contains_nullable_columns: bool,
}

impl DeepView for CreateIndex {
    type V = CreateIndexV;

    open spec fn deep_view(&self) -> CreateIndexV {
        CreateIndexV {
            table: self.table.deep_view(),
            index: self.index.deep_view(),
            caused_by_create_table: self.caused_by_create_table,
            contains_nullable_columns: self.contains_nullable_columns,
        }
    }
}

/// Removal of one index.
#[derive(Clone, PartialEq, Eq, Debug)]
pub struct DropIndex {
    pub table: String,
    pub name: String,
}

/// Ghost mirror of [`DropIndex`].
#[verifier::ext_equal]
pub ghost struct DropIndexV {
    pub table: Seq<char>,
    pub name: Seq<char>,
}

impl DeepView for DropIndex {
    type V = DropIndexV;

    open spec fn deep_view(&self) -> DropIndexV {
        DropIndexV { table: self.table.deep_view(), name: self.name.deep_view() }
    }
}

/// Renaming of one index.
#[derive(Clone, PartialEq, Eq, Debug)]
pub struct AlterIndex {
    pub table: String,
    pub index_name: String,
    pub index_new_name: String,
}

/// Ghost mirror of [`AlterIndex`].
#[verifier::ext_equal]
pub ghost struct AlterIndexV {
    pub table: Seq<char>,
    pub index_name: Seq<char>,
    pub index_new_name: Seq<char>,
}

impl DeepView for AlterIndex {
    type V = AlterIndexV;

    open spec fn deep_view(&self) -> AlterIndexV {
        AlterIndexV {
            table: self.table.deep_view(),
            index_name: self.index_name.deep_view(),
            index_new_name: self.index_new_name.deep_view(),
        }
    }
}

/// Addition of one foreign key.
#[derive(Clone, PartialEq, Eq, Debug)]
pub struct AddForeignKey {
    pub table: String,
    pub foreign_key: ForeignKey,
}

/// Ghost mirror of [`AddForeignKey`].
#[verifier::ext_equal]
pub ghost struct AddForeignKeyV {
    pub table: Seq<char>,
    pub foreign_key: ForeignKeyV,
}

impl DeepView for AddForeignKey {
    type V = AddForeignKeyV;

    open spec fn deep_view(&self) -> AddForeignKeyV {
        AddForeignKeyV {
            table: self.table.deep_view(),
            foreign_key: self.foreign_key.deep_view(),
        }
    }
}

/// Removal of one foreign key.
#[derive(Clone, PartialEq, Eq, Debug)]
pub struct DropForeignKey {
    pub table: String,
    pub constraint_name: String,
}

/// Ghost mirror of [`DropForeignKey`].
#[verifier::ext_equal]
pub ghost struct DropForeignKeyV {
    pub table: Seq<char>,
    pub constraint_name: Seq<char>,
}

impl DeepView for DropForeignKey {
    type V = DropForeignKeyV;

    open spec fn deep_view(&self) -> DropForeignKeyV {
        DropForeignKeyV {
            table: self.table.deep_view(),
            constraint_name: self.constraint_name.deep_view(),
        }
    }
}

/// Creation of one database enum.
#[derive(Clone, PartialEq, Eq, Debug)]
pub struct CreateEnum {
    pub enum_def: Enum,
}

/// Ghost mirror of [`CreateEnum`].
#[verifier::ext_equal]
pub ghost struct CreateEnumV {
    pub enum_def: EnumV,
}

impl DeepView for CreateEnum {
    type V = CreateEnumV;

    open spec fn deep_view(&self) -> CreateEnumV {
        CreateEnumV { enum_def: self.enum_def.deep_view() }
    }
}

/// Removal of one database enum.
#[derive(Clone, PartialEq, Eq, Debug)]
pub struct DropEnum {
    pub name: String,
}

/// Ghost mirror of [`DropEnum`].
#[verifier::ext_equal]
pub ghost struct DropEnumV {
    pub name: Seq<char>,
}

impl DeepView for DropEnum {
    type V = DropEnumV;

    open spec fn deep_view(&self) -> DropEnumV {
        DropEnumV { name: self.name.deep_view() }
    }
}

/// Value changes of one kept database enum.
#[derive(Clone, PartialEq, Eq, Debug)]
pub struct AlterEnum {
    pub name: String,
    pub created_values: Vec<String>,
    pub dropped_values: Vec<String>,
}

/// Ghost mirror of [`AlterEnum`].
#[verifier::ext_equal]
pub ghost struct AlterEnumV {
    pub name: Seq<char>,
    pub created_values: Seq<Seq<char>>,
    pub dropped_values: Seq<Seq<char>>,
}

impl DeepView for AlterEnum {
    type V = AlterEnumV;

    open spec fn deep_view(&self) -> AlterEnumV {
        AlterEnumV {
            name: self.name.deep_view(),
            created_values: self.created_values.deep_view(),
            dropped_values: self.dropped_values.deep_view(),
        }
    }
}

/// One step of a migration plan.
#[derive(Clone, PartialEq, Eq, Debug)]
pub enum SqlMigrationStep {
    CreateTable(CreateTable),
    DropTable(DropTable),
    AlterTable(AlterTable),
    CreateIndex(CreateIndex),
    DropIndex(DropIndex),
    AlterIndex(AlterIndex),
    AddForeignKey(AddForeignKey),
    DropForeignKey(DropForeignKey),
    CreateEnum(CreateEnum),
    DropEnum(DropEnum),
    AlterEnum(AlterEnum),
}

/// Ghost mirror of [`SqlMigrationStep`].
#[verifier::ext_equal]
pub ghost enum SqlMigrationStepV {
    CreateTable(CreateTableV),
    DropTable(DropTableV),
    AlterTable(AlterTableV),
    CreateIndex(CreateIndexV),
    DropIndex(DropIndexV),
    AlterIndex(AlterIndexV),
    AddForeignKey(AddForeignKeyV),
    DropForeignKey(DropForeignKeyV),
    CreateEnum(CreateEnumV),
    DropEnum(DropEnumV),
    AlterEnum(AlterEnumV),
}

impl DeepView for SqlMigrationStep {
    type V = SqlMigrationStepV;

    open spec fn deep_view(&self) -> SqlMigrationStepV {
        match self {
            SqlMigrationStep::CreateTable(s) => SqlMigrationStepV::CreateTable(s.deep_view()),
            SqlMigrationStep::DropTable(s) => SqlMigrationStepV::DropTable(s.deep_view()),
            SqlMigrationStep::AlterTable(s) => SqlMigrationStepV::AlterTable(s.deep_view()),
            SqlMigrationStep::CreateIndex(s) => SqlMigrationStepV::CreateIndex(s.deep_view()),
            SqlMigrationStep::DropIndex(s) => SqlMigrationStepV::DropIndex(s.deep_view()),
            SqlMigrationStep::AlterIndex(s) => SqlMigrationStepV::AlterIndex(s.deep_view()),
            SqlMigrationStep::AddForeignKey(s) => SqlMigrationStepV::AddForeignKey(s.deep_view()),
            SqlMigrationStep::DropForeignKey(s) => SqlMigrationStepV::DropForeignKey(s.deep_view()),
            SqlMigrationStep::CreateEnum(s) => SqlMigrationStepV::CreateEnum(s.deep_view()),
            SqlMigrationStep::DropEnum(s) => SqlMigrationStepV::DropEnum(s.deep_view()),
            SqlMigrationStep::AlterEnum(s) => SqlMigrationStepV::AlterEnum(s.deep_view()),
        }
    }
}

} // verus!
