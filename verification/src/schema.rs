//! The SQL schema model: tables, columns, types, keys, indices, foreign keys,
//! enums and sequences, as a database describer reports them.
//!
//! Every type has a ghost mirror (the `...V` structs) reached through
//! `DeepView`, so that contracts can speak about schemas as mathematical
//! values built from sequences and characters.

use vstd::prelude::*;

verus! {

/// Nullability and cardinality of a column.
#[derive(Clone, Copy, PartialEq, Eq, Structural, Debug)]
pub enum ColumnArity {
    Required,
    Nullable,
    List,
}

impl ColumnArity {
    /// Whether the arity is `Required`.
    pub fn is_required(&self) -> (r: bool)
        ensures
            r == (*self == ColumnArity::Required),
    {
        matches!(self, ColumnArity::Required)
    }
}

/// Unique or plain index.
#[derive(Clone, Copy, PartialEq, Eq, Structural, Debug)]
pub enum IndexType {
    Unique,
    Normal,
}

/// Referential action of a foreign key.
#[derive(Clone, Copy, PartialEq, Eq, Structural, Debug)]
pub enum ForeignKeyAction {
    NoAction,
    Restrict,
    Cascade,
    SetNull,
    SetDefault,
}

/// The coarse type category of a column.
#[derive(Clone, PartialEq, Eq, Debug)]
pub enum ColumnTypeFamily {
    Int,
    Float,
    Boolean,
    String,
    DateTime,
    Binary,
    Json,
    Uuid,
    Enum(String),
    Geometric,
    LogSequenceNumber,
    TextSearch,
    TransactionId,
    Unsupported(String),
}

/// Ghost mirror of [`ColumnTypeFamily`].
#[verifier::ext_equal]
pub ghost enum ColumnTypeFamilyV {
    Int,
    Float,
    Boolean,
    String,
    DateTime,
    Binary,
    Json,
    Uuid,
    Enum(Seq<char>),
    Geometric,
    LogSequenceNumber,
    TextSearch,
    TransactionId,
    Unsupported(Seq<char>),
}

impl DeepView for ColumnTypeFamily {
    type V = ColumnTypeFamilyV;

    open spec fn deep_view(&self) -> ColumnTypeFamilyV {
        match self {
            ColumnTypeFamily::Int => ColumnTypeFamilyV::Int,
            ColumnTypeFamily::Float => ColumnTypeFamilyV::Float,
            ColumnTypeFamily::Boolean => ColumnTypeFamilyV::Boolean,
            ColumnTypeFamily::String => ColumnTypeFamilyV::String,
            ColumnTypeFamily::DateTime => ColumnTypeFamilyV::DateTime,
            ColumnTypeFamily::Binary => ColumnTypeFamilyV::Binary,
            ColumnTypeFamily::Json => ColumnTypeFamilyV::Json,
            ColumnTypeFamily::Uuid => ColumnTypeFamilyV::Uuid,
            ColumnTypeFamily::Enum(name) => ColumnTypeFamilyV::Enum(name.deep_view()),
            ColumnTypeFamily::Geometric => ColumnTypeFamilyV::Geometric,
            ColumnTypeFamily::LogSequenceNumber => ColumnTypeFamilyV::LogSequenceNumber,
            ColumnTypeFamily::TextSearch => ColumnTypeFamilyV::TextSearch,
            ColumnTypeFamily::TransactionId => ColumnTypeFamilyV::TransactionId,
            ColumnTypeFamily::Unsupported(name) => ColumnTypeFamilyV::Unsupported(name.deep_view()),
        }
    }
}

/// A database value carried by a column default. Floats and datetimes are
/// held as their rendered text, so that the model stays a plain value.
#[derive(Clone, PartialEq, Eq, Debug)]
pub enum PrismaValue {
    String(String),
    Boolean(bool),
    Int(i64),
    Float(String),
    Enum(String),
    DateTime(String),
    Json(String),
    Null,
}

/// Ghost mirror of [`PrismaValue`].
#[verifier::ext_equal]
pub ghost enum PrismaValueV {
    String(Seq<char>),
    Boolean(bool),
    Int(int),
    Float(Seq<char>),
    Enum(Seq<char>),
    DateTime(Seq<char>),
    Json(Seq<char>),
    Null,
}

impl DeepView for PrismaValue {
    type V = PrismaValueV;

    open spec fn deep_view(&self) -> PrismaValueV {
        match self {
            PrismaValue::String(s) => PrismaValueV::String(s.deep_view()),
            PrismaValue::Boolean(b) => PrismaValueV::Boolean(*b),
            PrismaValue::Int(i) => PrismaValueV::Int(*i as int),
            PrismaValue::Float(s) => PrismaValueV::Float(s.deep_view()),
            PrismaValue::Enum(s) => PrismaValueV::Enum(s.deep_view()),
            PrismaValue::DateTime(s) => PrismaValueV::DateTime(s.deep_view()),
            PrismaValue::Json(s) => PrismaValueV::Json(s.deep_view()),
            PrismaValue::Null => PrismaValueV::Null,
        }
    }
}

impl PrismaValue {
    /// A float value holding a whole number, as its decimal numeral.
    pub fn float_from_int(n: i64) -> (r: PrismaValue)
        ensures
            r.deep_view() == PrismaValueV::Float(crate::strutil::spec_decimal_i64(n as int)),
    {
        PrismaValue::Float(crate::strutil::render_i64(n))
    }
}

/// The default of a column as the database declares it.
#[derive(Clone, PartialEq, Eq, Debug)]
pub enum DefaultValue {
    /// A literal value.
    VALUE(PrismaValue),
    /// The current timestamp.
    NOW,
    /// A database-computed expression, kept verbatim.
    DBGENERATED(String),
    /// Drawn from a named sequence.
    SEQUENCE(String),
}

/// Ghost mirror of [`DefaultValue`].
#[verifier::ext_equal]
pub ghost enum DefaultValueV {
    VALUE(PrismaValueV),
    NOW,
    DBGENERATED(Seq<char>),
    SEQUENCE(Seq<char>),
}

impl DeepView for DefaultValue {
    type V = DefaultValueV;

    open spec fn deep_view(&self) -> DefaultValueV {
        match self {
            DefaultValue::VALUE(v) => DefaultValueV::VALUE(v.deep_view()),
            DefaultValue::NOW => DefaultValueV::NOW,
            DefaultValue::DBGENERATED(s) => DefaultValueV::DBGENERATED(s.deep_view()),
            DefaultValue::SEQUENCE(s) => DefaultValueV::SEQUENCE(s.deep_view()),
        }
    }
}

/// The SQL-level type of a column.
#[derive(Clone, PartialEq, Eq, Debug)]
pub struct ColumnType {
    pub data_type: String,
    pub full_data_type: String,
    pub character_maximum_length: Option<u32>,
    pub family: ColumnTypeFamily,
    pub arity: ColumnArity,
    pub native_type: Option<String>,
}

/// Ghost mirror of [`ColumnType`].
#[verifier::ext_equal]
pub ghost struct ColumnTypeV {
    pub data_type: Seq<char>,
    pub full_data_type: Seq<char>,
    pub character_maximum_length: Option<u32>,
    pub family: ColumnTypeFamilyV,
    pub arity: ColumnArity,
    pub native_type: Option<Seq<char>>,
}

impl DeepView for ColumnType {
    type V = ColumnTypeV;

    open spec fn deep_view(&self) -> ColumnTypeV {
        ColumnTypeV {
            data_type: self.data_type.deep_view(),
            full_data_type: self.full_data_type.deep_view(),
            character_maximum_length: self.character_maximum_length,
            family: self.family.deep_view(),
            arity: self.arity,
            native_type: self.native_type.deep_view(),
        }
    }
}

impl ColumnType {
    /// A column type carrying only a family and an arity.
    pub fn pure(family: ColumnTypeFamily, arity: ColumnArity) -> (r: ColumnType)
        ensures
            r.deep_view() == (ColumnTypeV {
                data_type: Seq::<char>::empty(),
                full_data_type: Seq::<char>::empty(),
                character_maximum_length: None,
                family: family.deep_view(),
                arity: arity,
                native_type: None,
            }),
    {
        ColumnType {
            data_type: String::new(),
            full_data_type: String::new(),
            character_maximum_length: None,
            family,
            arity,
            native_type: None,
        }
    }
}

/// A table column.
#[derive(Clone, PartialEq, Eq, Debug)]
pub struct Column {
    pub name: String,
    pub tpe: ColumnType,
    pub default: Option<DefaultValue>,
    pub auto_increment: bool,
}

/// Ghost mirror of [`Column`].
#[verifier::ext_equal]
pub ghost struct ColumnV {
    pub name: Seq<char>,
    pub tpe: ColumnTypeV,
    pub default: Option<DefaultValueV>,
    pub auto_increment: bool,
}

impl DeepView for Column {
    type V = ColumnV;

    open spec fn deep_view(&self) -> ColumnV {
        ColumnV {
            name: self.name.deep_view(),
            tpe: self.tpe.deep_view(),
            default: self.default.deep_view(),
            auto_increment: self.auto_increment,
        }
    }
}

/// A sequence backing an auto-incrementing key.
#[derive(Clone, PartialEq, Eq, Debug)]
pub struct Sequence {
    pub name: String,
    pub initial_value: u32,
    pub allocation_size: u32,
}

/// Ghost mirror of [`Sequence`].
#[verifier::ext_equal]
pub ghost struct SequenceV {
    pub name: Seq<char>,
    pub initial_value: u32,
    pub allocation_size: u32,
}

impl DeepView for Sequence {
    type V = SequenceV;

    open spec fn deep_view(&self) -> SequenceV {
        SequenceV {
            name: self.name.deep_view(),
            initial_value: self.initial_value,
            allocation_size: self.allocation_size,
        }
    }
}

/// The primary key of a table.
#[derive(Clone, PartialEq, Eq, Debug)]
pub struct PrimaryKey {
    pub columns: Vec<String>,
    pub sequence: Option<Sequence>,
    pub constraint_name: Option<String>,
}

/// Ghost mirror of [`PrimaryKey`].
#[verifier::ext_equal]
pub ghost struct PrimaryKeyV {
    pub columns: Seq<Seq<char>>,
    pub sequence: Option<SequenceV>,
    pub constraint_name: Option<Seq<char>>,
}

impl DeepView for PrimaryKey {
    type V = PrimaryKeyV;

    open spec fn deep_view(&self) -> PrimaryKeyV {
        PrimaryKeyV {
            columns: self.columns.deep_view(),
            sequence: self.sequence.deep_view(),
            constraint_name: self.constraint_name.deep_view(),
        }
    }
}

/// A foreign key of a table.
#[derive(Clone, PartialEq, Eq, Debug)]
pub struct ForeignKey {
    pub constraint_name: Option<String>,
    pub columns: Vec<String>,
    pub referenced_table: String,
    pub on_delete_action: ForeignKeyAction,
    pub on_update_action: ForeignKeyAction,
    pub referenced_columns: Vec<String>,
}

/// Ghost mirror of [`ForeignKey`].
#[verifier::ext_equal]
pub ghost struct ForeignKeyV {
    pub constraint_name: Option<Seq<char>>,
    pub columns: Seq<Seq<char>>,
    pub referenced_table: Seq<char>,
    pub on_delete_action: ForeignKeyAction,
    pub on_update_action: ForeignKeyAction,
    pub referenced_columns: Seq<Seq<char>>,
}

impl DeepView for ForeignKey {
    type V = ForeignKeyV;

    open spec fn deep_view(&self) -> ForeignKeyV {
        ForeignKeyV {
            constraint_name: self.constraint_name.deep_view(),
            columns: self.columns.deep_view(),
            referenced_table: self.referenced_table.deep_view(),
            on_delete_action: self.on_delete_action,
            on_update_action: self.on_update_action,
            referenced_columns: self.referenced_columns.deep_view(),
        }
    }
}

/// An index over a table's columns.
#[derive(Clone, PartialEq, Eq, Debug)]
pub struct Index {
    pub name: String,
    pub columns: Vec<String>,
    pub tpe: IndexType,
}

/// Ghost mirror of [`Index`].
#[verifier::ext_equal]
pub ghost struct IndexV {
    pub name: Seq<char>,
    pub columns: Seq<Seq<char>>,
    pub tpe: IndexType,
}

impl DeepView for Index {
    type V = IndexV;

    open spec fn deep_view(&self) -> IndexV {
        IndexV {
            name: self.name.deep_view(),
            columns: self.columns.deep_view(),
            tpe: self.tpe,
        }
    }
}

impl Index {
    /// Whether the index enforces uniqueness.
    pub fn is_unique(&self) -> (r: bool)
        ensures
            r == (self.tpe == IndexType::Unique),
    {
        matches!(self.tpe, IndexType::Unique)
    }
}

/// A table: named, with ordered columns, an optional primary key, indices
/// and foreign keys.
#[derive(Clone, PartialEq, Eq, Debug)]
pub struct Table {
    pub name: String,
    pub columns: Vec<Column>,
    pub indices: Vec<Index>,
    pub primary_key: Option<PrimaryKey>,
    pub foreign_keys: Vec<ForeignKey>,
}

/// Ghost mirror of [`Table`].
#[verifier::ext_equal]
pub ghost struct TableV {
    pub name: Seq<char>,
    pub columns: Seq<ColumnV>,
    pub indices: Seq<IndexV>,
    pub primary_key: Option<PrimaryKeyV>,
    pub foreign_keys: Seq<ForeignKeyV>,
}

impl DeepView for Table {
    type V = TableV;

    open spec fn deep_view(&self) -> TableV {
        TableV {
            name: self.name.deep_view(),
            columns: self.columns.deep_view(),
            indices: self.indices.deep_view(),
            primary_key: self.primary_key.deep_view(),
            foreign_keys: self.foreign_keys.deep_view(),
        }
    }
}

/// A database enum type: a name and its ordered values.
#[derive(Clone, PartialEq, Eq, Debug)]
pub struct Enum {
    pub name: String,
    pub values: Vec<String>,
}

/// Ghost mirror of [`Enum`].
#[verifier::ext_equal]
pub ghost struct EnumV {
    pub name: Seq<char>,
    pub values: Seq<Seq<char>>,
}

impl DeepView for Enum {
    type V = EnumV;

    open spec fn deep_view(&self) -> EnumV {
        EnumV { name: self.name.deep_view(), values: self.values.deep_view() }
    }
}

/// A described SQL schema: tables, enums and sequences.
#[derive(Clone, PartialEq, Eq, Debug)]
pub struct SqlSchema {
    pub tables: Vec<Table>,
    pub enums: Vec<Enum>,
    pub sequences: Vec<Sequence>,
}

/// Ghost mirror of [`SqlSchema`].
#[verifier::ext_equal]
pub ghost struct SqlSchemaV {
    pub tables: Seq<TableV>,
    pub enums: Seq<EnumV>,
    pub sequences: Seq<SequenceV>,
}

impl DeepView for SqlSchema {
    type V = SqlSchemaV;

    open spec fn deep_view(&self) -> SqlSchemaV {
        SqlSchemaV {
            tables: self.tables.deep_view(),
            enums: self.enums.deep_view(),
            sequences: self.sequences.deep_view(),
        }
    }
}

/// The first column of `cols` named `name`, if any.
pub open spec fn spec_find_column(cols: Seq<ColumnV>, name: Seq<char>) -> Option<ColumnV>
    decreases cols.len(),
{
    if cols.len() == 0 {
        None
    } else if cols[0].name == name {
        Some(cols[0])
    } else {
        spec_find_column(cols.drop_first(), name)
    }
}

proof fn lemma_find_column_skip(cols: Seq<ColumnV>, name: Seq<char>, i: int)
    requires
        0 <= i <= cols.len(),
        forall|j: int| 0 <= j < i ==> cols[j].name != name,
    ensures
        spec_find_column(cols, name) == spec_find_column(cols.skip(i), name),
    decreases i,
{
    if i > 0 {
        lemma_find_column_skip(cols, name, i - 1);
        let shorter = cols.skip(i - 1);
        assert(shorter[0] == cols[i - 1]);
        assert(shorter.drop_first() =~= cols.skip(i));
    } else {
        assert(cols.skip(0) =~= cols);
    }
}

impl Table {
    /// The first column of the table with the given name.
    pub fn find_column(&self, name: &str) -> (r: Option<&Column>)
        ensures
            match r {
                Some(c) => spec_find_column(self.deep_view().columns, name@) == Some(c.deep_view()),
                None => spec_find_column(self.deep_view().columns, name@) is None,
            },
    {
        let ghost cols = self.deep_view().columns;
        let mut i: usize = 0;
        while i < self.columns.len()
            invariant
                i <= self.columns@.len(),
                cols == self.deep_view().columns,
                cols.len() == self.columns@.len(),
                forall|j: int| 0 <= j < i ==> cols[j].name != name@,
            decreases self.columns@.len() - i,
        {
            if crate::strutil::str_eq(self.columns[i].name.as_str(), name) {
                proof {
                    lemma_find_column_skip(cols, name@, i as int);
                    assert(cols.skip(i as int)[0] == cols[i as int]);
                }
                return Some(&self.columns[i]);
            }
            i = i + 1;
        }
        proof {
            lemma_find_column_skip(cols, name@, cols.len() as int);
            assert(cols.skip(cols.len() as int) =~= Seq::<ColumnV>::empty());
        }
        None
    }
}

/// With pairwise distinct column names, a column's own name finds exactly
/// it.
pub proof fn lemma_find_column_self(cols: Seq<ColumnV>, i: int)
    requires
        0 <= i < cols.len(),
        forall|a: int, b: int|
            0 <= a < b < cols.len() ==> (#[trigger] cols[a].name) != (#[trigger] cols[b].name),
    ensures
        spec_find_column(cols, cols[i].name) == Some(cols[i]),
{
    lemma_find_column_skip(cols, cols[i].name, i);
    assert(cols.skip(i)[0] == cols[i]);
}

/// Whether the column of `t` named `name` exists and is nullable.
pub open spec fn spec_column_is_nullable(t: TableV, name: Seq<char>) -> bool {
    match spec_find_column(t.columns, name) {
        Some(c) => c.tpe.arity == ColumnArity::Nullable,
        None => false,
    }
}

/// Whether any column of the index is nullable on `t`.
pub open spec fn spec_index_has_nullable_column(t: TableV, idx: IndexV) -> bool {
    exists|i: int| 0 <= i < idx.columns.len() && spec_column_is_nullable(t, idx.columns[i])
}

/// Whether any of the named columns is nullable on the table.
pub fn index_has_nullable_column(table: &Table, index: &Index) -> (r: bool)
    ensures
        r == spec_index_has_nullable_column(table.deep_view(), index.deep_view()),
{
    let ghost t = table.deep_view();
    let ghost idx = index.deep_view();
    let mut i: usize = 0;
    while i < index.columns.len()
        invariant
            i <= index.columns@.len(),
            t == table.deep_view(),
            idx == index.deep_view(),
            idx.columns.len() == index.columns@.len(),
            forall|j: int| 0 <= j < i ==> !spec_column_is_nullable(t, idx.columns[j]),
        decreases index.columns@.len() - i,
    {
        proof {
            assert(idx.columns[i as int] == index.columns@[i as int]@);
        }
        match table.find_column(index.columns[i].as_str()) {
            Some(c) => {
                if matches!(c.tpe.arity, ColumnArity::Nullable) {
                    return true;
                }
            },
            None => {},
        }
        i = i + 1;
    }
    false
}

/// The first table of `tables` named `name`, if any.
pub open spec fn spec_find_table(tables: Seq<TableV>, name: Seq<char>) -> Option<TableV>
    decreases tables.len(),
{
    if tables.len() == 0 {
        None
    } else if tables[0].name == name {
        Some(tables[0])
    } else {
        spec_find_table(tables.drop_first(), name)
    }
}

proof fn lemma_find_table_skip(tables: Seq<TableV>, name: Seq<char>, i: int)
    requires
        0 <= i <= tables.len(),
        forall|j: int| 0 <= j < i ==> tables[j].name != name,
    ensures
        spec_find_table(tables, name) == spec_find_table(tables.skip(i), name),
    decreases i,
{
    if i > 0 {
        lemma_find_table_skip(tables, name, i - 1);
        let shorter = tables.skip(i - 1);
        assert(shorter[0] == tables[i - 1]);
        assert(shorter.drop_first() =~= tables.skip(i));
    } else {
        assert(tables.skip(0) =~= tables);
    }
}

/// With pairwise distinct table names, a table's own name finds exactly it.
pub proof fn lemma_find_table_self(tables: Seq<TableV>, i: int)
    requires
        0 <= i < tables.len(),
        forall|a: int, b: int|
            0 <= a < b < tables.len() ==> (#[trigger] tables[a].name) != (#[trigger]
            tables[b].name),
    ensures
        spec_find_table(tables, tables[i].name) == Some(tables[i]),
{
    lemma_find_table_skip(tables, tables[i].name, i);
    assert(tables.skip(i)[0] == tables[i]);
}

impl SqlSchema {
    /// The first table of the schema with the given name.
    pub fn find_table(&self, name: &str) -> (r: Option<&Table>)
        ensures
            match r {
                Some(t) => spec_find_table(self.deep_view().tables, name@) == Some(t.deep_view()),
                None => spec_find_table(self.deep_view().tables, name@) is None,
            },
    {
        let ghost tables = self.deep_view().tables;
        let mut i: usize = 0;
        while i < self.tables.len()
            invariant
                i <= self.tables@.len(),
                tables == self.deep_view().tables,
                tables.len() == self.tables@.len(),
                forall|j: int| 0 <= j < i ==> tables[j].name != name@,
            decreases self.tables@.len() - i,
        {
            if crate::strutil::str_eq(self.tables[i].name.as_str(), name) {
                proof {
                    lemma_find_table_skip(tables, name@, i as int);
                    assert(tables.skip(i as int)[0] == tables[i as int]);
                }
                return Some(&self.tables[i]);
            }
            i = i + 1;
        }
        proof {
            lemma_find_table_skip(tables, name@, tables.len() as int);
            assert(tables.skip(tables.len() as int) =~= Seq::<TableV>::empty());
        }
        None
    }
}

/// The first enum of `enums` named `name`, if any.
pub open spec fn spec_find_enum(enums: Seq<EnumV>, name: Seq<char>) -> Option<EnumV>
    decreases enums.len(),
{
    if enums.len() == 0 {
        None
    } else if enums[0].name == name {
        Some(enums[0])
    } else {
        spec_find_enum(enums.drop_first(), name)
    }
}

proof fn lemma_find_enum_skip(enums: Seq<EnumV>, name: Seq<char>, i: int)
    requires
        0 <= i <= enums.len(),
        forall|j: int| 0 <= j < i ==> enums[j].name != name,
    ensures
        spec_find_enum(enums, name) == spec_find_enum(enums.skip(i), name),
    decreases i,
{
    if i > 0 {
        lemma_find_enum_skip(enums, name, i - 1);
        let shorter = enums.skip(i - 1);
        assert(shorter[0] == enums[i - 1]);
        assert(shorter.drop_first() =~= enums.skip(i));
    } else {
        assert(enums.skip(0) =~= enums);
    }
}

/// With pairwise distinct enum names, an enum's own name finds exactly it.
pub proof fn lemma_find_enum_self(enums: Seq<EnumV>, i: int)
    requires
        0 <= i < enums.len(),
        forall|a: int, b: int|
            0 <= a < b < enums.len() ==> (#[trigger] enums[a].name) != (#[trigger] enums[b].name),
    ensures
        spec_find_enum(enums, enums[i].name) == Some(enums[i]),
{
    lemma_find_enum_skip(enums, enums[i].name, i);
    assert(enums.skip(i)[0] == enums[i]);
}

/// The first enum of the list with the given name.
pub fn find_enum<'a>(enums: &'a Vec<Enum>, name: &str) -> (r: Option<&'a Enum>)
    ensures
        match r {
            Some(e) => spec_find_enum(enums.deep_view(), name@) == Some(e.deep_view()),
            None => spec_find_enum(enums.deep_view(), name@) is None,
        },
{
    let ghost ev = enums.deep_view();
    let mut i: usize = 0;
    while i < enums.len()
        invariant
            i <= enums@.len(),
            ev == enums.deep_view(),
            ev.len() == enums@.len(),
            forall|j: int| 0 <= j < i ==> ev[j].name != name@,
        decreases enums@.len() - i,
    {
        if crate::strutil::str_eq(enums[i].name.as_str(), name) {
            proof {
                lemma_find_enum_skip(ev, name@, i as int);
                assert(ev.skip(i as int)[0] == ev[i as int]);
            }
            return Some(&enums[i]);
        }
        i = i + 1;
    }
    proof {
        lemma_find_enum_skip(ev, name@, ev.len() as int);
        assert(ev.skip(ev.len() as int) =~= Seq::<EnumV>::empty());
    }
    None
}

/// A fresh column type equal to the given one.
pub fn clone_column_type(t: &ColumnType) -> (r: ColumnType)
    ensures
        r.deep_view() == t.deep_view(),
{
    ColumnType {
        data_type: t.data_type.clone(),
        full_data_type: t.full_data_type.clone(),
        character_maximum_length: t.character_maximum_length,
        family: match &t.family {
            ColumnTypeFamily::Enum(n) => ColumnTypeFamily::Enum(n.clone()),
            ColumnTypeFamily::Unsupported(n) => ColumnTypeFamily::Unsupported(n.clone()),
            ColumnTypeFamily::Int => ColumnTypeFamily::Int,
            ColumnTypeFamily::Float => ColumnTypeFamily::Float,
            ColumnTypeFamily::Boolean => ColumnTypeFamily::Boolean,
            ColumnTypeFamily::String => ColumnTypeFamily::String,
            ColumnTypeFamily::DateTime => ColumnTypeFamily::DateTime,
            ColumnTypeFamily::Binary => ColumnTypeFamily::Binary,
            ColumnTypeFamily::Json => ColumnTypeFamily::Json,
            ColumnTypeFamily::Uuid => ColumnTypeFamily::Uuid,
            ColumnTypeFamily::Geometric => ColumnTypeFamily::Geometric,
            ColumnTypeFamily::LogSequenceNumber => ColumnTypeFamily::LogSequenceNumber,
            ColumnTypeFamily::TextSearch => ColumnTypeFamily::TextSearch,
            ColumnTypeFamily::TransactionId => ColumnTypeFamily::TransactionId,
        },
        arity: t.arity,
        native_type: match &t.native_type {
            Some(n) => Some(n.clone()),
            None => None,
        },
    }
}

/// A fresh default equal to the given one.
pub fn clone_default_value(d: &DefaultValue) -> (r: DefaultValue)
    ensures
        r.deep_view() == d.deep_view(),
{
    match d {
        DefaultValue::VALUE(v) => DefaultValue::VALUE(
            crate::introspection::clone_prisma_value(v),
        ),
        DefaultValue::NOW => DefaultValue::NOW,
        DefaultValue::DBGENERATED(s) => DefaultValue::DBGENERATED(s.clone()),
        DefaultValue::SEQUENCE(s) => DefaultValue::SEQUENCE(s.clone()),
    }
}

/// A fresh column equal to the given one.
pub fn clone_column(c: &Column) -> (r: Column)
    ensures
        r.deep_view() == c.deep_view(),
{
    Column {
        name: c.name.clone(),
        tpe: clone_column_type(&c.tpe),
        default: match &c.default {
            Some(d) => Some(clone_default_value(d)),
            None => None,
        },
        auto_increment: c.auto_increment,
    }
}

/// A fresh index equal to the given one.
pub fn clone_index(ix: &Index) -> (r: Index)
    ensures
        r.deep_view() == ix.deep_view(),
{
    Index {
        name: ix.name.clone(),
        columns: crate::sequences::clone_string_vec(&ix.columns),
        tpe: ix.tpe,
    }
}

/// A fresh foreign key equal to the given one.
pub fn clone_foreign_key(fk: &ForeignKey) -> (r: ForeignKey)
    ensures
        r.deep_view() == fk.deep_view(),
{
    ForeignKey {
        constraint_name: match &fk.constraint_name {
            Some(n) => Some(n.clone()),
            None => None,
        },
        columns: crate::sequences::clone_string_vec(&fk.columns),
        referenced_table: fk.referenced_table.clone(),
        on_delete_action: fk.on_delete_action,
        on_update_action: fk.on_update_action,
        referenced_columns: crate::sequences::clone_string_vec(&fk.referenced_columns),
    }
}

/// A fresh table equal to the given one.
pub fn clone_table(t: &Table) -> (r: Table)
    ensures
        r.deep_view() == t.deep_view(),
{
    let mut columns: Vec<Column> = Vec::new();
    let mut i: usize = 0;
    while i < t.columns.len()
        invariant
            i <= t.columns@.len(),
            columns@.len() == i,
            forall|j: int| 0 <= j < i ==> columns@[j].deep_view() == t.columns@[j].deep_view(),
        decreases t.columns@.len() - i,
    {
        columns.push(clone_column(&t.columns[i]));
        i = i + 1;
    }
    let mut indices: Vec<Index> = Vec::new();
    let mut j: usize = 0;
    while j < t.indices.len()
        invariant
            j <= t.indices@.len(),
            indices@.len() == j,
            forall|k: int| 0 <= k < j ==> indices@[k].deep_view() == t.indices@[k].deep_view(),
        decreases t.indices@.len() - j,
    {
        indices.push(clone_index(&t.indices[j]));
        j = j + 1;
    }
    let mut foreign_keys: Vec<ForeignKey> = Vec::new();
    let mut k: usize = 0;
    while k < t.foreign_keys.len()
        invariant
            k <= t.foreign_keys@.len(),
            foreign_keys@.len() == k,
            forall|m: int|
                0 <= m < k ==> foreign_keys@[m].deep_view() == t.foreign_keys@[m].deep_view(),
        decreases t.foreign_keys@.len() - k,
    {
        foreign_keys.push(clone_foreign_key(&t.foreign_keys[k]));
        k = k + 1;
    }
    let primary_key: Option<PrimaryKey> = match &t.primary_key {
        Some(pk) => Some(
            PrimaryKey {
                columns: crate::sequences::clone_string_vec(&pk.columns),
                sequence: match &pk.sequence {
                    Some(s) => Some(
                        Sequence {
                            name: s.name.clone(),
                            initial_value: s.initial_value,
                            allocation_size: s.allocation_size,
                        },
                    ),
                    None => None,
                },
                constraint_name: match &pk.constraint_name {
                    Some(n) => Some(n.clone()),
                    None => None,
                },
            },
        ),
        None => None,
    };
    let r = Table { name: t.name.clone(), columns, indices, primary_key, foreign_keys };
    proof {
        assert(r.columns.deep_view() =~= t.columns.deep_view());
        assert(r.indices.deep_view() =~= t.indices.deep_view());
        assert(r.foreign_keys.deep_view() =~= t.foreign_keys.deep_view());
        assert(r.deep_view() =~= t.deep_view());
    }
    r
}

/// A fresh enum equal to the given one.
pub fn clone_enum(e: &Enum) -> (r: Enum)
    ensures
        r.deep_view() == e.deep_view(),
{
    let r = Enum {
        name: e.name.clone(),
        values: crate::sequences::clone_string_vec(&e.values),
    };
    proof {
        assert(r.deep_view() =~= e.deep_view());
    }
    r
}

/// Whether two name lists hold the same names in the same order.
pub fn string_lists_eq(a: &Vec<String>, b: &Vec<String>) -> (r: bool)
    ensures
        r == (a.deep_view() == b.deep_view()),
{
    if a.len() != b.len() {
        proof {
            assert(a.deep_view().len() == a@.len() && b.deep_view().len() == b@.len());
        }
        return false;
    }
    let mut i: usize = 0;
    while i < a.len()
        invariant
            i <= a@.len(),
            a@.len() == b@.len(),
            a.deep_view().len() == a@.len(),
            b.deep_view().len() == b@.len(),
            forall|j: int| 0 <= j < i ==> a.deep_view()[j] == b.deep_view()[j],
        decreases a@.len() - i,
    {
        if !crate::strutil::str_eq(a[i].as_str(), b[i].as_str()) {
            proof {
                assert(a.deep_view()[i as int] != b.deep_view()[i as int]);
            }
            return false;
        }
        i = i + 1;
    }
    proof {
        assert(a.deep_view() =~= b.deep_view());
    }
    true
}

/// Whether two database values are the same.
pub fn prisma_values_eq(a: &PrismaValue, b: &PrismaValue) -> (r: bool)
    ensures
        r == (a.deep_view() == b.deep_view()),
{
    match (a, b) {
        (PrismaValue::String(x), PrismaValue::String(y)) => crate::strutil::string_eq(x, y),
        (PrismaValue::Boolean(x), PrismaValue::Boolean(y)) => x == y,
        (PrismaValue::Int(x), PrismaValue::Int(y)) => x == y,
        (PrismaValue::Float(x), PrismaValue::Float(y)) => crate::strutil::string_eq(x, y),
        (PrismaValue::Enum(x), PrismaValue::Enum(y)) => crate::strutil::string_eq(x, y),
        (PrismaValue::DateTime(x), PrismaValue::DateTime(y)) => crate::strutil::string_eq(x, y),
        (PrismaValue::Json(x), PrismaValue::Json(y)) => crate::strutil::string_eq(x, y),
        (PrismaValue::Null, PrismaValue::Null) => true,
        _ => false,
    }
}

/// Whether two column defaults are the same.
pub fn default_values_eq(a: &DefaultValue, b: &DefaultValue) -> (r: bool)
    ensures
        r == (a.deep_view() == b.deep_view()),
{
    match (a, b) {
        (DefaultValue::VALUE(x), DefaultValue::VALUE(y)) => prisma_values_eq(x, y),
        (DefaultValue::NOW, DefaultValue::NOW) => true,
        (DefaultValue::DBGENERATED(x), DefaultValue::DBGENERATED(y)) => {
            crate::strutil::string_eq(x, y)
        },
        (DefaultValue::SEQUENCE(x), DefaultValue::SEQUENCE(y)) => crate::strutil::string_eq(x, y),
        _ => false,
    }
}

/// Whether two optional column defaults are the same.
pub fn optional_defaults_eq(a: &Option<DefaultValue>, b: &Option<DefaultValue>) -> (r: bool)
    ensures
        r == (a.deep_view() == b.deep_view()),
{
    match (a, b) {
        (Some(x), Some(y)) => default_values_eq(x, y),
        (None, None) => true,
        _ => false,
    }
}

/// Whether two column-type families are the same, enum and unsupported
/// names included.
pub fn column_type_families_eq(a: &ColumnTypeFamily, b: &ColumnTypeFamily) -> (r: bool)
    ensures
        r == (a.deep_view() == b.deep_view()),
{
    match (a, b) {
        (ColumnTypeFamily::Int, ColumnTypeFamily::Int) => true,
        (ColumnTypeFamily::Float, ColumnTypeFamily::Float) => true,
        (ColumnTypeFamily::Boolean, ColumnTypeFamily::Boolean) => true,
        (ColumnTypeFamily::String, ColumnTypeFamily::String) => true,
        (ColumnTypeFamily::DateTime, ColumnTypeFamily::DateTime) => true,
        (ColumnTypeFamily::Binary, ColumnTypeFamily::Binary) => true,
        (ColumnTypeFamily::Json, ColumnTypeFamily::Json) => true,
        (ColumnTypeFamily::Uuid, ColumnTypeFamily::Uuid) => true,
        (ColumnTypeFamily::Enum(x), ColumnTypeFamily::Enum(y)) => crate::strutil::string_eq(x, y),
        (ColumnTypeFamily::Geometric, ColumnTypeFamily::Geometric) => true,
        (ColumnTypeFamily::LogSequenceNumber, ColumnTypeFamily::LogSequenceNumber) => true,
        (ColumnTypeFamily::TextSearch, ColumnTypeFamily::TextSearch) => true,
        (ColumnTypeFamily::TransactionId, ColumnTypeFamily::TransactionId) => true,
        (ColumnTypeFamily::Unsupported(x), ColumnTypeFamily::Unsupported(y)) => {
            crate::strutil::string_eq(x, y)
        },
        _ => false,
    }
}

/// The SQL dialects the engine speaks.
#[derive(Clone, Copy, PartialEq, Eq, Structural, Debug)]
pub enum SqlFamily {
    Postgres,
    Mysql,
    Sqlite,
    Mssql,
}

} // verus!
