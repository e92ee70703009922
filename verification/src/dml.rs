//! The high-level data model: models with scalar and relation fields,
//! enums, index definitions and id fields, as the introspector produces it
//! and the schema calculator consumes it.

use vstd::prelude::*;
use crate::schema::{IndexType, PrismaValue, PrismaValueV};

verus! {

/// Nullability and cardinality of a field.
#[derive(Clone, Copy, PartialEq, Eq, Structural, Debug)]
pub enum FieldArity {
    Required,
    Optional,
    List,
}

/// The scalar types a base field can carry.
#[derive(Clone, Copy, PartialEq, Eq, Structural, Debug)]
pub enum ScalarType {
    Int,
    Float,
    Boolean,
    String,
    DateTime,
    Json,
}

/// What happens to dependents when a related record is deleted.
#[derive(Clone, Copy, PartialEq, Eq, Structural, Debug)]
pub enum OnDeleteStrategy {
    NoAction,
    Cascade,
}

/// The type of a scalar field.
#[derive(Clone, PartialEq, Eq, Debug)]
pub enum FieldType {
    /// A built-in scalar, with an optional dialect native type.
    Base(ScalarType, Option<String>),
    /// A reference to a named enum of the data model.
    Enum(String),
    /// A column type the data model cannot express; the text names it.
    Unsupported(String),
}

/// Ghost mirror of [`FieldType`].
#[verifier::ext_equal]
pub ghost enum FieldTypeV {
    Base(ScalarType, Option<Seq<char>>),
    Enum(Seq<char>),
    Unsupported(Seq<char>),
}

impl DeepView for FieldType {
    type V = FieldTypeV;

    open spec fn deep_view(&self) -> FieldTypeV {
        match self {
            FieldType::Base(s, n) => FieldTypeV::Base(*s, n.deep_view()),
            FieldType::Enum(n) => FieldTypeV::Enum(n.deep_view()),
            FieldType::Unsupported(n) => FieldTypeV::Unsupported(n.deep_view()),
        }
    }
}

/// A generator expression standing as a field default.
#[derive(Clone, PartialEq, Eq, Debug)]
pub struct ValueGenerator {
    pub name: String,
    pub args: Vec<PrismaValue>,
}

/// Ghost mirror of [`ValueGenerator`].
#[verifier::ext_equal]
pub ghost struct ValueGeneratorV {
    pub name: Seq<char>,
    pub args: Seq<PrismaValueV>,
}

impl DeepView for ValueGenerator {
    type V = ValueGeneratorV;

    open spec fn deep_view(&self) -> ValueGeneratorV {
        ValueGeneratorV { name: self.name.deep_view(), args: self.args.deep_view() }
    }
}

/// The ghost value of the `autoincrement()` generator.
pub open spec fn spec_autoincrement() -> ValueGeneratorV {
    ValueGeneratorV { name: "autoincrement"@, args: Seq::empty() }
}

impl ValueGenerator {
    /// The `autoincrement()` generator.
    pub fn new_autoincrement() -> (r: ValueGenerator)
        ensures
            r.deep_view() == spec_autoincrement(),
    {
        let r = ValueGenerator { name: "autoincrement".to_owned(), args: Vec::new() };
        proof {
            assert(r.args.deep_view() =~= Seq::<PrismaValueV>::empty());
        }
        r
    }
}

/// The default of a field: a single literal or a generator expression.
#[derive(Clone, PartialEq, Eq, Debug)]
pub enum DefaultValue {
    Single(PrismaValue),
    Expression(ValueGenerator),
}

/// Ghost mirror of [`DefaultValue`].
#[verifier::ext_equal]
pub ghost enum DefaultValueV {
    Single(PrismaValueV),
    Expression(ValueGeneratorV),
}

impl DeepView for DefaultValue {
    type V = DefaultValueV;

    open spec fn deep_view(&self) -> DefaultValueV {
        match self {
            DefaultValue::Single(v) => DefaultValueV::Single(v.deep_view()),
            DefaultValue::Expression(g) => DefaultValueV::Expression(g.deep_view()),
        }
    }
}

/// A scalar field of a model.
#[derive(Clone, PartialEq, Eq, Debug)]
pub struct ScalarField {
    pub name: String,
    pub arity: FieldArity,
    pub field_type: FieldType,
    pub database_name: Option<String>,
    pub default_value: Option<DefaultValue>,
    pub is_unique: bool,
    pub is_id: bool,
    pub documentation: Option<String>,
    pub is_generated: bool,
    pub is_updated_at: bool,
    pub is_commented_out: bool,
}

/// Ghost mirror of [`ScalarField`].
#[verifier::ext_equal]
pub ghost struct ScalarFieldV {
    pub name: Seq<char>,
    pub arity: FieldArity,
    pub field_type: FieldTypeV,
    pub database_name: Option<Seq<char>>,
    pub default_value: Option<DefaultValueV>,
    pub is_unique: bool,
    pub is_id: bool,
    pub documentation: Option<Seq<char>>,
    pub is_generated: bool,
    pub is_updated_at: bool,
    pub is_commented_out: bool,
}

impl DeepView for ScalarField {
    type V = ScalarFieldV;

    open spec fn deep_view(&self) -> ScalarFieldV {
        ScalarFieldV {
            name: self.name.deep_view(),
            arity: self.arity,
            field_type: self.field_type.deep_view(),
            database_name: self.database_name.deep_view(),
            default_value: self.default_value.deep_view(),
            is_unique: self.is_unique,
            is_id: self.is_id,
            documentation: self.documentation.deep_view(),
            is_generated: self.is_generated,
            is_updated_at: self.is_updated_at,
            is_commented_out: self.is_commented_out,
        }
    }
}

/// The ghost scalar field carrying only a name, arity and type.
pub open spec fn spec_plain_scalar_field(
    name: Seq<char>,
    arity: FieldArity,
    field_type: FieldTypeV,
) -> ScalarFieldV {
    ScalarFieldV {
        name: name,
        arity: arity,
        field_type: field_type,
        database_name: None,
        default_value: None,
        is_unique: false,
        is_id: false,
        documentation: None,
        is_generated: false,
        is_updated_at: false,
        is_commented_out: false,
    }
}

impl ScalarField {
    /// A field with the given name, arity and type and every flag cleared.
    pub fn new(name: &str, arity: FieldArity, field_type: FieldType) -> (r: ScalarField)
        ensures
            r.deep_view() == spec_plain_scalar_field(name@, arity, field_type.deep_view()),
    {
        ScalarField {
            name: name.to_owned(),
            arity,
            field_type,
            database_name: None,
            default_value: None,
            is_unique: false,
            is_id: false,
            documentation: None,
            is_generated: false,
            is_updated_at: false,
            is_commented_out: false,
        }
    }
}

/// How a relation field is wired to the opposite model.
#[derive(Clone, PartialEq, Eq, Debug)]
pub struct RelationInfo {
    /// The name of the referenced model.
    pub to: String,
    /// The fields on this model that hold the foreign key.
    pub fields: Vec<String>,
    /// The referenced fields on the opposite model.
    pub to_fields: Vec<String>,
    /// The relation name shared by both sides.
    pub name: String,
    pub on_delete: OnDeleteStrategy,
}

/// Ghost mirror of [`RelationInfo`].
#[verifier::ext_equal]
pub ghost struct RelationInfoV {
    pub to: Seq<char>,
    pub fields: Seq<Seq<char>>,
    pub to_fields: Seq<Seq<char>>,
    pub name: Seq<char>,
    pub on_delete: OnDeleteStrategy,
}

impl DeepView for RelationInfo {
    type V = RelationInfoV;

    open spec fn deep_view(&self) -> RelationInfoV {
        RelationInfoV {
            to: self.to.deep_view(),
            fields: self.fields.deep_view(),
            to_fields: self.to_fields.deep_view(),
            name: self.name.deep_view(),
            on_delete: self.on_delete,
        }
    }
}

/// A relation field of a model.
#[derive(Clone, PartialEq, Eq, Debug)]
pub struct RelationField {
    pub name: String,
    pub arity: FieldArity,
    pub relation_info: RelationInfo,
}

/// Ghost mirror of [`RelationField`].
#[verifier::ext_equal]
pub ghost struct RelationFieldV {
    pub name: Seq<char>,
    pub arity: FieldArity,
    pub relation_info: RelationInfoV,
}

impl DeepView for RelationField {
    type V = RelationFieldV;

    open spec fn deep_view(&self) -> RelationFieldV {
        RelationFieldV {
            name: self.name.deep_view(),
            arity: self.arity,
            relation_info: self.relation_info.deep_view(),
        }
    }
}

impl RelationField {
    /// A relation field with the given name, arity and wiring.
    pub fn new(name: &str, arity: FieldArity, relation_info: RelationInfo) -> (r: RelationField)
        ensures
            r.deep_view() == (RelationFieldV {
                name: name@,
                arity: arity,
                relation_info: relation_info.deep_view(),
            }),
    {
        RelationField { name: name.to_owned(), arity, relation_info }
    }
}

/// A field of a model: scalar or relation.
#[derive(Clone, PartialEq, Eq, Debug)]
pub enum Field {
    ScalarField(ScalarField),
    RelationField(RelationField),
}

/// Ghost mirror of [`Field`].
#[verifier::ext_equal]
pub ghost enum FieldV {
    ScalarField(ScalarFieldV),
    RelationField(RelationFieldV),
}

impl DeepView for Field {
    type V = FieldV;

    open spec fn deep_view(&self) -> FieldV {
        match self {
            Field::ScalarField(f) => FieldV::ScalarField(f.deep_view()),
            Field::RelationField(f) => FieldV::RelationField(f.deep_view()),
        }
    }
}

/// The ghost name of a field, scalar or relation.
pub open spec fn spec_field_name(f: FieldV) -> Seq<char> {
    match f {
        FieldV::ScalarField(s) => s.name,
        FieldV::RelationField(r) => r.name,
    }
}

impl Field {
    /// The field's name.
    pub fn name(&self) -> (r: &String)
        ensures
            r.deep_view() == spec_field_name(self.deep_view()),
    {
        match self {
            Field::ScalarField(f) => &f.name,
            Field::RelationField(f) => &f.name,
        }
    }
}

/// A unique or plain index declared on a model.
#[derive(Clone, PartialEq, Eq, Debug)]
pub struct IndexDefinition {
    pub name: Option<String>,
    pub fields: Vec<String>,
    pub tpe: IndexType,
}

/// Ghost mirror of [`IndexDefinition`].
#[verifier::ext_equal]
pub ghost struct IndexDefinitionV {
    pub name: Option<Seq<char>>,
    pub fields: Seq<Seq<char>>,
    pub tpe: IndexType,
}

impl DeepView for IndexDefinition {
    type V = IndexDefinitionV;

    open spec fn deep_view(&self) -> IndexDefinitionV {
        IndexDefinitionV {
            name: self.name.deep_view(),
            fields: self.fields.deep_view(),
            tpe: self.tpe,
        }
    }
}

/// A model of the data model.
#[derive(Clone, PartialEq, Eq, Debug)]
pub struct Model {
    pub name: String,
    pub database_name: Option<String>,
    pub documentation: Option<String>,
    pub is_embedded: bool,
    pub is_generated: bool,
    pub is_commented_out: bool,
    pub fields: Vec<Field>,
    pub indices: Vec<IndexDefinition>,
    pub id_fields: Vec<String>,
}

/// Ghost mirror of [`Model`].
#[verifier::ext_equal]
pub ghost struct ModelV {
    pub name: Seq<char>,
    pub database_name: Option<Seq<char>>,
    pub documentation: Option<Seq<char>>,
    pub is_embedded: bool,
    pub is_generated: bool,
    pub is_commented_out: bool,
    pub fields: Seq<FieldV>,
    pub indices: Seq<IndexDefinitionV>,
    pub id_fields: Seq<Seq<char>>,
}

impl DeepView for Model {
    type V = ModelV;

    open spec fn deep_view(&self) -> ModelV {
        ModelV {
            name: self.name.deep_view(),
            database_name: self.database_name.deep_view(),
            documentation: self.documentation.deep_view(),
            is_embedded: self.is_embedded,
            is_generated: self.is_generated,
            is_commented_out: self.is_commented_out,
            fields: self.fields.deep_view(),
            indices: self.indices.deep_view(),
            id_fields: self.id_fields.deep_view(),
        }
    }
}

/// One value of a data-model enum.
#[derive(Clone, PartialEq, Eq, Debug)]
pub struct EnumValue {
    pub name: String,
    pub database_name: Option<String>,
    pub documentation: Option<String>,
    pub commented_out: bool,
}

/// Ghost mirror of [`EnumValue`].
#[verifier::ext_equal]
pub ghost struct EnumValueV {
    pub name: Seq<char>,
    pub database_name: Option<Seq<char>>,
    pub documentation: Option<Seq<char>>,
    pub commented_out: bool,
}

impl DeepView for EnumValue {
    type V = EnumValueV;

    open spec fn deep_view(&self) -> EnumValueV {
        EnumValueV {
            name: self.name.deep_view(),
            database_name: self.database_name.deep_view(),
            documentation: self.documentation.deep_view(),
            commented_out: self.commented_out,
        }
    }
}

/// An enum of the data model.
#[derive(Clone, PartialEq, Eq, Debug)]
pub struct Enum {
    pub name: String,
    pub database_name: Option<String>,
    pub documentation: Option<String>,
    pub commented_out: bool,
    pub values: Vec<EnumValue>,
}

/// Ghost mirror of [`Enum`].
#[verifier::ext_equal]
pub ghost struct EnumV {
    pub name: Seq<char>,
    pub database_name: Option<Seq<char>>,
    pub documentation: Option<Seq<char>>,
    pub commented_out: bool,
    pub values: Seq<EnumValueV>,
}

impl DeepView for Enum {
    type V = EnumV;

    open spec fn deep_view(&self) -> EnumV {
        EnumV {
            name: self.name.deep_view(),
            database_name: self.database_name.deep_view(),
            documentation: self.documentation.deep_view(),
            commented_out: self.commented_out,
            values: self.values.deep_view(),
        }
    }
}

/// An ordered list of models and enums.
#[derive(Clone, PartialEq, Eq, Debug)]
pub struct Datamodel {
    pub models: Vec<Model>,
    pub enums: Vec<Enum>,
}

/// Ghost mirror of [`Datamodel`].
#[verifier::ext_equal]
pub ghost struct DatamodelV {
    pub models: Seq<ModelV>,
    pub enums: Seq<EnumV>,
}

impl DeepView for Datamodel {
    type V = DatamodelV;

    open spec fn deep_view(&self) -> DatamodelV {
        DatamodelV { models: self.models.deep_view(), enums: self.enums.deep_view() }
    }
}

impl Datamodel {
    /// The empty data model.
    pub fn new() -> (r: Datamodel)
        ensures
            r.deep_view().models == Seq::<ModelV>::empty(),
            r.deep_view().enums == Seq::<EnumV>::empty(),
    {
        let r = Datamodel { models: Vec::new(), enums: Vec::new() };
        proof {
            assert(r.models.deep_view() =~= Seq::<ModelV>::empty());
            assert(r.enums.deep_view() =~= Seq::<EnumV>::empty());
        }
        r
    }
}

} // verus!
