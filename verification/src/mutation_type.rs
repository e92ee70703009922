//! The root `Mutation` type of the query schema: one create / delete /
//! update / upsert / update-many / delete-many field per model, and the raw
//! query fields when those are enabled.

use vstd::prelude::*;
use crate::strutil::concat_str;

verus! {

/// A model as the query schema builder sees it.
#[derive(Clone, PartialEq, Eq, Debug)]
pub struct InternalModel {
    pub name: String,
    pub is_embedded: bool,
    /// Whether the model has a unique criterion to address one record by;
    /// without one there is no delete, update or upsert of a single record.
    pub has_unique_criterion: bool,
}

/// Ghost mirror of [`InternalModel`].
#[verifier::ext_equal]
pub ghost struct InternalModelV {
    pub name: Seq<char>,
    pub is_embedded: bool,
    pub has_unique_criterion: bool,
}

impl DeepView for InternalModel {
    type V = InternalModelV;

    open spec fn deep_view(&self) -> InternalModelV {
        InternalModelV {
            name: self.name.deep_view(),
            is_embedded: self.is_embedded,
            has_unique_criterion: self.has_unique_criterion,
        }
    }
}

/// The models the schema is built over.
#[derive(Clone, PartialEq, Eq, Debug)]
pub struct InternalDataModel {
    pub models: Vec<InternalModel>,
}

/// Whether field names follow the legacy, pluralising convention or the
/// modern `...One` convention.
#[derive(Clone, Copy, PartialEq, Eq, Structural, Debug)]
pub enum BuildMode {
    Legacy,
    Modern,
}

/// What the schema builder needs to know.
#[derive(Clone, PartialEq, Eq, Debug)]
pub struct BuilderContext {
    pub internal_data_model: InternalDataModel,
    pub enable_raw_queries: bool,
    pub mode: BuildMode,
}

/// Ghost mirror of [`BuilderContext`].
#[verifier::ext_equal]
pub ghost struct BuilderContextV {
    pub models: Seq<InternalModelV>,
    pub enable_raw_queries: bool,
    pub mode: BuildMode,
}

impl DeepView for BuilderContext {
    type V = BuilderContextV;

    open spec fn deep_view(&self) -> BuilderContextV {
        BuilderContextV {
            models: self.internal_data_model.models.deep_view(),
            enable_raw_queries: self.enable_raw_queries,
            mode: self.mode,
        }
    }
}

/// The operation a mutation field performs.
#[derive(Clone, Copy, PartialEq, Eq, Structural, Debug)]
pub enum QueryTag {
    CreateOne,
    DeleteOne,
    DeleteMany,
    UpdateOne,
    UpdateMany,
    UpsertOne,
    ExecuteRaw,
    QueryRaw,
}

/// One field of the `Mutation` type.
#[derive(Clone, PartialEq, Eq, Debug)]
pub struct Field {
    pub name: String,
    pub tag: QueryTag,
}

/// Ghost mirror of [`Field`].
#[verifier::ext_equal]
pub ghost struct FieldV {
    pub name: Seq<char>,
    pub tag: QueryTag,
}

impl DeepView for Field {
    type V = FieldV;

    open spec fn deep_view(&self) -> FieldV {
        FieldV { name: self.name.deep_view(), tag: self.tag }
    }
}

/// A named object type holding fields.
#[derive(Clone, PartialEq, Eq, Debug)]
pub struct ObjectType {
    pub name: String,
    pub fields: Vec<Field>,
}

/// Whether the character is an English vowel letter.
pub open spec fn spec_is_vowel(c: char) -> bool {
    c == 'a' || c == 'e' || c == 'i' || c == 'o' || c == 'u' || c == 'A' || c == 'E' || c == 'I'
        || c == 'O' || c == 'U'
}

/// An English plural of a model name: names ending in `s` or `x` gain `es`,
/// a consonant followed by `y` becomes `ies`, everything else gains `s`.
pub open spec fn spec_pluralize(s: Seq<char>) -> Seq<char> {
    if s.len() == 0 {
        s
    } else if s.last() == 's' || s.last() == 'x' {
        s + "es"@
    } else if s.last() == 'y' && s.len() >= 2 && !spec_is_vowel(s[s.len() - 2]) {
        s.take(s.len() - 1) + "ies"@
    } else {
        s + "s"@
    }
}

/// Whether the character is an English vowel letter.
fn is_vowel(c: char) -> (r: bool)
    ensures
        r == spec_is_vowel(c),
{
    c == 'a' || c == 'e' || c == 'i' || c == 'o' || c == 'u' || c == 'A' || c == 'E' || c == 'I'
        || c == 'O' || c == 'U'
}

/// The English plural of a model name.
pub fn pluralize(s: &str) -> (r: String)
    ensures
        r@ == spec_pluralize(s@),
{
    let n = s.unicode_len();
    if n == 0 {
        return s.to_owned();
    }
    let last = s.get_char(n - 1);
    if last == 's' || last == 'x' {
        concat_str(s, "es")
    } else if last == 'y' && n >= 2 && !is_vowel(s.get_char(n - 2)) {
        let stem = s.substring_char(0, n - 1);
        proof {
            assert(stem@ =~= s@.take(s@.len() - 1));
        }
        concat_str(stem, "ies")
    } else {
        concat_str(s, "s")
    }
}

/// The name picked by convention: the pluralising legacy name or the
/// modern one.
pub open spec fn spec_pluralize_internal(
    mode: BuildMode,
    legacy: Seq<char>,
    modern: Seq<char>,
) -> Seq<char> {
    match mode {
        BuildMode::Legacy => legacy,
        BuildMode::Modern => modern,
    }
}

impl BuilderContext {
    /// Pick the legacy or the modern field name, by the build mode.
    pub fn pluralize_internal(&self, legacy: String, modern: String) -> (r: String)
        ensures
            r@ == spec_pluralize_internal(self.mode, legacy@, modern@),
    {
        match self.mode {
            BuildMode::Legacy => legacy,
            BuildMode::Modern => modern,
        }
    }
}

/// The `createX` field of one model.
pub open spec fn spec_create_item_field(mode: BuildMode, m: InternalModelV) -> FieldV {
    FieldV {
        name: spec_pluralize_internal(mode, "create"@ + m.name, "createOne"@ + m.name),
        tag: QueryTag::CreateOne,
    }
}

/// The `deleteX` field of one model.
pub open spec fn spec_delete_item_field(mode: BuildMode, m: InternalModelV) -> FieldV {
    FieldV {
        name: spec_pluralize_internal(mode, "delete"@ + m.name, "deleteOne"@ + m.name),
        tag: QueryTag::DeleteOne,
    }
}

/// The `updateX` field of one model.
pub open spec fn spec_update_item_field(mode: BuildMode, m: InternalModelV) -> FieldV {
    FieldV {
        name: spec_pluralize_internal(mode, "update"@ + m.name, "updateOne"@ + m.name),
        tag: QueryTag::UpdateOne,
    }
}

/// The `upsertX` field of one model.
pub open spec fn spec_upsert_item_field(mode: BuildMode, m: InternalModelV) -> FieldV {
    FieldV {
        name: spec_pluralize_internal(mode, "upsert"@ + m.name, "upsertOne"@ + m.name),
        tag: QueryTag::UpsertOne,
    }
}

/// The `updateManyXs` field of one model.
pub open spec fn spec_update_many_field(mode: BuildMode, m: InternalModelV) -> FieldV {
    FieldV {
        name: spec_pluralize_internal(
            mode,
            "updateMany"@ + spec_pluralize(m.name),
            "updateMany"@ + m.name,
        ),
        tag: QueryTag::UpdateMany,
    }
}

/// The `deleteManyXs` field of one model.
pub open spec fn spec_delete_many_field(mode: BuildMode, m: InternalModelV) -> FieldV {
    FieldV {
        name: spec_pluralize_internal(
            mode,
            "deleteMany"@ + spec_pluralize(m.name),
            "deleteMany"@ + m.name,
        ),
        tag: QueryTag::DeleteMany,
    }
}

/// The mutation fields of one model: create, then — only where the model
/// has a unique criterion — delete, update and upsert, then the two bulk
/// fields.
pub open spec fn spec_model_mutation_fields(mode: BuildMode, m: InternalModelV) -> Seq<FieldV> {
    let singular: Seq<FieldV> = if m.has_unique_criterion {
        seq![
            spec_delete_item_field(mode, m),
            spec_update_item_field(mode, m),
            spec_upsert_item_field(mode, m),
        ]
    } else {
        Seq::<FieldV>::empty()
    };
    seq![spec_create_item_field(mode, m)] + singular + seq![
        spec_update_many_field(mode, m),
        spec_delete_many_field(mode, m),
    ]
}

/// Every mutation field of the schema: the fields of each non-embedded
/// model in declaration order, then the raw fields when enabled.
pub open spec fn spec_mutation_fields(c: BuilderContextV) -> Seq<FieldV> {
    let per_model = c.models.flat_map(
        |m: InternalModelV|
            if m.is_embedded {
                Seq::<FieldV>::empty()
            } else {
                spec_model_mutation_fields(c.mode, m)
            },
    );
    let raw: Seq<FieldV> = if c.enable_raw_queries {
        seq![
            FieldV { name: "executeRaw"@, tag: QueryTag::ExecuteRaw },
            FieldV { name: "queryRaw"@, tag: QueryTag::QueryRaw },
        ]
    } else {
        Seq::<FieldV>::empty()
    };
    per_model + raw
}

/// The `executeRaw` field.
fn create_execute_raw_field() -> (r: Field)
    ensures
        r.deep_view() == (FieldV { name: "executeRaw"@, tag: QueryTag::ExecuteRaw }),
{
    Field { name: "executeRaw".to_owned(), tag: QueryTag::ExecuteRaw }
}

/// The `queryRaw` field.
fn create_query_raw_field() -> (r: Field)
    ensures
        r.deep_view() == (FieldV { name: "queryRaw"@, tag: QueryTag::QueryRaw }),
{
    Field { name: "queryRaw".to_owned(), tag: QueryTag::QueryRaw }
}

/// The create mutation field of one model.
fn create_item_field(ctx: &BuilderContext, model: &InternalModel) -> (r: Field)
    ensures
        r.deep_view() == spec_create_item_field(ctx.mode, model.deep_view()),
{
    let field_name = ctx.pluralize_internal(
        concat_str("create", model.name.as_str()),
        concat_str("createOne", model.name.as_str()),
    );
    Field { name: field_name, tag: QueryTag::CreateOne }
}

/// The delete mutation field of one model, where it has a unique criterion.
fn delete_item_field(ctx: &BuilderContext, model: &InternalModel) -> (r: Option<Field>)
    ensures
        match r {
            Some(f) => model.has_unique_criterion && f.deep_view() == spec_delete_item_field(
                ctx.mode,
                model.deep_view(),
            ),
            None => !model.has_unique_criterion,
        },
{
    if model.has_unique_criterion {
        let field_name = ctx.pluralize_internal(
            concat_str("delete", model.name.as_str()),
            concat_str("deleteOne", model.name.as_str()),
        );
        Some(Field { name: field_name, tag: QueryTag::DeleteOne })
    } else {
        None
    }
}

/// The update mutation field of one model, where it has a unique criterion.
fn update_item_field(ctx: &BuilderContext, model: &InternalModel) -> (r: Option<Field>)
    ensures
        match r {
            Some(f) => model.has_unique_criterion && f.deep_view() == spec_update_item_field(
                ctx.mode,
                model.deep_view(),
            ),
            None => !model.has_unique_criterion,
        },
{
    if model.has_unique_criterion {
        let field_name = ctx.pluralize_internal(
            concat_str("update", model.name.as_str()),
            concat_str("updateOne", model.name.as_str()),
        );
        Some(Field { name: field_name, tag: QueryTag::UpdateOne })
    } else {
        None
    }
}

/// The upsert mutation field of one model, where it has a unique criterion.
fn upsert_item_field(ctx: &BuilderContext, model: &InternalModel) -> (r: Option<Field>)
    ensures
        match r {
            Some(f) => model.has_unique_criterion && f.deep_view() == spec_upsert_item_field(
                ctx.mode,
                model.deep_view(),
            ),
            None => !model.has_unique_criterion,
        },
{
    if model.has_unique_criterion {
        let field_name = ctx.pluralize_internal(
            concat_str("upsert", model.name.as_str()),
            concat_str("upsertOne", model.name.as_str()),
        );
        Some(Field { name: field_name, tag: QueryTag::UpsertOne })
    } else {
        None
    }
}

/// The update-many mutation field of one model.
fn update_many_field(ctx: &BuilderContext, model: &InternalModel) -> (r: Field)
    ensures
        r.deep_view() == spec_update_many_field(ctx.mode, model.deep_view()),
{
    let field_name = ctx.pluralize_internal(
        concat_str("updateMany", pluralize(model.name.as_str()).as_str()),
        concat_str("updateMany", model.name.as_str()),
    );
    Field { name: field_name, tag: QueryTag::UpdateMany }
}

/// The delete-many mutation field of one model.
fn delete_many_field(ctx: &BuilderContext, model: &InternalModel) -> (r: Field)
    ensures
        r.deep_view() == spec_delete_many_field(ctx.mode, model.deep_view()),
{
    let field_name = ctx.pluralize_internal(
        concat_str("deleteMany", pluralize(model.name.as_str()).as_str()),
        concat_str("deleteMany", model.name.as_str()),
    );
    Field { name: field_name, tag: QueryTag::DeleteMany }
}

/// Build the root `Mutation` type: the mutation fields of every
/// non-embedded model, in model order, with the raw query fields appended
/// when raw queries are enabled.
pub fn build(ctx: &BuilderContext) -> (r: ObjectType)
    ensures
        r.name@ == "Mutation"@,
        r.fields.deep_view() == spec_mutation_fields(ctx.deep_view()),
{
    let ghost cv = ctx.deep_view();
    let ghost perf = |m: InternalModelV|
        if m.is_embedded {
            Seq::<FieldV>::empty()
        } else {
            spec_model_mutation_fields(cv.mode, m)
        };
    let mut fields: Vec<Field> = Vec::new();
    let mut i: usize = 0;
    proof {
        assert(cv.models.take(0int).flat_map(perf) =~= Seq::<FieldV>::empty());
        assert(fields.deep_view() =~= cv.models.take(0int).flat_map(perf));
    }
    while i < ctx.internal_data_model.models.len()
        invariant
            i <= ctx.internal_data_model.models@.len(),
            cv == ctx.deep_view(),
            cv.models.len() == ctx.internal_data_model.models@.len(),
            perf == (|m: InternalModelV|
                if m.is_embedded {
                    Seq::<FieldV>::empty()
                } else {
                    spec_model_mutation_fields(cv.mode, m)
                }),
            fields.deep_view() == cv.models.take(i as int).flat_map(perf),
        decreases ctx.internal_data_model.models@.len() - i,
    {
        let ghost prev = fields.deep_view();
        let model = &ctx.internal_data_model.models[i];
        let ghost mv = cv.models[i as int];
        if !model.is_embedded {
            let ghost chunk_start = fields.deep_view();
            fields.push(create_item_field(ctx, model));
            proof {
                assert(fields.deep_view() =~= chunk_start.push(
                    spec_create_item_field(cv.mode, mv),
                ));
            }
            match delete_item_field(ctx, model) {
                Some(f) => {
                    let ghost pre = fields.deep_view();
                    fields.push(f);
                    proof {
                        assert(fields.deep_view() =~= pre.push(
                            spec_delete_item_field(cv.mode, mv),
                        ));
                    }
                },
                None => {},
            }
            match update_item_field(ctx, model) {
                Some(f) => {
                    let ghost pre = fields.deep_view();
                    fields.push(f);
                    proof {
                        assert(fields.deep_view() =~= pre.push(
                            spec_update_item_field(cv.mode, mv),
                        ));
                    }
                },
                None => {},
            }
            match upsert_item_field(ctx, model) {
                Some(f) => {
                    let ghost pre = fields.deep_view();
                    fields.push(f);
                    proof {
                        assert(fields.deep_view() =~= pre.push(
                            spec_upsert_item_field(cv.mode, mv),
                        ));
                    }
                },
                None => {},
            }
            let ghost pre_many = fields.deep_view();
            fields.push(update_many_field(ctx, model));
            fields.push(delete_many_field(ctx, model));
            proof {
                assert(fields.deep_view() =~= pre_many.push(
                    spec_update_many_field(cv.mode, mv),
                ).push(spec_delete_many_field(cv.mode, mv)));
                assert(fields.deep_view() =~= prev + spec_model_mutation_fields(cv.mode, mv));
            }
        }
        proof {
            cv.models.lemma_flat_map_take_append(perf, i as int);
            assert(fields.deep_view() =~= prev + perf(mv));
        }
        i = i + 1;
    }
    proof {
        assert(cv.models.take(cv.models.len() as int) =~= cv.models);
    }
    if ctx.enable_raw_queries {
        let ghost pre = fields.deep_view();
        fields.push(create_execute_raw_field());
        fields.push(create_query_raw_field());
        proof {
            assert(fields.deep_view() =~= pre.push(
                FieldV { name: "executeRaw"@, tag: QueryTag::ExecuteRaw },
            ).push(FieldV { name: "queryRaw"@, tag: QueryTag::QueryRaw }));
            assert(fields.deep_view() =~= spec_mutation_fields(cv));
        }
    } else {
        proof {
            assert(fields.deep_view() =~= spec_mutation_fields(cv));
        }
    }
    ObjectType { name: "Mutation".to_owned(), fields }
}

} // verus!
