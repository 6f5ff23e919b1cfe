//! The type-model builder: consumes a raw type declaration — a record with
//! fields or a union of records, each item carrying its own raw annotations —
//! and builds the normalized model the code generator walks. Variants missing
//! an explicit status annotation inherit the type-level one here, once, by a
//! shallow copy, before any code is generated.

use vstd::prelude::*;
use crate::attr::{Attrs, Origin, RawAnnotation, ResolutionError, ResolveStatus, spec_resolve};
use crate::generics::{names_set, Generics, TypeParams};
use crate::type_expr::{spec_mentions, TypeExpr};

verus! {

/// A reference to one field: by declared name, or by position for a field of
/// a tuple-like item.
#[derive(Debug, PartialEq, Eq)]
pub enum Member {
    Named(String),
    Unnamed(usize),
}

impl Member {
    /// A copy with the same value.
    pub fn duplicate(&self) -> (r: Member)
        ensures
            r == *self,
    {
        match self {
            Member::Named(s) => Member::Named(s.clone()),
            Member::Unnamed(i) => Member::Unnamed(*i),
        }
    }
}

/// One raw field of a declaration, as handed over by the front end.
#[derive(Debug, PartialEq, Eq)]
pub struct RawField {
    pub attrs: Vec<RawAnnotation>,
    pub ident: Option<String>,
    pub ty: TypeExpr,
}

/// One raw variant of a union-of-records declaration.
#[derive(Debug, PartialEq, Eq)]
pub struct RawVariant {
    pub attrs: Vec<RawAnnotation>,
    pub ident: String,
    pub fields: Vec<RawField>,
}

/// The shape of a raw declaration.
#[derive(Debug, PartialEq, Eq)]
pub enum RawData {
    Struct(Vec<RawField>),
    Enum(Vec<RawVariant>),
    Union,
}

/// A raw type declaration: its identifier, generic context, annotations and
/// shape, plus the origin used for diagnostics about the declaration itself.
#[derive(Debug, PartialEq, Eq)]
pub struct RawDeriveInput {
    pub origin: Origin,
    pub ident: String,
    pub generics: Generics,
    pub attrs: Vec<RawAnnotation>,
    pub data: RawData,
}

/// One resolved field: its annotation set, member reference, declared type,
/// and whether that type mentions a generic parameter of the enclosing type.
#[derive(Debug, PartialEq, Eq)]
pub struct Field {
    pub attrs: Attrs,
    pub member: Member,
    pub ty: TypeExpr,
    pub contains_generic: bool,
}

/// A resolved record declaration.
#[derive(Debug, PartialEq, Eq)]
pub struct Struct {
    pub attrs: Attrs,
    pub ident: String,
    pub generics: Generics,
    pub fields: Vec<Field>,
}

/// A resolved variant, after default-status inheritance.
#[derive(Debug, PartialEq, Eq)]
pub struct Variant {
    pub attrs: Attrs,
    pub ident: String,
    pub fields: Vec<Field>,
}

/// A resolved union-of-records declaration.
#[derive(Debug, PartialEq, Eq)]
pub struct Enum {
    pub attrs: Attrs,
    pub ident: String,
    pub generics: Generics,
    pub variants: Vec<Variant>,
}

/// A resolved declaration of either shape.
#[derive(Debug, PartialEq, Eq)]
pub enum Input {
    Struct(Struct),
    Enum(Enum),
}

/// The mathematical content of a resolved variant.
#[verifier::ext_equal]
pub ghost struct VariantModel {
    pub attrs: Attrs,
    pub ident: String,
    pub fields: Seq<Field>,
}

impl View for Variant {
    type V = VariantModel;

    open spec fn view(&self) -> VariantModel {
        VariantModel { attrs: self.attrs, ident: self.ident, fields: self.fields@ }
    }
}

/// The views of a sequence of variants.
pub open spec fn variants_model(s: Seq<Variant>) -> Seq<VariantModel> {
    s.map_values(|v: Variant| v@)
}

/// The mathematical content of a resolved record declaration.
#[verifier::ext_equal]
pub ghost struct StructModel {
    pub attrs: Attrs,
    pub ident: String,
    pub generics: Generics,
    pub fields: Seq<Field>,
}

impl View for Struct {
    type V = StructModel;

    open spec fn view(&self) -> StructModel {
        StructModel {
            attrs: self.attrs,
            ident: self.ident,
            generics: self.generics,
            fields: self.fields@,
        }
    }
}

/// The mathematical content of a resolved union-of-records declaration.
#[verifier::ext_equal]
pub ghost struct EnumModel {
    pub attrs: Attrs,
    pub ident: String,
    pub generics: Generics,
    pub variants: Seq<VariantModel>,
}

impl View for Enum {
    type V = EnumModel;

    open spec fn view(&self) -> EnumModel {
        EnumModel {
            attrs: self.attrs,
            ident: self.ident,
            generics: self.generics,
            variants: variants_model(self.variants@),
        }
    }
}

/// The mathematical content of a resolved declaration.
#[verifier::ext_equal]
pub ghost enum InputModel {
    Struct(StructModel),
    Enum(EnumModel),
}

impl View for Input {
    type V = InputModel;

    open spec fn view(&self) -> InputModel {
        match self {
            Input::Struct(s) => InputModel::Struct(s@),
            Input::Enum(e) => InputModel::Enum(e@),
        }
    }
}

/// What one raw field resolves to: its annotations are resolved, an unnamed
/// field gets the positional member reference `i`, and the generic flag
/// records whether the declared type mentions one of `params`.
pub open spec fn spec_field(i: int, f: RawField, params: Set<Seq<char>>) -> Result<
    Field,
    ResolutionError,
> {
    match spec_resolve(f.attrs@) {
        Err(e) => Err(e),
        Ok(attrs) => Ok(
            Field {
                attrs,
                member: match f.ident {
                    Some(n) => Member::Named(n),
                    None => Member::Unnamed(i as usize),
                },
                ty: f.ty,
                contains_generic: spec_mentions(f.ty, params),
            },
        ),
    }
}

/// Resolution of a whole field list, in order, appending to `acc`; the first
/// diagnostic aborts.
pub open spec fn spec_fields_from(
    acc: Seq<Field>,
    fields: Seq<RawField>,
    params: Set<Seq<char>>,
    i: int,
) -> Result<Seq<Field>, ResolutionError>
    decreases fields.len(),
{
    if fields.len() == 0 {
        Ok(acc)
    } else {
        match spec_field(i, fields[0], params) {
            Err(e) => Err(e),
            Ok(fld) => spec_fields_from(acc.push(fld), fields.drop_first(), params, i + 1),
        }
    }
}

/// Resolution of a declaration's field list.
pub open spec fn spec_fields(fields: Seq<RawField>, params: Set<Seq<char>>) -> Result<
    Seq<Field>,
    ResolutionError,
> {
    spec_fields_from(Seq::empty(), fields, params, 0)
}

/// What one raw variant resolves to, before default inheritance.
pub open spec fn spec_variant(v: RawVariant, params: Set<Seq<char>>) -> Result<
    VariantModel,
    ResolutionError,
> {
    match spec_resolve(v.attrs@) {
        Err(e) => Err(e),
        Ok(attrs) => match spec_fields(v.fields@, params) {
            Err(e) => Err(e),
            Ok(fields_ok) => Ok(VariantModel { attrs, ident: v.ident, fields: fields_ok }),
        },
    }
}

/// Default inheritance: a variant that resolved no status of its own receives
/// a one-time copy of the enclosing type's status spec; a variant with its
/// own keeps it. Nothing else of the type-level set is merged.
pub open spec fn spec_inherit(v: VariantModel, default_status: Option<ResolveStatus>) -> VariantModel {
    if v.attrs.status is None {
        VariantModel { attrs: Attrs { status: default_status, ..v.attrs }, ..v }
    } else {
        v
    }
}

/// Resolution of a whole variant list, in order, each variant receiving the
/// type-level default where it declared no status of its own.
pub open spec fn spec_variants_from(
    acc: Seq<VariantModel>,
    variants: Seq<RawVariant>,
    params: Set<Seq<char>>,
    default_status: Option<ResolveStatus>,
) -> Result<Seq<VariantModel>, ResolutionError>
    decreases variants.len(),
{
    if variants.len() == 0 {
        Ok(acc)
    } else {
        match spec_variant(variants[0], params) {
            Err(e) => Err(e),
            Ok(var) => spec_variants_from(
                acc.push(spec_inherit(var, default_status)),
                variants.drop_first(),
                params,
                default_status,
            ),
        }
    }
}

/// What a whole raw declaration resolves to: a record or a union of records
/// is built as described above; anything else is an unsupported kind.
pub open spec fn spec_input(node: RawDeriveInput) -> Result<InputModel, ResolutionError> {
    match node.data {
        RawData::Struct(fields) => match spec_resolve(node.attrs@) {
            Err(e) => Err(e),
            Ok(attrs) => match spec_fields(fields@, names_set(node.generics.params@)) {
                Err(e) => Err(e),
                Ok(fields_ok) => Ok(
                    InputModel::Struct(
                        StructModel {
                            attrs,
                            ident: node.ident,
                            generics: node.generics,
                            fields: fields_ok,
                        },
                    ),
                ),
            },
        },
        RawData::Enum(variants) => match spec_resolve(node.attrs@) {
            Err(e) => Err(e),
            Ok(attrs) => match spec_variants_from(
                Seq::empty(),
                variants@,
                names_set(node.generics.params@),
                attrs.status,
            ) {
                Err(e) => Err(e),
                Ok(variants_ok) => Ok(
                    InputModel::Enum(
                        EnumModel {
                            attrs,
                            ident: node.ident,
                            generics: node.generics,
                            variants: variants_ok,
                        },
                    ),
                ),
            },
        },
        RawData::Union => Err(ResolutionError::UnsupportedKind(node.origin)),
    }
}

impl Field {
    /// Resolves one raw field: its annotations, its member reference (the
    /// declared name, or the position `i` for an unnamed field), and whether
    /// its declared type mentions the enclosing generic scope.
    fn from_syn(i: usize, node: RawField, scope: &TypeParams) -> (r: Result<
        Field,
        ResolutionError,
    >)
        ensures
            match (spec_field(i as int, node, scope.spec_names()), r) {
                (Ok(f1), Ok(f2)) => f2 == f1,
                (Err(e1), Err(e2)) => e1 == e2,
                _ => false,
            },
    {
        let RawField { attrs: raw_attrs, ident, ty } = node;
        let attrs = match Attrs::get(&raw_attrs) {
            Ok(a) => a,
            Err(e) => {
                return Err(e);
            },
        };
        let contains_generic = scope.intersects(&ty);
        let member = match ident {
            Some(n) => Member::Named(n),
            None => Member::Unnamed(i),
        };
        Ok(Field { attrs, member, ty, contains_generic })
    }

    /// Resolves a field list against the enclosing generic scope, by index.
    fn multiple_from_syn(fields: Vec<RawField>, scope: &TypeParams) -> (r: Result<
        Vec<Field>,
        ResolutionError,
    >)
        ensures
            match (spec_fields(fields@, scope.spec_names()), r) {
                (Ok(s), Ok(v)) => v@ == s,
                (Err(e1), Err(e2)) => e1 == e2,
                _ => false,
            },
    {
        let ghost orig = fields@;
        let ghost params = scope.spec_names();
        let mut rest = fields;
        let mut out: Vec<Field> = Vec::new();
        let mut i: usize = 0;
        let total: usize = rest.len();
        proof {
            assert(orig.len() == total as int);
            assert(orig.skip(0) =~= orig);
        }
        while rest.len() > 0
            invariant
                orig == fields@,
                orig.len() <= usize::MAX,
                i + rest@.len() == orig.len(),
                rest@ == orig.skip(i as int),
                params == scope.spec_names(),
                spec_fields(orig, params) == spec_fields_from(out@, rest@, params, i as int),
            decreases rest@.len(),
        {
            proof {
                assert(orig.skip(i as int)[0] == orig[i as int]);
                assert(orig.skip(i as int).drop_first() =~= orig.skip(i as int + 1));
            }
            let f = rest.remove(0);
            proof {
                assert(rest@ =~= orig.skip(i as int).drop_first());
            }
            let built = match Field::from_syn(i, f, scope) {
                Ok(fld) => fld,
                Err(e) => {
                    return Err(e);
                },
            };
            out.push(built);
            i = i + 1;
        }
        proof {
            assert(rest@ =~= Seq::<RawField>::empty());
        }
        Ok(out)
    }
}

impl Struct {
    /// Resolves a record declaration: its own annotations, then each field in
    /// order.
    fn from_syn(
        origin: Origin,
        ident: String,
        generics: Generics,
        attrs: Vec<RawAnnotation>,
        fields: Vec<RawField>,
    ) -> (r: Result<Struct, ResolutionError>)
        ensures
            match (
                spec_input(
                    RawDeriveInput {
                        origin,
                        ident,
                        generics,
                        attrs: attrs,
                        data: RawData::Struct(fields),
                    },
                ),
                r,
            ) {
                (Ok(InputModel::Struct(s)), Ok(s2)) => s2@ == s,
                (Err(e1), Err(e2)) => e1 == e2,
                _ => false,
            },
    {
        let resolved = match Attrs::get(&attrs) {
            Ok(a) => a,
            Err(e) => {
                return Err(e);
            },
        };
        let scope = TypeParams::new(&generics);
        let built = match Field::multiple_from_syn(fields, &scope) {
            Ok(fs) => fs,
            Err(e) => {
                return Err(e);
            },
        };
        Ok(Struct { attrs: resolved, ident, generics, fields: built })
    }
}

impl Variant {
    /// Resolves one variant: its own annotations, then its fields.
    fn from_syn(node: RawVariant, scope: &TypeParams) -> (r: Result<Variant, ResolutionError>)
        ensures
            match (spec_variant(node, scope.spec_names()), r) {
                (Ok(v1), Ok(v2)) => v2@ == v1,
                (Err(e1), Err(e2)) => e1 == e2,
                _ => false,
            },
    {
        let RawVariant { attrs: raw_attrs, ident, fields } = node;
        let resolved = match Attrs::get(&raw_attrs) {
            Ok(a) => a,
            Err(e) => {
                return Err(e);
            },
        };
        let built = match Field::multiple_from_syn(fields, scope) {
            Ok(fs) => fs,
            Err(e) => {
                return Err(e);
            },
        };
        Ok(Variant { attrs: resolved, ident, fields: built })
    }
}

impl Enum {
    /// Resolves a union-of-records declaration: its own annotations, then
    /// each variant, substituting the type-level status into variants that
    /// declared none — a one-time copy, made here and never revisited.
    fn from_syn(
        origin: Origin,
        ident: String,
        generics: Generics,
        attrs: Vec<RawAnnotation>,
        variants: Vec<RawVariant>,
    ) -> (r: Result<Enum, ResolutionError>)
        ensures
            match (
                spec_input(
                    RawDeriveInput {
                        origin,
                        ident,
                        generics,
                        attrs: attrs,
                        data: RawData::Enum(variants),
                    },
                ),
                r,
            ) {
                (Ok(InputModel::Enum(e)), Ok(e2)) => e2@ == e,
                (Err(e1), Err(e2)) => e1 == e2,
                _ => false,
            },
    {
        let resolved = match Attrs::get(&attrs) {
            Ok(a) => a,
            Err(e) => {
                return Err(e);
            },
        };
        let scope = TypeParams::new(&generics);
        let ghost params = scope.spec_names();
        let ghost orig = variants@;
        let ghost default_status = resolved.status;
        let mut rest = variants;
        let mut out: Vec<Variant> = Vec::new();
        let ghost mut i: int = 0;
        proof {
            assert(orig.skip(0) =~= orig);
            assert(variants_model(out@) =~= Seq::<VariantModel>::empty());
        }
        while rest.len() > 0
            invariant
                orig == variants@,
                spec_resolve(attrs@) == Ok::<Attrs, ResolutionError>(resolved),
                params == names_set(generics.params@),
                0 <= i,
                i + rest@.len() == orig.len(),
                rest@ == orig.skip(i),
                params == scope.spec_names(),
                default_status == resolved.status,
                spec_variants_from(Seq::empty(), orig, params, default_status)
                    == spec_variants_from(variants_model(out@), rest@, params, default_status),
            decreases rest@.len(),
        {
            proof {
                assert(orig.skip(i)[0] == orig[i]);
                assert(orig.skip(i).drop_first() =~= orig.skip(i + 1));
            }
            let node = rest.remove(0);
            proof {
                assert(rest@ =~= orig.skip(i).drop_first());
            }
            let mut variant = match Variant::from_syn(node, &scope) {
                Ok(v) => v,
                Err(e) => {
                    return Err(e);
                },
            };
            let ghost pre_model = variant@;
            if variant.attrs.status.is_none() {
                variant.attrs.status = match &resolved.status {
                    Some(st) => Some(st.duplicate()),
                    None => None,
                };
            }
            proof {
                assert(variant@ =~~= spec_inherit(pre_model, default_status));
            }
            let ghost pre_out = out@;
            out.push(variant);
            proof {
                assert(variants_model(out@) =~= variants_model(pre_out).push(
                    spec_inherit(pre_model, default_status),
                ));
                i = i + 1;
            }
        }
        proof {
            assert(rest@ =~= Seq::<RawVariant>::empty());
        }
        Ok(Enum { attrs: resolved, ident, generics, variants: out })
    }
}

impl Input {
    /// Resolves a raw declaration into the model the generator walks; a
    /// declaration that is neither record nor union-of-records is rejected.
    pub fn from_syn(node: RawDeriveInput) -> (r: Result<Input, ResolutionError>)
        ensures
            match (spec_input(node), r) {
                (Ok(i1), Ok(i2)) => i2@ == i1,
                (Err(e1), Err(e2)) => e1 == e2,
                _ => false,
            },
    {
        let RawDeriveInput { origin, ident, generics, attrs, data } = node;
        match data {
            RawData::Struct(fields) => match Struct::from_syn(origin, ident, generics, attrs, fields) {
                Ok(s) => Ok(Input::Struct(s)),
                Err(e) => Err(e),
            },
            RawData::Enum(variants) => match Enum::from_syn(origin, ident, generics, attrs, variants) {
                Ok(e) => Ok(Input::Enum(e)),
                Err(e) => Err(e),
            },
            RawData::Union => Err(ResolutionError::UnsupportedKind(origin)),
        }
    }
}

} // verus!
