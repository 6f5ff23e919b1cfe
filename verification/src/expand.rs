//! The code generator: walks a resolved declaration and produces a structured
//! description of the implementation to emit — the classification body, the
//! body-rendering format, the per-item error-code texts, and the augmented
//! `where` clause with the inferred generic obligations.

use vstd::prelude::*;
use vstd::string::StringExecFns;
use crate::attr::{spec_error_code_of, ResolveStatus, StatusCode};
use crate::generics::{preds_model, spec_insert, BoundReq, InferredBounds, Predicate};
use crate::input::{
    Enum,
    EnumModel,
    Field,
    Input,
    InputModel,
    Member,
    RawDeriveInput,
    Struct,
    StructModel,
    VariantModel,
};
use crate::text::{push_decimal, spec_decimal};
use crate::type_expr::{render_type, spec_type_key};

verus! {

/// The capability required of a delegation target: the same classify/render
/// contract this engine generates.
pub open spec fn spec_respond_bound() -> Seq<char> {
    "Respond"@
}

/// The capability's textual form, as written into inferred bounds.
pub fn respond_bound() -> (r: String)
    ensures
        r@ == spec_respond_bound(),
{
    String::from_str("Respond")
}

/// The two body-rendering formats a generated implementation can use.
#[derive(Clone, Copy, Debug, PartialEq, Eq, Structural)]
pub enum BodyFormat {
    Json,
    Text,
}

/// The classification emitted for one item: delegate to the sole field's own
/// classification, or return a fixed code.
#[derive(Debug, PartialEq, Eq)]
pub enum ClassifyExpr {
    Delegate(Member),
    Const(StatusCode),
}

/// One match arm of a generated enum classification: the variant it covers,
/// by index and by name, and the classification emitted within the arm.
#[derive(Debug, PartialEq, Eq)]
pub struct Arm {
    pub variant_index: usize,
    pub variant_ident: String,
    pub body: ClassifyExpr,
}

/// The generated classification body: a single expression for a record, one
/// match arm per resolved variant for a union of records.
#[derive(Debug, PartialEq, Eq)]
pub enum StatusBody {
    Struct(ClassifyExpr),
    Enum(Vec<Arm>),
}

/// The generated implementation, structured: `status_body` is `None` when no
/// classification override is emitted at all (the consumer's default
/// applies), `error_codes` holds one entry per variant (one entry for a
/// record), and `where_clause` is the declaration's own clause followed by
/// the inferred obligations in first-use order.
#[derive(Debug, PartialEq, Eq)]
pub struct GeneratedImpl {
    pub status_body: Option<StatusBody>,
    pub body: BodyFormat,
    pub error_codes: Vec<Option<String>>,
    pub where_clause: Vec<Predicate>,
}

/// A body renderer back end: both reuse the same classification logic and
/// only pick the rendering format.
pub trait BodyExpander {
    /// The format this back end renders.
    spec fn spec_format() -> BodyFormat;

    fn expand_struct(input: &Struct) -> (r: BodyFormat)
        ensures
            r == Self::spec_format(),
    ;

    fn expand_enum(input: &Enum) -> (r: BodyFormat)
        ensures
            r == Self::spec_format(),
    ;
}

/// The classification emitted for an item with the given resolved status:
/// transparent delegates to the sole field, a fixed spec returns its code.
pub open spec fn spec_classify_expr(status: ResolveStatus, fields: Seq<Field>) -> ClassifyExpr {
    match status {
        ResolveStatus::Transparent(_) => ClassifyExpr::Delegate(fields[0].member),
        ResolveStatus::Fixed(st) => ClassifyExpr::Const(st.code),
    }
}

/// The arm generated for one variant: none when the variant has no resolved
/// status, own or inherited.
pub open spec fn spec_arm(v: VariantModel, i: int) -> Option<Arm> {
    match v.attrs.status {
        Some(st) => Some(
            Arm {
                variant_index: i as usize,
                variant_ident: v.ident,
                body: spec_classify_expr(st, v.fields),
            },
        ),
        None => None,
    }
}

/// The arms generated for a variant list, in variant order, appended to
/// `acc`; variants without a resolved status are omitted from the match.
pub open spec fn spec_arms_from(acc: Seq<Arm>, vs: Seq<VariantModel>, i: int) -> Seq<Arm>
    decreases vs.len(),
{
    if vs.len() == 0 {
        acc
    } else {
        match spec_arm(vs[0], i) {
            Some(a) => spec_arms_from(acc.push(a), vs.drop_first(), i + 1),
            None => spec_arms_from(acc, vs.drop_first(), i + 1),
        }
    }
}

/// The arms generated for a whole variant list.
pub open spec fn spec_arms(vs: Seq<VariantModel>) -> Seq<Arm> {
    spec_arms_from(Seq::empty(), vs, 0)
}

/// The per-variant error-code texts, in variant order.
pub open spec fn spec_error_codes_from(acc: Seq<Option<String>>, vs: Seq<VariantModel>) -> Seq<
    Option<String>,
>
    decreases vs.len(),
{
    if vs.len() == 0 {
        acc
    } else {
        spec_error_codes_from(acc.push(spec_error_code_of(vs[0].attrs)), vs.drop_first())
    }
}

/// The obligations a variant list registers: one per transparent variant
/// whose sole field's type depends on a generic parameter.
pub open spec fn spec_enum_bounds_from(acc: Seq<BoundReq>, vs: Seq<VariantModel>) -> Seq<BoundReq>
    decreases vs.len(),
{
    if vs.len() == 0 {
        acc
    } else {
        let acc2 = if vs[0].attrs.status matches Some(ResolveStatus::Transparent(_))
            && vs[0].fields[0].contains_generic {
            spec_insert(acc, spec_type_key(vs[0].fields[0].ty), spec_respond_bound())
        } else {
            acc
        };
        spec_enum_bounds_from(acc2, vs.drop_first())
    }
}

/// Transparent delegation needs a field to delegate to: a record using it
/// must have at least one field.
pub open spec fn struct_transparent_ok(s: StructModel) -> bool {
    s.attrs.status matches Some(ResolveStatus::Transparent(_)) ==> s.fields.len() >= 1
}

/// Transparent delegation needs a field: every variant using it must have at
/// least one.
pub open spec fn enum_transparent_ok(e: EnumModel) -> bool {
    forall|k: int|
        0 <= k < e.variants.len() ==> ((#[trigger] e.variants[k]).attrs.status matches Some(
            ResolveStatus::Transparent(_),
        ) ==> e.variants[k].fields.len() >= 1)
}

/// The `where` clause generated for a record: its own predicates, plus one
/// obligation on the sole field's type when a transparent record delegates to
/// a generic-dependent field.
pub open spec fn spec_struct_where(s: StructModel) -> Seq<BoundReq> {
    if s.attrs.status matches Some(ResolveStatus::Transparent(_))
        && s.fields[0].contains_generic {
        preds_model(s.generics.where_clause@) + seq![
            BoundReq { key: spec_type_key(s.fields[0].ty), bounds: seq![spec_respond_bound()] },
        ]
    } else {
        preds_model(s.generics.where_clause@)
    }
}

/// What the generator produces for a record.
pub open spec fn struct_gen_ok(s: StructModel, fmt: BodyFormat, g: GeneratedImpl) -> bool {
    &&& g.body == fmt
    &&& g.status_body == match s.attrs.status {
        Some(st) => Some(StatusBody::Struct(spec_classify_expr(st, s.fields))),
        None => None::<StatusBody>,
    }
    &&& g.error_codes@ == seq![spec_error_code_of(s.attrs)]
    &&& preds_model(g.where_clause@) == spec_struct_where(s)
}

/// What the generator produces for a union of records.
pub open spec fn enum_gen_ok(e: EnumModel, fmt: BodyFormat, g: GeneratedImpl) -> bool {
    &&& g.body == fmt
    &&& ({
        let arms = spec_arms(e.variants);
        if arms.len() == 0 {
            g.status_body is None
        } else {
            g.status_body matches Some(StatusBody::Enum(av)) && av@ == arms
        }
    })
    &&& g.error_codes@ == spec_error_codes_from(Seq::empty(), e.variants)
    &&& preds_model(g.where_clause@) == preds_model(e.generics.where_clause@)
        + spec_enum_bounds_from(Seq::empty(), e.variants)
}

/// Whether the generator's input respects the transparent-field invariant.
pub open spec fn expand_ok(node: RawDeriveInput) -> bool {
    match crate::input::spec_input(node) {
        Ok(InputModel::Struct(s)) => struct_transparent_ok(s),
        Ok(InputModel::Enum(e)) => enum_transparent_ok(e),
        Err(_) => true,
    }
}

/// Resolves a raw declaration and generates the implementation description
/// for the back end `E`, or the first diagnostic.
pub fn expand<E: BodyExpander>(node: RawDeriveInput) -> (r: Result<
    GeneratedImpl,
    crate::attr::ResolutionError,
>)
    requires
        expand_ok(node),
    ensures
        match (crate::input::spec_input(node), r) {
            (Ok(InputModel::Struct(s)), Ok(g)) => struct_gen_ok(s, E::spec_format(), g),
            (Ok(InputModel::Enum(e)), Ok(g)) => enum_gen_ok(e, E::spec_format(), g),
            (Err(e1), Err(e2)) => e1 == e2,
            _ => false,
        },
{
    match Input::from_syn(node) {
        Ok(Input::Struct(s)) => Ok(impl_struct::<E>(&s)),
        Ok(Input::Enum(e)) => Ok(impl_enum::<E>(&e)),
        Err(e) => Err(e),
    }
}

/// Generates the implementation description for a record.
fn impl_struct<E: BodyExpander>(input: &Struct) -> (g: GeneratedImpl)
    requires
        struct_transparent_ok(input@),
    ensures
        struct_gen_ok(input@, E::spec_format(), g),
{
    let mut inferred = InferredBounds::new();
    let status_body = match &input.attrs.status {
        Some(ResolveStatus::Transparent(_)) => {
            let only = &input.fields[0];
            if only.contains_generic {
                inferred.insert(render_type(&only.ty), respond_bound());
            }
            Some(StatusBody::Struct(ClassifyExpr::Delegate(only.member.duplicate())))
        },
        Some(ResolveStatus::Fixed(st)) => Some(
            StatusBody::Struct(ClassifyExpr::Const(st.code.duplicate())),
        ),
        None => None,
    };
    let where_clause = inferred.augment_where_clause(&input.generics);
    let mut error_codes: Vec<Option<String>> = Vec::new();
    error_codes.push(
        match &input.attrs.error_code {
            Some(ec) => Some(ec.error_code.clone()),
            None => None,
        },
    );
    let body = E::expand_struct(input);
    let g = GeneratedImpl { status_body, body, error_codes, where_clause };
    proof {
        assert(g.error_codes@ =~= seq![spec_error_code_of(input@.attrs)]);
        assert(preds_model(g.where_clause@) =~~= spec_struct_where(input@));
    }
    g
}

/// Generates the implementation description for a union of records: one arm
/// per variant with a resolved status; none at all when no variant has one.
fn impl_enum<E: BodyExpander>(input: &Enum) -> (g: GeneratedImpl)
    requires
        enum_transparent_ok(input@),
    ensures
        enum_gen_ok(input@, E::spec_format(), g),
{
    let ghost vs = input@.variants;
    let mut inferred = InferredBounds::new();
    let mut arms: Vec<Arm> = Vec::new();
    let mut error_codes: Vec<Option<String>> = Vec::new();
    let mut i: usize = 0;
    proof {
        assert(vs.skip(0) =~= vs);
    }
    while i < input.variants.len()
        invariant
            vs == input@.variants,
            enum_transparent_ok(input@),
            i <= vs.len(),
            vs.len() == input.variants@.len(),
            spec_arms(vs) == spec_arms_from(arms@, vs.skip(i as int), i as int),
            spec_error_codes_from(Seq::empty(), vs) == spec_error_codes_from(
                error_codes@,
                vs.skip(i as int),
            ),
            spec_enum_bounds_from(Seq::empty(), vs) == spec_enum_bounds_from(
                inferred@,
                vs.skip(i as int),
            ),
        decreases vs.len() - i,
    {
        let v = &input.variants[i];
        proof {
            assert(vs[i as int] == v@);
            assert(vs.skip(i as int)[0] == vs[i as int]);
            assert(vs.skip(i as int).drop_first() =~= vs.skip(i as int + 1));
        }
        match &v.attrs.status {
            Some(ResolveStatus::Transparent(_)) => {
                let field = &v.fields[0];
                if field.contains_generic {
                    inferred.insert(render_type(&field.ty), respond_bound());
                }
                arms.push(
                    Arm {
                        variant_index: i,
                        variant_ident: v.ident.clone(),
                        body: ClassifyExpr::Delegate(field.member.duplicate()),
                    },
                );
            },
            Some(ResolveStatus::Fixed(st)) => {
                arms.push(
                    Arm {
                        variant_index: i,
                        variant_ident: v.ident.clone(),
                        body: ClassifyExpr::Const(st.code.duplicate()),
                    },
                );
            },
            None => {},
        }
        error_codes.push(
            match &v.attrs.error_code {
                Some(ec) => Some(ec.error_code.clone()),
                None => None,
            },
        );
        i = i + 1;
    }
    proof {
        assert(vs.skip(vs.len() as int) =~= Seq::<VariantModel>::empty());
    }
    let status_body = if arms.len() == 0 {
        None
    } else {
        Some(StatusBody::Enum(arms))
    };
    let where_clause = inferred.augment_where_clause(&input.generics);
    let body = E::expand_enum(input);
    GeneratedImpl { status_body, body, error_codes, where_clause }
}

/// The binding name used for one member in a generated match pattern: the
/// declared name, or an underscore-prefixed position for an unnamed field.
pub open spec fn spec_member_binding(m: Member) -> Seq<char> {
    match m {
        Member::Named(n) => n@,
        Member::Unnamed(i) => "_"@ + spec_decimal(i as nat),
    }
}

/// The binding names of a field list, joined by `, `.
pub open spec fn spec_bindings(fields: Seq<Field>) -> Seq<char>
    decreases fields.len(),
{
    if fields.len() == 0 {
        Seq::empty()
    } else if fields.len() == 1 {
        spec_member_binding(fields[0].member)
    } else {
        spec_bindings(fields.drop_last()) + ", "@ + spec_member_binding(fields.last().member)
    }
}

/// The match pattern generated for one variant's fields: braces with the
/// declared names, parentheses with positional bindings, or empty braces for
/// a variant without fields.
pub open spec fn spec_fields_pat(fields: Seq<Field>) -> Seq<char> {
    if fields.len() == 0 {
        "{}"@
    } else {
        match fields[0].member {
            Member::Named(_) => "{ "@ + spec_bindings(fields) + " }"@,
            Member::Unnamed(_) => "("@ + spec_bindings(fields) + ")"@,
        }
    }
}

/// Appends the binding name of one member.
fn push_member_binding(out: &mut String, m: &Member)
    ensures
        final(out)@ == old(out)@ + spec_member_binding(*m),
{
    match m {
        Member::Named(n) => {
            out.append(n.as_str());
        },
        Member::Unnamed(i) => {
            out.append("_");
            push_decimal(out, *i);
        },
    }
}

/// Renders the match pattern for a variant's field list.
pub fn fields_pat(fields: &Vec<Field>) -> (r: String)
    ensures
        r@ == spec_fields_pat(fields@),
{
    if fields.len() == 0 {
        return String::from_str("{}");
    }
    let mut inner = String::new();
    let mut i: usize = 0;
    while i < fields.len()
        invariant
            i <= fields@.len(),
            inner@ == spec_bindings(fields@.take(i as int)),
        decreases fields@.len() - i,
    {
        if i > 0 {
            inner.append(", ");
        }
        push_member_binding(&mut inner, &fields[i].member);
        proof {
            let taken = fields@.take(i as int + 1);
            assert(taken.drop_last() =~= fields@.take(i as int));
            assert(taken.last() == fields@[i as int]);
            if i == 0 {
                assert(inner@ == spec_bindings(taken));
            }
        }
        i = i + 1;
    }
    proof {
        assert(fields@.take(fields@.len() as int) =~= fields@);
    }
    let mut out = String::new();
    match &fields[0].member {
        Member::Named(_) => {
            out.append("{ ");
            out.append(inner.as_str());
            out.append(" }");
        },
        Member::Unnamed(_) => {
            out.append("(");
            out.append(inner.as_str());
            out.append(")");
        },
    }
    out
}

} // verus!
