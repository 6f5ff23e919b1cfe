//! The laws this library states about the pipeline as a whole: what the
//! generated `classify()` returns for each kind of status spec, how variants
//! inherit the type-level default, and when a generic obligation is inferred.

use vstd::prelude::*;
use crate::attr::{ResolveStatus, StatusCode};
use crate::eval::{spec_classify, spec_eval_expr, spec_find_arm, spec_lookup, ErrValue};
use crate::expand::{
    enum_gen_ok,
    spec_arm,
    spec_arms,
    spec_arms_from,
    spec_classify_expr,
    spec_respond_bound,
    struct_gen_ok,
    Arm,
    BodyFormat,
    GeneratedImpl,
    StatusBody,
};
use crate::generics::{preds_model, BoundReq};
use crate::input::{spec_inherit, EnumModel, StructModel, VariantModel};
use crate::type_expr::spec_mentions;
use crate::DEFAULT_STATUS;

verus! {

/// Law: a record with a fixed numeric status spec `n` classifies every value
/// of the type to exactly `n`.
pub proof fn lemma_classify_fixed_numeric(
    s: StructModel,
    fmt: BodyFormat,
    g: GeneratedImpl,
    v: ErrValue,
    table: Seq<(Seq<char>, u16)>,
    n: u16,
)
    requires
        struct_gen_ok(s, fmt, g),
        s.attrs.status matches Some(ResolveStatus::Fixed(st)) && st.code == StatusCode::Value(n),
    ensures
        spec_classify(g, v, table) == Some(n),
{
}

/// Law: a record with a fixed symbolic status spec classifies every value to
/// the code the consumer's vocabulary binds to that constant.
pub proof fn lemma_classify_fixed_symbolic(
    s: StructModel,
    fmt: BodyFormat,
    g: GeneratedImpl,
    v: ErrValue,
    table: Seq<(Seq<char>, u16)>,
    name: Seq<char>,
    code: u16,
)
    requires
        struct_gen_ok(s, fmt, g),
        s.attrs.status matches Some(ResolveStatus::Fixed(st)) && st.code matches StatusCode::Name(
            nm,
        ) && nm@ == name,
        spec_lookup(table, name) == Some(code),
    ensures
        spec_classify(g, v, table) == Some(code),
{
}

/// Law: a transparent record forwards classification to its contained value —
/// `classify()` on the wrapper equals the contained value's own
/// classification. The rendered body is built from the wrapper's own display
/// text, as [`crate::eval::render`]'s contract states for every value.
pub proof fn lemma_classify_transparent(
    s: StructModel,
    fmt: BodyFormat,
    g: GeneratedImpl,
    v: ErrValue,
    table: Seq<(Seq<char>, u16)>,
)
    requires
        struct_gen_ok(s, fmt, g),
        s.attrs.status matches Some(ResolveStatus::Transparent(_)),
    ensures
        spec_classify(g, v, table) == Some(v.inner_status),
{
}

/// Law: inheritance is a shallow, one-time substitution — a variant that
/// resolved no status of its own receives exactly the type-level default,
/// one with its own keeps it, and nothing else of the variant changes.
pub proof fn lemma_variant_inheritance(v: VariantModel, default_status: Option<ResolveStatus>)
    ensures
        spec_inherit(v, default_status).attrs.status == (if v.attrs.status is None {
            default_status
        } else {
            v.attrs.status
        }),
        spec_inherit(v, default_status).attrs.error_code == v.attrs.error_code,
        spec_inherit(v, default_status).ident == v.ident,
        spec_inherit(v, default_status).fields == v.fields,
{
}

/// Law: generation is deterministic — two runs of the generator on the same
/// resolved record agree on everything observable: the classification body,
/// the format, the error-code texts and the `where` clause.
pub proof fn lemma_generation_deterministic_struct(
    s: StructModel,
    fmt: BodyFormat,
    g1: GeneratedImpl,
    g2: GeneratedImpl,
)
    requires
        struct_gen_ok(s, fmt, g1),
        struct_gen_ok(s, fmt, g2),
    ensures
        g1.status_body == g2.status_body,
        g1.body == g2.body,
        g1.error_codes@ == g2.error_codes@,
        preds_model(g1.where_clause@) == preds_model(g2.where_clause@),
{
}

/// Law: generation is deterministic for a union of records as well.
pub proof fn lemma_generation_deterministic_enum(
    e: EnumModel,
    fmt: BodyFormat,
    g1: GeneratedImpl,
    g2: GeneratedImpl,
)
    requires
        enum_gen_ok(e, fmt, g1),
        enum_gen_ok(e, fmt, g2),
    ensures
        g1.body == g2.body,
        g1.error_codes@ == g2.error_codes@,
        preds_model(g1.where_clause@) == preds_model(g2.where_clause@),
        g1.status_body is None <==> g2.status_body is None,
        match (g1.status_body, g2.status_body) {
            (Some(StatusBody::Enum(a1)), Some(StatusBody::Enum(a2))) => a1@ == a2@,
            _ => true,
        },
{
}

/// Accumulation lemma: the arms built on top of `acc` are `acc` followed by
/// the arms built from scratch.
proof fn lemma_arms_acc(acc: Seq<Arm>, vs: Seq<VariantModel>, i: int)
    ensures
        spec_arms_from(acc, vs, i) == acc + spec_arms_from(Seq::empty(), vs, i),
    decreases vs.len(),
{
    if vs.len() == 0 {
        assert(spec_arms_from(acc, vs, i) =~= acc + spec_arms_from(Seq::empty(), vs, i));
    } else {
        match spec_arm(vs[0], i) {
            Some(a) => {
                lemma_arms_acc(acc.push(a), vs.drop_first(), i + 1);
                lemma_arms_acc(Seq::<Arm>::empty().push(a), vs.drop_first(), i + 1);
                assert(acc.push(a) + spec_arms_from(Seq::empty(), vs.drop_first(), i + 1) =~= acc
                    + (Seq::<Arm>::empty().push(a) + spec_arms_from(
                    Seq::empty(),
                    vs.drop_first(),
                    i + 1,
                )));
            },
            None => {
                lemma_arms_acc(acc, vs.drop_first(), i + 1);
            },
        }
    }
}

/// Every arm built from `vs` starting at index `i` covers a variant index in
/// `[i, i + vs.len())`.
proof fn lemma_arms_index_range(vs: Seq<VariantModel>, i: int)
    requires
        0 <= i,
        i + vs.len() <= usize::MAX,
    ensures
        forall|j: int|
            0 <= j < spec_arms_from(Seq::empty(), vs, i).len() ==> i <= (#[trigger] spec_arms_from(
                Seq::empty(),
                vs,
                i,
            )[j]).variant_index < i + vs.len(),
    decreases vs.len(),
{
    if vs.len() > 0 {
        lemma_arms_index_range(vs.drop_first(), i + 1);
        match spec_arm(vs[0], i) {
            Some(a) => {
                lemma_arms_acc(Seq::<Arm>::empty().push(a), vs.drop_first(), i + 1);
                assert(spec_arms_from(Seq::empty(), vs, i) =~= seq![a] + spec_arms_from(
                    Seq::empty(),
                    vs.drop_first(),
                    i + 1,
                ));
            },
            None => {
            },
        }
    }
}

/// A match with no arm for an index finds none.
proof fn lemma_find_none(arms: Seq<Arm>, k: int)
    requires
        forall|j: int| 0 <= j < arms.len() ==> (#[trigger] arms[j]).variant_index != k,
    ensures
        spec_find_arm(arms, k) is None,
    decreases arms.len(),
{
    if arms.len() > 0 {
        lemma_find_none(arms.drop_first(), k);
    }
}

/// The arm found for variant index `k` in the generated match is exactly the
/// arm generated for variant `k - i`: present when that variant has a
/// resolved status, absent when it has none.
proof fn lemma_find_built_arm(vs: Seq<VariantModel>, i: int, k: int)
    requires
        0 <= i <= k,
        k < i + vs.len(),
        i + vs.len() <= usize::MAX,
    ensures
        spec_find_arm(spec_arms_from(Seq::empty(), vs, i), k) == spec_arm(vs[k - i], k),
    decreases vs.len(),
{
    let rest_built = spec_arms_from(Seq::empty(), vs.drop_first(), i + 1);
    match spec_arm(vs[0], i) {
        Some(a) => {
            lemma_arms_acc(Seq::<Arm>::empty().push(a), vs.drop_first(), i + 1);
            assert(spec_arms_from(Seq::empty(), vs, i) =~= seq![a] + rest_built);
            if k == i {
                assert(spec_find_arm(seq![a] + rest_built, k) == Some(a));
            } else {
                assert((seq![a] + rest_built).drop_first() =~= rest_built);
                lemma_find_built_arm(vs.drop_first(), i + 1, k);
            }
        },
        None => {
            if k == i {
                lemma_arms_index_range(vs.drop_first(), i + 1);
                lemma_find_none(spec_arms_from(Seq::empty(), vs, i), k);
            } else {
                lemma_find_built_arm(vs.drop_first(), i + 1, k);
            }
        },
    }
}

/// Law: for a union of records, a value of variant `k` classifies by that
/// variant's resolved status — own or inherited: a fixed code gives that code
/// (numeric, or as bound by the consumer's vocabulary), transparency gives
/// the contained value's classification, and a variant with no resolved
/// status anywhere falls back to the consumer default. In particular, with a
/// type-level default and one overridden variant, the overridden variant
/// classifies by its override and every other variant by the default.
pub proof fn lemma_classify_enum_variant(
    e: EnumModel,
    fmt: BodyFormat,
    g: GeneratedImpl,
    v: ErrValue,
    table: Seq<(Seq<char>, u16)>,
)
    requires
        enum_gen_ok(e, fmt, g),
        (v.variant as int) < e.variants.len(),
        e.variants.len() <= usize::MAX,
    ensures
        spec_classify(g, v, table) == (match e.variants[v.variant as int].attrs.status {
            Some(st) => spec_eval_expr(
                spec_classify_expr(st, e.variants[v.variant as int].fields),
                v,
                table,
            ),
            None => Some(DEFAULT_STATUS),
        }),
{
    let k = v.variant as int;
    let arms = spec_arms(e.variants);
    lemma_find_built_arm(e.variants, 0, k);
    match e.variants[k].attrs.status {
        Some(st) => {
            assert(spec_arm(e.variants[k], k) matches Some(a) && a.body == spec_classify_expr(
                st,
                e.variants[k].fields,
            ));
            if arms.len() == 0 {
                assert(spec_find_arm(arms, k) is None);
                assert(false);
            }
        },
        None => {},
    }
}

/// Law: a transparent record whose sole field's declared type is a generic
/// parameter of the type adds exactly one inferred obligation — the output
/// contract's capability, on that parameter — and nothing for any other
/// parameter; the declaration's own predicates stand unchanged before it.
/// The builder establishes `contains_generic` as the mention scan of the
/// field's type against the declared parameters, which this law assumes.
pub proof fn lemma_generic_obligation(
    s: StructModel,
    fmt: BodyFormat,
    g: GeneratedImpl,
    params: Set<Seq<char>>,
    name: Seq<char>,
)
    requires
        struct_gen_ok(s, fmt, g),
        s.attrs.status matches Some(ResolveStatus::Transparent(_)),
        s.fields.len() >= 1,
        s.fields[0].ty.bare_ident() == Some(name),
        params.contains(name),
        s.fields[0].contains_generic == spec_mentions(s.fields[0].ty, params),
    ensures
        preds_model(g.where_clause@) == preds_model(s.generics.where_clause@) + seq![
            BoundReq { key: name, bounds: seq![spec_respond_bound()] },
        ],
{
    let ty = s.fields[0].ty;
    assert(spec_mentions(ty, params));
    let segs = ty->Path_0@;
    assert(segs.len() == 1 && segs[0].args@.len() == 0);
    assert(crate::type_expr::spec_type_key(ty) == crate::type_expr::spec_path_key(segs));
    assert(crate::type_expr::spec_path_key(segs) == crate::type_expr::spec_segment_key(segs[0]));
    assert(crate::type_expr::spec_segment_key(segs[0]) == name);
}

} // verus!
