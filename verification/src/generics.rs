//! Generic-parameter analysis: which declared parameters a field's type
//! mentions, and the accumulation of inferred bounds with insertion-order
//! stability.

use vstd::prelude::*;
use crate::text::{clone_strings, contains_string, strings_model};
use crate::type_expr::{
    spec_any_arg_mentions,
    spec_any_segment_mentions,
    spec_mentions,
    PathSegment,
    TypeExpr,
};

verus! {

/// The set of texts of a list of names.
pub open spec fn names_set(names: Seq<String>) -> Set<Seq<char>> {
    strings_model(names).to_set()
}

/// One `where`-clause predicate of the generated implementation: a type key
/// and the bounds required of it, joined in insertion order.
#[derive(Debug, PartialEq, Eq)]
pub struct Predicate {
    pub ty: String,
    pub bounds: Vec<String>,
}

/// The mathematical content of one predicate: the key's text and the bound
/// texts, in order.
#[verifier::ext_equal]
pub ghost struct BoundReq {
    pub key: Seq<char>,
    pub bounds: Seq<Seq<char>>,
}

impl View for Predicate {
    type V = BoundReq;

    open spec fn view(&self) -> BoundReq {
        BoundReq { key: self.ty@, bounds: strings_model(self.bounds@) }
    }
}

/// The views of a sequence of predicates.
pub open spec fn preds_model(s: Seq<Predicate>) -> Seq<BoundReq> {
    s.map_values(|p: Predicate| p@)
}

/// The generic context of a declaration: its declared type-parameter names
/// and its existing `where`-clause predicates.
#[derive(Debug, PartialEq, Eq)]
pub struct Generics {
    pub params: Vec<String>,
    pub where_clause: Vec<Predicate>,
}

/// The declared type parameters of an enum or a struct.
pub struct TypeParams {
    names: Vec<String>,
}

impl TypeParams {
    /// The texts of the declared parameter names, as a set.
    pub closed spec fn spec_names(&self) -> Set<Seq<char>> {
        names_set(self.names@)
    }

    /// Extracts the type parameters of a declaration's generic context.
    pub fn new(generics: &Generics) -> (r: TypeParams)
        ensures
            r.spec_names() == names_set(generics.params@),
    {
        TypeParams { names: clone_strings(&generics.params) }
    }

    /// Whether `name`'s text is one of the declared parameters.
    fn contains_name(&self, name: &String) -> (r: bool)
        ensures
            r == self.spec_names().contains(name@),
    {
        let r = contains_string(&self.names, name);
        proof {
            assert(self.spec_names().contains(name@) == strings_model(self.names@).contains(
                name@,
            ));
        }
        r
    }

    /// Whether `ty` mentions one of the declared parameters, anywhere in its
    /// generic-argument structure.
    pub fn intersects(&self, ty: &TypeExpr) -> (r: bool)
        ensures
            r == spec_mentions(*ty, self.spec_names()),
    {
        let mut found = false;
        self.crawl(ty, &mut found);
        found
    }

    /// Recursively searches `ty` for a bare identifier among the declared
    /// parameters, descending into angle-bracketed argument lists and
    /// stopping at the first match; the result is accumulated in `*found`.
    fn crawl(&self, ty: &TypeExpr, found: &mut bool)
        ensures
            *final(found) == (*old(found) || spec_mentions(*ty, self.spec_names())),
        decreases *ty,
    {
        let ghost params = self.spec_names();
        match ty {
            TypeExpr::Other(_) => {},
            TypeExpr::Path(segs) => {
                if segs.len() == 1 && segs[0].args.len() == 0 {
                    if self.contains_name(&segs[0].ident) {
                        *found = true;
                        proof {
                            assert(ty.bare_ident() == Some(segs@[0].ident@));
                            assert(spec_mentions(*ty, params));
                        }
                        return ;
                    }
                }
                let ghost init = *found;
                let mut i: usize = 0;
                proof {
                    assert(segs@.skip(0) =~= segs@);
                }
                while i < segs.len()
                    invariant
                        i <= segs@.len(),
                        (init || spec_any_segment_mentions(segs@, params)) == (*found
                            || spec_any_segment_mentions(segs@.skip(i as int), params)),
                        params == self.spec_names(),
                        forall|k: int, l: int|
                            0 <= k < segs@.len() && 0 <= l < segs@[k].args@.len()
                                ==> #[trigger] (decreases_to!(*ty => segs@[k].args@[l])),
                    decreases segs@.len() - i,
                {
                    let seg = &segs[i];
                    let ghost fi = *found;
                    let mut j: usize = 0;
                    proof {
                        assert(segs@.skip(i as int)[0] == segs@[i as int]);
                        assert(segs@.skip(i as int).drop_first() =~= segs@.skip(i as int + 1));
                        assert(seg.args@.skip(0) =~= seg.args@);
                    }
                    while j < seg.args.len()
                        invariant
                            0 <= i < segs@.len(),
                            *seg == segs@[i as int],
                            j <= seg.args@.len(),
                            (fi || spec_any_arg_mentions(seg.args@, params)) == (*found
                                || spec_any_arg_mentions(seg.args@.skip(j as int), params)),
                            params == self.spec_names(),
                            forall|k: int, l: int|
                                0 <= k < segs@.len() && 0 <= l < segs@[k].args@.len()
                                    ==> #[trigger] (decreases_to!(*ty => segs@[k].args@[l])),
                        decreases seg.args@.len() - j,
                    {
                        self.crawl(&seg.args[j], found);
                        proof {
                            assert(seg.args@.skip(j as int)[0] == seg.args@[j as int]);
                            assert(seg.args@.skip(j as int).drop_first() =~= seg.args@.skip(
                                j as int + 1,
                            ));
                        }
                        j = j + 1;
                    }
                    proof {
                        assert(seg.args@.skip(seg.args@.len() as int)
                            =~= Seq::<TypeExpr>::empty());
                    }
                    i = i + 1;
                }
                proof {
                    assert(segs@.skip(segs@.len() as int) =~= Seq::<PathSegment>::empty());
                    assert((*ty)->Path_0 == *segs);
                }
            },
        }
    }
}

/// The inferred-bounds accumulator: an ordered map from the canonical key of
/// a type expression to the set of bound texts required of it. A key's
/// position is fixed the first time it is seen, and a bound is recorded at
/// most once per key, in first-insertion order.
pub struct InferredBounds {
    entries: Vec<Predicate>,
}

impl View for InferredBounds {
    type V = Seq<BoundReq>;

    closed spec fn view(&self) -> Seq<BoundReq> {
        preds_model(self.entries@)
    }
}

/// What one insertion does to the accumulated bounds: a new key is appended
/// with its first bound; an existing key keeps its position and gains the
/// bound only if it does not hold it yet.
pub open spec fn spec_insert(m: Seq<BoundReq>, k: Seq<char>, b: Seq<char>) -> Seq<BoundReq>
    decreases m.len(),
{
    if m.len() == 0 {
        seq![BoundReq { key: k, bounds: seq![b] }]
    } else if m[0].key == k {
        seq![
            BoundReq {
                key: m[0].key,
                bounds: if m[0].bounds.contains(b) {
                    m[0].bounds
                } else {
                    m[0].bounds.push(b)
                },
            },
        ] + m.drop_first()
    } else {
        seq![m[0]] + spec_insert(m.drop_first(), k, b)
    }
}

/// Law: insertion is idempotent — recording the same obligation twice leaves
/// exactly what recording it once leaves, keys and order included.
pub proof fn lemma_insert_idempotent(m: Seq<BoundReq>, k: Seq<char>, b: Seq<char>)
    ensures
        spec_insert(spec_insert(m, k, b), k, b) == spec_insert(m, k, b),
    decreases m.len(),
{
    if m.len() == 0 {
        assert(seq![b][0] == b);
        assert(seq![b].contains(b));
        assert(spec_insert(spec_insert(m, k, b), k, b) =~= spec_insert(m, k, b));
    } else if m[0].key == k {
        let once = spec_insert(m, k, b);
        assert(once[0].bounds.contains(b)) by {
            if m[0].bounds.contains(b) {
            } else {
                assert(m[0].bounds.push(b)[m[0].bounds.len() as int] == b);
            }
        }
        assert(once.drop_first() =~= m.drop_first());
        assert(spec_insert(once, k, b) =~= once);
    } else {
        lemma_insert_idempotent(m.drop_first(), k, b);
        let once = spec_insert(m, k, b);
        assert(once[0] == m[0]);
        assert(once.drop_first() =~= spec_insert(m.drop_first(), k, b));
        assert(spec_insert(once, k, b) =~= once);
    }
}

proof fn lemma_spec_insert_found(m: Seq<BoundReq>, k: Seq<char>, b: Seq<char>, i: int)
    requires
        0 <= i < m.len(),
        m[i].key == k,
        forall|a: int| 0 <= a < i ==> (#[trigger] m[a]).key != k,
    ensures
        spec_insert(m, k, b) =~= m.update(
            i,
            BoundReq {
                key: m[i].key,
                bounds: if m[i].bounds.contains(b) {
                    m[i].bounds
                } else {
                    m[i].bounds.push(b)
                },
            },
        ),
    decreases i,
{
    if i == 0 {
        assert(spec_insert(m, k, b) =~= m.update(
            0,
            BoundReq {
                key: m[0].key,
                bounds: if m[0].bounds.contains(b) {
                    m[0].bounds
                } else {
                    m[0].bounds.push(b)
                },
            },
        ));
    } else {
        lemma_spec_insert_found(m.drop_first(), k, b, i - 1);
    }
}

proof fn lemma_spec_insert_missing(m: Seq<BoundReq>, k: Seq<char>, b: Seq<char>)
    requires
        forall|a: int| 0 <= a < m.len() ==> (#[trigger] m[a]).key != k,
    ensures
        spec_insert(m, k, b) =~= m.push(BoundReq { key: k, bounds: seq![b] }),
    decreases m.len(),
{
    if m.len() == 0 {
    } else {
        lemma_spec_insert_missing(m.drop_first(), k, b);
    }
}

impl InferredBounds {
    /// An empty accumulator.
    pub fn new() -> (r: InferredBounds)
        ensures
            r@ == Seq::<BoundReq>::empty(),
    {
        InferredBounds { entries: Vec::new() }
    }

    /// Records that the type rendered as `ty` requires `bound`, exactly as
    /// [`spec_insert`] describes.
    pub fn insert(&mut self, ty: String, bound: String)
        ensures
            final(self)@ == spec_insert(old(self)@, ty@, bound@),
    {
        let mut i: usize = 0;
        while i < self.entries.len()
            invariant
                i <= self.entries@.len(),
                forall|a: int| 0 <= a < i ==> (#[trigger] self@[a]).key != ty@,
                *self == *old(self),
            decreases self.entries@.len() - i,
        {
            if self.entries[i].ty == ty {
                proof {
                    assert(self@[i as int].key == ty@);
                }
                let ghost tv = ty@;
                let ghost bv = bound@;
                let ghost ob = self.entries@[i as int].bounds@;
                if !contains_string(&self.entries[i].bounds, &bound) {
                    self.entries[i].bounds.push(bound);
                    proof {
                        assert(strings_model(ob.push(bound)) =~= strings_model(ob).push(bv));
                    }
                }
                proof {
                    lemma_spec_insert_found(old(self)@, tv, bv, i as int);
                    assert(final(self)@ =~~= spec_insert(old(self)@, tv, bv));
                }
                return ;
            }
            proof {
                assert(self@[i as int].key != ty@);
            }
            i = i + 1;
        }
        let ghost tv = ty@;
        let ghost bv = bound@;
        let mut first: Vec<String> = Vec::new();
        first.push(bound);
        proof {
            assert(strings_model(first@) =~= seq![bv]);
        }
        self.entries.push(Predicate { ty, bounds: first });
        proof {
            lemma_spec_insert_missing(old(self)@, tv, bv);
            assert(final(self)@ =~~= spec_insert(old(self)@, tv, bv));
        }
    }

    /// The declaration's own `where`-clause predicates, followed by the
    /// inferred ones in first-insertion order.
    pub fn augment_where_clause(&self, generics: &Generics) -> (r: Vec<Predicate>)
        ensures
            preds_model(r@) == preds_model(generics.where_clause@) + self@,
    {
        let mut out: Vec<Predicate> = Vec::new();
        let ghost wc = generics.where_clause@;
        let mut i: usize = 0;
        while i < generics.where_clause.len()
            invariant
                i <= wc.len(),
                wc == generics.where_clause@,
                out@.len() == i,
                forall|k: int| 0 <= k < i ==> (#[trigger] out@[k])@ == wc[k]@,
            decreases wc.len() - i,
        {
            let p = &generics.where_clause[i];
            out.push(Predicate { ty: p.ty.clone(), bounds: clone_strings(&p.bounds) });
            i = i + 1;
        }
        let mut j: usize = 0;
        while j < self.entries.len()
            invariant
                j <= self.entries@.len(),
                out@.len() == wc.len() + j,
                wc == generics.where_clause@,
                forall|k: int| 0 <= k < wc.len() ==> (#[trigger] out@[k])@ == wc[k]@,
                forall|k: int|
                    wc.len() <= k < wc.len() + j ==> (#[trigger] out@[k])@ == self.entries@[k
                        - wc.len()]@,
            decreases self.entries@.len() - j,
        {
            let e = &self.entries[j];
            out.push(Predicate { ty: e.ty.clone(), bounds: clone_strings(&e.bounds) });
            j = j + 1;
        }
        proof {
            let m1 = preds_model(out@);
            let m2 = preds_model(generics.where_clause@) + self@;
            assert(m1.len() == out@.len());
            assert(m2.len() == wc.len() + self.entries@.len());
            assert forall|k: int| 0 <= k < m1.len() implies m1[k] == m2[k] by {
                assert(m1[k] == out@[k]@);
                if k < wc.len() {
                    assert(m2[k] == wc[k]@);
                } else {
                    assert(m2[k] == self.entries@[k - wc.len()]@);
                    assert(out@[k]@ == self.entries@[k - wc.len()]@);
                }
            }
            assert(m1 =~= m2);
        }
        out
    }
}

} // verus!
