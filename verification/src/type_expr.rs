//! A structural model of the type expressions that appear as declared field
//! types: path types with optional angle-bracketed argument lists, and opaque
//! non-path types. The generic scan and the canonical key rendering both walk
//! this structure.

use vstd::prelude::*;
use vstd::string::StringExecFns;

verus! {

/// One segment of a path type: an identifier, possibly followed by an
/// angle-bracketed list of type arguments.
#[derive(Debug, PartialEq, Eq)]
pub struct PathSegment {
    pub ident: String,
    pub args: Vec<TypeExpr>,
}

/// A declared type, as far as this engine reads it: a path (a sequence of
/// segments), or any other syntactic form, carried opaquely with its text.
#[derive(Debug, PartialEq, Eq)]
pub enum TypeExpr {
    Path(Vec<PathSegment>),
    Other(String),
}

impl TypeExpr {
    /// The identifier of a path that is a single bare segment without
    /// arguments; only such a path can refer to a generic parameter directly.
    pub open spec fn bare_ident(&self) -> Option<Seq<char>> {
        match self {
            TypeExpr::Path(segs) => if segs@.len() == 1 && segs@[0].args@.len() == 0 {
                Some(segs@[0].ident@)
            } else {
                None
            },
            TypeExpr::Other(_) => None,
        }
    }
}

/// Whether the type mentions one of the given parameter names: either the
/// type is a bare identifier among them, or some type argument, at any
/// nesting depth of angle-bracketed argument lists, mentions one.
pub open spec fn spec_mentions(t: TypeExpr, params: Set<Seq<char>>) -> bool
    decreases t,
{
    if t is Path {
        ||| (t.bare_ident() matches Some(id) && params.contains(id))
        ||| spec_any_segment_mentions(t->Path_0@, params)
    } else {
        false
    }
}

/// Whether some type argument of one of the segments mentions a parameter.
pub open spec fn spec_any_segment_mentions(segs: Seq<PathSegment>, params: Set<Seq<char>>) -> bool
    decreases segs,
{
    if segs.len() == 0 {
        false
    } else {
        spec_any_arg_mentions(segs[0].args@, params) || spec_any_segment_mentions(
            segs.drop_first(),
            params,
        )
    }
}

/// Whether one of the listed type arguments mentions a parameter.
pub open spec fn spec_any_arg_mentions(args: Seq<TypeExpr>, params: Set<Seq<char>>) -> bool
    decreases args,
{
    if args.len() == 0 {
        false
    } else {
        spec_mentions(args[0], params) || spec_any_arg_mentions(args.drop_first(), params)
    }
}

/// The canonical textual rendering of a type expression, used as the key of
/// the inferred-bounds accumulator: segments joined by `::`, argument lists
/// between `<` and `>` joined by `,`, and an opaque type rendered as its own
/// text. Two structurally identical expressions render identically.
pub open spec fn spec_type_key(t: TypeExpr) -> Seq<char>
    decreases t,
{
    match t {
        TypeExpr::Other(s) => s@,
        TypeExpr::Path(segs) => spec_path_key(segs@),
    }
}

/// The rendering of a path: its segments joined by `::`.
pub open spec fn spec_path_key(segs: Seq<PathSegment>) -> Seq<char>
    decreases segs,
{
    if segs.len() == 0 {
        Seq::empty()
    } else if segs.len() == 1 {
        spec_segment_key(segs[0])
    } else {
        spec_path_key(segs.drop_last()) + "::"@ + spec_segment_key(segs.last())
    }
}

/// The rendering of one segment: its identifier, then its arguments between
/// angle brackets when there are any.
pub open spec fn spec_segment_key(seg: PathSegment) -> Seq<char>
    decreases seg,
{
    if seg.args@.len() == 0 {
        seg.ident@
    } else {
        seg.ident@ + "<"@ + spec_args_key(seg.args@) + ">"@
    }
}

/// The rendering of an argument list: the arguments joined by `,`.
pub open spec fn spec_args_key(args: Seq<TypeExpr>) -> Seq<char>
    decreases args,
{
    if args.len() == 0 {
        Seq::empty()
    } else if args.len() == 1 {
        spec_type_key(args[0])
    } else {
        spec_args_key(args.drop_last()) + ","@ + spec_type_key(args.last())
    }
}

/// Renders the canonical key of a type expression.
pub fn render_type(t: &TypeExpr) -> (r: String)
    ensures
        r@ == spec_type_key(*t),
    decreases *t,
{
    match t {
        TypeExpr::Other(s) => s.clone(),
        TypeExpr::Path(segs) => {
            let mut out = String::new();
            let mut i: usize = 0;
            while i < segs.len()
                invariant
                    i <= segs@.len(),
                    out@ == spec_path_key(segs@.take(i as int)),
                    forall|k: int|
                        0 <= k < segs@.len() ==> #[trigger] (decreases_to!(
                            *t => segs@[k])),
                decreases segs@.len() - i,
            {
                if i > 0 {
                    out.append("::");
                }
                render_segment_into(&mut out, &segs[i]);
                proof {
                    let taken = segs@.take(i as int + 1);
                    assert(taken.drop_last() =~= segs@.take(i as int));
                    assert(taken.last() == segs@[i as int]);
                    if i == 0 {
                        assert(out@ == spec_path_key(taken));
                    }
                }
                i = i + 1;
            }
            proof {
                assert(segs@.take(segs@.len() as int) =~= segs@);
            }
            out
        },
    }
}

/// Appends the rendering of one path segment.
fn render_segment_into(out: &mut String, seg: &PathSegment)
    ensures
        final(out)@ == old(out)@ + spec_segment_key(*seg),
    decreases *seg,
{
    out.append(seg.ident.as_str());
    if seg.args.len() > 0 {
        out.append("<");
        let ghost mid = out@;
        let mut j: usize = 0;
        while j < seg.args.len()
            invariant
                j <= seg.args@.len(),
                seg.args@.len() > 0,
                out@ == mid + spec_args_key(seg.args@.take(j as int)),
                forall|k: int|
                    0 <= k < seg.args@.len() ==> #[trigger] (decreases_to!(
                        *seg => seg.args@[k])),
            decreases seg.args@.len() - j,
        {
            if j > 0 {
                out.append(",");
            }
            let rendered = render_type(&seg.args[j]);
            out.append(rendered.as_str());
            proof {
                let taken = seg.args@.take(j as int + 1);
                assert(taken.drop_last() =~= seg.args@.take(j as int));
                assert(taken.last() == seg.args@[j as int]);
                if j == 0 {
                    assert(out@ == mid + spec_args_key(taken));
                }
            }
            j = j + 1;
        }
        out.append(">");
        proof {
            assert(seg.args@.take(seg.args@.len() as int) =~= seg.args@);
        }
    }
}

} // verus!
