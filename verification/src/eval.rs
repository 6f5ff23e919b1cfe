//! Run-time semantics of a generated implementation: what `classify()` and
//! `render()` return for a concrete value of the described type. This is the
//! behavior the emitted code exhibits once compiled into the host program,
//! expressed over plain values: the generated `classify()` is pure, so it is
//! determined by which variant the value is, the classification of the
//! contained value (for transparent delegation), and the binding of symbolic
//! status constants; `render()` is determined by the display text and the
//! item's error-code annotation.

use vstd::prelude::*;
use crate::attr::StatusCode;
use crate::expand::{Arm, BodyFormat, ClassifyExpr, GeneratedImpl, StatusBody};
use crate::render::{spec_content_kind, spec_render_body};
use crate::{JsonErrorSerialize, DEFAULT_STATUS};
use vstd::string::StringExecFns;

verus! {

/// A run-time value of a described type, as far as the generated code reads
/// it: which variant it is (0 for a record), its display text, and the
/// classification of its contained value — the code a transparent item
/// forwards to.
#[derive(Debug, PartialEq, Eq)]
pub struct ErrValue {
    pub variant: usize,
    pub display: String,
    pub inner_status: u16,
}

/// The binding of symbolic status-constant names to their numeric codes, as
/// the consumer of the generated code knows them.
#[derive(Debug, PartialEq, Eq)]
pub struct StatusTable {
    entries: Vec<(String, u16)>,
}

/// The texts and codes of a binding list.
pub open spec fn table_model(s: Seq<(String, u16)>) -> Seq<(Seq<char>, u16)> {
    s.map_values(|p: (String, u16)| (p.0@, p.1))
}

impl View for StatusTable {
    type V = Seq<(Seq<char>, u16)>;

    closed spec fn view(&self) -> Seq<(Seq<char>, u16)> {
        table_model(self.entries@)
    }
}

/// The code bound to a name: the first binding with that name, if any.
pub open spec fn spec_lookup(table: Seq<(Seq<char>, u16)>, name: Seq<char>) -> Option<u16>
    decreases table.len(),
{
    if table.len() == 0 {
        None
    } else if table[0].0 == name {
        Some(table[0].1)
    } else {
        spec_lookup(table.drop_first(), name)
    }
}

impl StatusTable {
    /// A table holding the given bindings, in order.
    pub fn new(entries: Vec<(String, u16)>) -> (r: StatusTable)
        ensures
            r@ == table_model(entries@),
    {
        StatusTable { entries }
    }

    /// The code bound to `name`, if the table binds it.
    pub fn lookup(&self, name: &String) -> (r: Option<u16>)
        ensures
            r == spec_lookup(self@, name@),
    {
        let mut i: usize = 0;
        proof {
            assert(self@.skip(0) =~= self@);
        }
        while i < self.entries.len()
            invariant
                i <= self.entries@.len(),
                self@.len() == self.entries@.len(),
                spec_lookup(self@, name@) == spec_lookup(self@.skip(i as int), name@),
            decreases self.entries@.len() - i,
        {
            proof {
                assert(self@.skip(i as int)[0] == self@[i as int]);
                assert(self@[i as int] == (self.entries@[i as int].0@, self.entries@[
                    i as int].1));
                assert(self@.skip(i as int).drop_first() =~= self@.skip(i as int + 1));
            }
            if self.entries[i].0 == *name {
                return Some(self.entries[i].1);
            }
            i = i + 1;
        }
        proof {
            assert(self@.skip(self@.len() as int) =~= Seq::<(Seq<char>, u16)>::empty());
        }
        None
    }
}

/// What the classification within one arm or record body evaluates to:
/// delegation returns the contained value's own classification; a fixed
/// numeric code returns itself; a symbolic code returns what the table binds
/// it to, or nothing when the name is unbound — the one case in which the
/// emitted code would not compile in the consumer.
pub open spec fn spec_eval_expr(
    e: ClassifyExpr,
    v: ErrValue,
    table: Seq<(Seq<char>, u16)>,
) -> Option<u16> {
    match e {
        ClassifyExpr::Delegate(_) => Some(v.inner_status),
        ClassifyExpr::Const(StatusCode::Value(n)) => Some(n),
        ClassifyExpr::Const(StatusCode::Name(s)) => spec_lookup(table, s@),
    }
}

/// The arm covering a variant index, if the generated match has one.
pub open spec fn spec_find_arm(arms: Seq<Arm>, idx: int) -> Option<Arm>
    decreases arms.len(),
{
    if arms.len() == 0 {
        None
    } else if arms[0].variant_index == idx {
        Some(arms[0])
    } else {
        spec_find_arm(arms.drop_first(), idx)
    }
}

/// What the generated `classify()` returns for a value: the consumer default
/// when no classification override was emitted, or when the value's variant
/// has no arm; otherwise the arm's or record body's own classification.
pub open spec fn spec_classify(
    g: GeneratedImpl,
    v: ErrValue,
    table: Seq<(Seq<char>, u16)>,
) -> Option<u16> {
    match g.status_body {
        None => Some(DEFAULT_STATUS),
        Some(StatusBody::Struct(e)) => spec_eval_expr(e, v, table),
        Some(StatusBody::Enum(arms)) => match spec_find_arm(arms@, v.variant as int) {
            Some(a) => spec_eval_expr(a.body, v, table),
            None => Some(DEFAULT_STATUS),
        },
    }
}

fn eval_expr(e: &ClassifyExpr, v: &ErrValue, table: &StatusTable) -> (r: Option<u16>)
    ensures
        r == spec_eval_expr(*e, *v, table@),
{
    match e {
        ClassifyExpr::Delegate(_) => Some(v.inner_status),
        ClassifyExpr::Const(StatusCode::Value(n)) => Some(*n),
        ClassifyExpr::Const(StatusCode::Name(s)) => table.lookup(s),
    }
}

fn find_arm<'a>(arms: &'a Vec<Arm>, idx: usize) -> (r: Option<&'a Arm>)
    ensures
        match r {
            Some(a) => spec_find_arm(arms@, idx as int) == Some(*a),
            None => spec_find_arm(arms@, idx as int) is None,
        },
{
    let mut i: usize = 0;
    proof {
        assert(arms@.skip(0) =~= arms@);
    }
    while i < arms.len()
        invariant
            i <= arms@.len(),
            spec_find_arm(arms@, idx as int) == spec_find_arm(arms@.skip(i as int), idx as int),
        decreases arms@.len() - i,
    {
        proof {
            assert(arms@.skip(i as int)[0] == arms@[i as int]);
            assert(arms@.skip(i as int).drop_first() =~= arms@.skip(i as int + 1));
        }
        if arms[i].variant_index == idx {
            return Some(&arms[i]);
        }
        i = i + 1;
    }
    proof {
        assert(arms@.skip(arms@.len() as int) =~= Seq::<Arm>::empty());
    }
    None
}

/// Runs the generated `classify()` on a value.
pub fn classify(g: &GeneratedImpl, v: &ErrValue, table: &StatusTable) -> (r: Option<u16>)
    ensures
        r == spec_classify(*g, *v, table@),
{
    match &g.status_body {
        None => Some(DEFAULT_STATUS),
        Some(StatusBody::Struct(e)) => eval_expr(e, v, table),
        Some(StatusBody::Enum(arms)) => match find_arm(arms, v.variant) {
            Some(a) => eval_expr(&a.body, v, table),
            None => Some(DEFAULT_STATUS),
        },
    }
}

/// The error-code text used when rendering, as an optional text.
pub open spec fn opt_text(o: Option<String>) -> Option<Seq<char>> {
    match o {
        Some(s) => Some(s@),
        None => None,
    }
}

/// A rendered response: its content kind and its body, byte for byte.
#[derive(Debug, PartialEq, Eq)]
pub struct Response {
    pub content_kind: String,
    pub body: String,
}

/// Runs the generated `render()` on a value: the JSON format serializes the
/// display text and the item's error-code annotation through the run-time
/// helper; the text format hands the display text through verbatim.
pub fn render(g: &GeneratedImpl, v: &ErrValue) -> (r: Response)
    requires
        (v.variant as int) < g.error_codes@.len(),
    ensures
        r.content_kind@ == spec_content_kind(g.body),
        r.body@ == spec_render_body(g.body, v.display@, opt_text(g.error_codes@[v.variant as int])),
{
    match g.body {
        BodyFormat::Json => {
            let ser = JsonErrorSerialize {
                error: v.display.clone(),
                error_code: match &g.error_codes[v.variant] {
                    Some(c) => Some(c.clone()),
                    None => None,
                },
            };
            Response { content_kind: String::from_str("application/json"), body: ser.serialize() }
        },
        BodyFormat::Text => Response {
            content_kind: String::from_str("text/plain"),
            body: v.display.clone(),
        },
    }
}

} // verus!
