//! Resolution of the declarative annotations attached to one syntactic item
//! (the type itself, a variant, or a field) into a normalized [`Attrs`] value.
//!
//! The front end tokenizes the host language's annotation syntax and hands
//! this module one [`RawAnnotation`] per annotation occurrence; this module
//! knows nothing about the surrounding type.

use vstd::prelude::*;
use vstd::string::StringExecFns;

verus! {

/// An opaque reference to the source location an annotation or declaration
/// came from. Every diagnostic carries one, so the host can point at the
/// exact declaration; this engine never looks inside it.
#[derive(Clone, Copy, Debug, PartialEq, Eq)]
pub struct Origin {
    pub id: usize,
}

/// The two annotation kinds this engine understands, named in duplicate
/// diagnostics.
#[derive(Clone, Copy, Debug, PartialEq, Eq)]
pub enum AttrKind {
    Status,
    ErrorCode,
}

/// The body of one annotation, as tokenized by the front end: an integer
/// literal, a bare identifier, or something that parses as neither.
#[derive(Clone, Debug, PartialEq, Eq)]
pub enum RawBody {
    Int(i128),
    Ident(String),
    Malformed,
}

/// One annotation occurrence on a syntactic item.
#[derive(Clone, Debug, PartialEq, Eq)]
pub enum RawAnnotation {
    /// A `status(..)` annotation.
    Status(RawBody, Origin),
    /// An `error_code(..)` annotation.
    ErrorCode(RawBody, Origin),
    /// Any other annotation; this engine ignores it.
    Other(Origin),
}

/// A status code as written in a fixed status spec: either a numeric literal,
/// validated to lie in the valid status range, or the name of a status
/// constant, resolved later by the consumer of the generated code.
#[derive(Clone, Debug, PartialEq, Eq)]
pub enum StatusCode {
    Value(u16),
    Name(String),
}

/// A fixed status spec together with the location it came from.
#[derive(Clone, Debug, PartialEq, Eq)]
pub struct Status {
    pub original: Origin,
    pub code: StatusCode,
}

/// A resolved status spec: delegate to the contained value, or a fixed code.
#[derive(Clone, Debug, PartialEq, Eq)]
pub enum ResolveStatus {
    Transparent(Origin),
    Fixed(Status),
}

/// A resolved `error_code` annotation: the identifier's textual form.
#[derive(Clone, Debug, PartialEq, Eq)]
pub struct ErrorCode {
    pub original: Origin,
    pub error_code: String,
}

/// The normalized annotation set of one item: at most one status spec and at
/// most one error code.
#[derive(Clone, Debug, PartialEq, Eq)]
pub struct Attrs {
    pub status: Option<ResolveStatus>,
    pub error_code: Option<ErrorCode>,
}

/// A diagnostic produced while resolving annotations or building the type
/// model. All are detected before any code is generated; each carries the
/// origin of the offending item.
#[derive(Clone, Debug, PartialEq, Eq)]
pub enum ResolutionError {
    /// The same annotation kind occurred twice on one item.
    DuplicateAttribute(AttrKind, Origin),
    /// A numeric status literal outside the valid status-code range.
    InvalidStatusCode(i128, Origin),
    /// The declaration is neither a record nor a union of records.
    UnsupportedKind(Origin),
    /// An annotation body that parses as no recognized form.
    MalformedAnnotation(Origin),
}

/// The numeric status codes accepted in a fixed status spec.
pub open spec fn valid_status_value(n: int) -> bool {
    100 <= n <= 599
}

impl StatusCode {
    /// A numeric code is well formed when it lies in the valid status range;
    /// a symbolic name is not validated here.
    pub open spec fn wf(&self) -> bool {
        match self {
            StatusCode::Value(n) => valid_status_value(*n as int),
            StatusCode::Name(_) => true,
        }
    }
}

impl ResolveStatus {
    pub open spec fn wf(&self) -> bool {
        match self {
            ResolveStatus::Transparent(_) => true,
            ResolveStatus::Fixed(st) => st.code.wf(),
        }
    }
}

impl Attrs {
    /// Every status code held by a resolved annotation set is well formed.
    pub open spec fn wf(&self) -> bool {
        match self.status {
            Some(st) => st.wf(),
            None => true,
        }
    }

    /// The annotation set with nothing resolved yet.
    pub open spec fn spec_empty() -> Attrs {
        Attrs { status: None, error_code: None }
    }

    /// The location of the status annotation, if one was given.
    pub open spec fn spec_span(&self) -> Option<Origin> {
        match self.status {
            Some(ResolveStatus::Transparent(o)) => Some(o),
            Some(ResolveStatus::Fixed(st)) => Some(st.original),
            None => None,
        }
    }
}

/// What a `status(..)` body resolves to: the keyword `transparent` delegates,
/// an integer literal is validated against the status range, and any other
/// bare identifier becomes a symbolic name.
pub open spec fn spec_status_value(body: RawBody, origin: Origin) -> Result<
    ResolveStatus,
    ResolutionError,
> {
    match body {
        RawBody::Ident(s) => if s@ == "transparent"@ {
            Ok(ResolveStatus::Transparent(origin))
        } else {
            Ok(ResolveStatus::Fixed(Status { original: origin, code: StatusCode::Name(s) }))
        },
        RawBody::Int(n) => if valid_status_value(n as int) {
            Ok(
                ResolveStatus::Fixed(
                    Status { original: origin, code: StatusCode::Value(n as u16) },
                ),
            )
        } else {
            Err(ResolutionError::InvalidStatusCode(n, origin))
        },
        RawBody::Malformed => Err(ResolutionError::MalformedAnnotation(origin)),
    }
}

/// What an `error_code(..)` body resolves to: a bare identifier, stored in
/// its textual form; anything else is malformed.
pub open spec fn spec_error_code_value(body: RawBody, origin: Origin) -> Result<
    ErrorCode,
    ResolutionError,
> {
    match body {
        RawBody::Ident(s) => Ok(ErrorCode { original: origin, error_code: s }),
        _ => Err(ResolutionError::MalformedAnnotation(origin)),
    }
}

/// The effect of one annotation occurrence on the set resolved so far: a
/// second occurrence of a kind already resolved is a duplicate; annotations
/// of other kinds are ignored.
pub open spec fn spec_resolve_step(acc: Attrs, ann: RawAnnotation) -> Result<
    Attrs,
    ResolutionError,
> {
    match ann {
        RawAnnotation::Status(body, origin) => if acc.status is Some {
            Err(ResolutionError::DuplicateAttribute(AttrKind::Status, origin))
        } else {
            match spec_status_value(body, origin) {
                Ok(st) => Ok(Attrs { status: Some(st), ..acc }),
                Err(e) => Err(e),
            }
        },
        RawAnnotation::ErrorCode(body, origin) => if acc.error_code is Some {
            Err(ResolutionError::DuplicateAttribute(AttrKind::ErrorCode, origin))
        } else {
            match spec_error_code_value(body, origin) {
                Ok(ec) => Ok(Attrs { error_code: Some(ec), ..acc }),
                Err(e) => Err(e),
            }
        },
        RawAnnotation::Other(_) => Ok(acc),
    }
}

/// Resolution of a whole annotation list, starting from `acc`: the
/// occurrences are scanned in order and the first diagnostic aborts.
pub open spec fn spec_resolve_from(acc: Attrs, anns: Seq<RawAnnotation>) -> Result<
    Attrs,
    ResolutionError,
>
    decreases anns.len(),
{
    if anns.len() == 0 {
        Ok(acc)
    } else {
        match spec_resolve_step(acc, anns[0]) {
            Ok(acc2) => spec_resolve_from(acc2, anns.drop_first()),
            Err(e) => Err(e),
        }
    }
}

/// Resolution of one item's annotation list into a normalized [`Attrs`].
pub open spec fn spec_resolve(anns: Seq<RawAnnotation>) -> Result<Attrs, ResolutionError> {
    spec_resolve_from(Attrs::spec_empty(), anns)
}

/// A step preserves well-formedness of the accumulated set.
proof fn lemma_step_preserves_wf(acc: Attrs, ann: RawAnnotation)
    requires
        acc.wf(),
        spec_resolve_step(acc, ann) is Ok,
    ensures
        spec_resolve_step(acc, ann)->Ok_0.wf(),
{
}

impl Attrs {
    /// Scans one item's annotation occurrences in order and resolves them.
    ///
    /// Returns the normalized set exactly as [`spec_resolve`] describes: a
    /// repeated `status` or `error_code` is a `DuplicateAttribute`, a numeric
    /// status outside the valid range is an `InvalidStatusCode`, and a body of
    /// no recognized form is a `MalformedAnnotation`; every code held by a
    /// returned set lies in the valid status range.
    pub fn get(input: &Vec<RawAnnotation>) -> (r: Result<Attrs, ResolutionError>)
        ensures
            r == spec_resolve(input@),
            r matches Ok(attrs) ==> attrs.wf(),
    {
        let mut attrs = Attrs { status: None, error_code: None };
        let mut i: usize = 0;
        proof {
            assert(input@.skip(0) =~= input@);
        }
        while i < input.len()
            invariant
                i <= input@.len(),
                attrs.wf(),
                spec_resolve(input@) == spec_resolve_from(attrs, input@.skip(i as int)),
            decreases input@.len() - i,
        {
            proof {
                assert(input@.skip(i as int)[0] == input@[i as int]);
                assert(input@.skip(i as int).drop_first() =~= input@.skip(i as int + 1));
            }
            let ghost prev = attrs;
            let step = match &input[i] {
                RawAnnotation::Status(body, origin) => attrs.parse_status_attribute(
                    body,
                    *origin,
                ),
                RawAnnotation::ErrorCode(body, origin) => attrs.parse_error_code_attribute(
                    body,
                    *origin,
                ),
                RawAnnotation::Other(_) => Ok(()),
            };
            proof {
                if spec_resolve_step(prev, input@[i as int]) is Ok {
                    lemma_step_preserves_wf(prev, input@[i as int]);
                }
            }
            if let Err(e) = step {
                return Err(e);
            }
            i = i + 1;
        }
        proof {
            assert(input@.skip(i as int) =~= Seq::<RawAnnotation>::empty());
        }
        Ok(attrs)
    }

    /// The location of this set's status annotation, if one was given.
    pub fn span(&self) -> (r: Option<Origin>)
        ensures
            r == self.spec_span(),
    {
        match &self.status {
            Some(ResolveStatus::Transparent(o)) => Some(*o),
            Some(ResolveStatus::Fixed(st)) => Some(st.original),
            None => None,
        }
    }

    /// Resolves one `status(..)` occurrence into this set.
    fn parse_status_attribute(&mut self, body: &RawBody, origin: Origin) -> (r: Result<
        (),
        ResolutionError,
    >)
        ensures
            match spec_resolve_step(*old(self), RawAnnotation::Status(*body, origin)) {
                Ok(acc2) => r is Ok && *final(self) == acc2,
                Err(e) => r == Err::<(), ResolutionError>(e) && *final(self) == *old(self),
            },
    {
        if self.status.is_some() {
            return Err(ResolutionError::DuplicateAttribute(AttrKind::Status, origin));
        }
        match parse_status_expr(body, origin) {
            Ok(st) => {
                self.status = Some(st);
                Ok(())
            },
            Err(e) => Err(e),
        }
    }

    /// Resolves one `error_code(..)` occurrence into this set.
    fn parse_error_code_attribute(&mut self, body: &RawBody, origin: Origin) -> (r: Result<
        (),
        ResolutionError,
    >)
        ensures
            match spec_resolve_step(*old(self), RawAnnotation::ErrorCode(*body, origin)) {
                Ok(acc2) => r is Ok && *final(self) == acc2,
                Err(e) => r == Err::<(), ResolutionError>(e) && *final(self) == *old(self),
            },
    {
        if self.error_code.is_some() {
            return Err(ResolutionError::DuplicateAttribute(AttrKind::ErrorCode, origin));
        }
        match parse_error_code_expr(body, origin) {
            Ok(ec) => {
                self.error_code = Some(ec);
                Ok(())
            },
            Err(e) => Err(e),
        }
    }
}

impl StatusCode {
    /// The source text of this code inside a generated classification: the
    /// numeric literal itself, or the named constant in the consumer's
    /// status-code vocabulary.
    pub open spec fn spec_source(&self) -> Seq<char> {
        match self {
            StatusCode::Value(n) => crate::text::spec_decimal(*n as nat),
            StatusCode::Name(s) => "status_codes::"@ + s@,
        }
    }

    /// Renders the source text of this code.
    pub fn to_source(&self) -> (r: String)
        ensures
            r@ == self.spec_source(),
    {
        match self {
            StatusCode::Value(n) => crate::text::decimal_string(*n as usize),
            StatusCode::Name(s) => {
                let mut out = String::from_str("status_codes::");
                out.append(s.as_str());
                out
            },
        }
    }

    /// A copy with the same value; written out because this crate reasons
    /// about the copy's contents.
    pub fn duplicate(&self) -> (r: StatusCode)
        ensures
            r == *self,
    {
        match self {
            StatusCode::Value(n) => StatusCode::Value(*n),
            StatusCode::Name(s) => StatusCode::Name(s.clone()),
        }
    }
}

impl ResolveStatus {
    /// A copy with the same value.
    pub fn duplicate(&self) -> (r: ResolveStatus)
        ensures
            r == *self,
    {
        match self {
            ResolveStatus::Transparent(o) => ResolveStatus::Transparent(*o),
            ResolveStatus::Fixed(st) => ResolveStatus::Fixed(
                Status { original: st.original, code: st.code.duplicate() },
            ),
        }
    }
}

/// The text recorded by an `error_code` annotation, if one was given.
pub open spec fn spec_error_code_of(attrs: Attrs) -> Option<String> {
    match attrs.error_code {
        Some(ec) => Some(ec.error_code),
        None => None,
    }
}

/// Resolves the body of a `status(..)` annotation.
fn parse_status_expr(body: &RawBody, origin: Origin) -> (r: Result<ResolveStatus, ResolutionError>)
    ensures
        r == spec_status_value(*body, origin),
{
    match body {
        RawBody::Ident(s) => {
            let kw: String = String::from_str("transparent");
            if *s == kw {
                Ok(ResolveStatus::Transparent(origin))
            } else {
                Ok(
                    ResolveStatus::Fixed(
                        Status { original: origin, code: StatusCode::Name(s.clone()) },
                    ),
                )
            }
        },
        RawBody::Int(n) => {
            if 100 <= *n && *n <= 599 {
                Ok(
                    ResolveStatus::Fixed(
                        Status { original: origin, code: StatusCode::Value(*n as u16) },
                    ),
                )
            } else {
                Err(ResolutionError::InvalidStatusCode(*n, origin))
            }
        },
        RawBody::Malformed => Err(ResolutionError::MalformedAnnotation(origin)),
    }
}

/// Resolves the body of an `error_code(..)` annotation.
fn parse_error_code_expr(body: &RawBody, origin: Origin) -> (r: Result<ErrorCode, ResolutionError>)
    ensures
        r == spec_error_code_value(*body, origin),
{
    match body {
        RawBody::Ident(s) => Ok(ErrorCode { original: origin, error_code: s.clone() }),
        _ => Err(ResolutionError::MalformedAnnotation(origin)),
    }
}

} // verus!
