//! The two body-renderer back ends: JSON and plain text. Both reuse the same
//! classification logic; only the rendering format differs.

use vstd::prelude::*;
use crate::expand::{BodyExpander, BodyFormat};
use crate::input::{Enum, Struct};

verus! {

/// The JSON back end: bodies carry the display text under `error`, and the
/// error-code text under `error_code` when one was annotated.
#[derive(Debug, PartialEq, Eq)]
pub struct Json;

/// The plain-text back end: bodies carry the display text verbatim.
#[derive(Debug, PartialEq, Eq)]
pub struct Text;

impl BodyExpander for Json {
    open spec fn spec_format() -> BodyFormat {
        BodyFormat::Json
    }

    fn expand_struct(input: &Struct) -> (r: BodyFormat) {
        BodyFormat::Json
    }

    fn expand_enum(input: &Enum) -> (r: BodyFormat) {
        BodyFormat::Json
    }
}

impl BodyExpander for Text {
    open spec fn spec_format() -> BodyFormat {
        BodyFormat::Text
    }

    fn expand_struct(input: &Struct) -> (r: BodyFormat) {
        BodyFormat::Text
    }

    fn expand_enum(input: &Enum) -> (r: BodyFormat) {
        BodyFormat::Text
    }
}

} // verus!
