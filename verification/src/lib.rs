//! A compile-time code-generation engine for error-response implementations.
//!
//! Given a structural description of a user-defined data type (a record with
//! named or positional fields, or a tagged union of such records, possibly
//! parameterized by generic type variables), the engine synthesizes an
//! implementation of a two-operation contract: `classify()`, mapping a value
//! to a numeric status code, and `render()`, producing a serialized response
//! body plus a content kind.
//!
//! The pipeline: raw declaration -> attribute resolution (per item) -> type
//! model building -> code generation, which accumulates inferred generic
//! bounds. A front end that tokenizes the host language's annotation syntax
//! hands this crate plain key/value annotation data and receives a structured
//! description of the generated implementation back.

use vstd::prelude::*;

pub mod attr;
pub mod eval;
pub mod expand;
pub mod expander;
pub mod generics;
pub mod input;
pub mod laws;
pub mod render;
pub mod text;
pub mod type_expr;

verus! {

/// The numeric status code applied when a type declares no classification of
/// its own: the conventional "unspecified internal failure" code.
pub const DEFAULT_STATUS: u16 = 500;

/// The run-time serialization helper the generated JSON renderer uses: the
/// display text, and the error-code text when one was annotated. Field
/// presence, not value, is conditioned on the annotation.
#[derive(Debug, PartialEq, Eq)]
pub struct JsonErrorSerialize {
    pub error: String,
    pub error_code: Option<String>,
}

impl JsonErrorSerialize {
    /// The serialized JSON object, byte for byte.
    pub fn serialize(&self) -> (r: String)
        ensures
            r@ == render::spec_json_body(
                self.error@,
                match self.error_code {
                    Some(c) => Some(c@),
                    None => None,
                },
            ),
    {
        render::json_body(&self.error, &self.error_code)
    }
}

} // verus!
