//! A build-time source transformation for adapting result-returning methods to
//! an actor runtime's message-handling convention.
//!
//! Given the text of one function definition, the transform splits it into a
//! public dispatch wrapper (keeping the original name and signature, but
//! returning `act_zero::ActorResult<R>` and forwarding into the renamed body)
//! and a private implementation function (prefixed `do_`, holding the original
//! body unchanged).  The whole pipeline — parsing the definition, deriving the
//! implementation name, extracting the forwardable arguments, synthesizing the
//! pair, and emitting the replacement text — is specified and verified here.

use vstd::prelude::*;

pub mod emit;
pub mod laws;
pub mod parse;
pub mod scan;
pub mod sig;
pub mod text;
pub mod transform;

verus! {

/// What the whole pipeline produces for a raw input under a strategy:
/// the parse of the text, transformed and emitted, or nothing when the text
/// is not a well-formed function definition.
pub open spec fn spec_expand(src: Seq<u8>, strategy: crate::transform::Strategy) -> Option<
    Seq<u8>,
> {
    match crate::parse::parse_def(src) {
        Option::None => Option::None,
        Option::Some(sig) => Option::Some(crate::emit::spec_emit(sig, strategy)),
    }
}

/// Transform the raw text of one result-returning function definition into
/// the replacement output: under wrap-and-forward, a dispatch wrapper with
/// the original name returning `act_zero::ActorResult` of the original
/// return type, followed by the private `do_`-prefixed implementation holding
/// the original body; under rename-only, just the renamed definition.
/// Fails exactly when the input is not a well-formed function definition,
/// and then produces no output at all.
pub fn into_actor_result(src: &Vec<u8>, strategy: crate::transform::Strategy) -> (r: Result<
    Vec<u8>,
    crate::parse::MalformedInputError,
>)
    ensures
        match r {
            Result::Ok(out) => spec_expand(src@, strategy) == Option::Some(out@),
            Result::Err(_) => spec_expand(src@, strategy).is_none(),
        },
{
    match crate::parse::parse_function(src) {
        Result::Err(e) => Result::Err(e),
        Result::Ok(sig) => Result::Ok(crate::emit::emit(&sig, strategy)),
    }
}

} // verus!
