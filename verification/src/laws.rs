//! The transform's guarantees, stated once over the spec-level pipeline and
//! proved for every input.

use vstd::prelude::*;

use crate::sig::{VisKind, ParamKind, ParamV, FunctionSignatureV};
use crate::text::{lit_wrapper_open, lit_wrapper_close, lit_await};
use crate::transform::{
    Strategy, derived_name, forward_args, join_args, ret_or_unit, envelope_type, spec_transform,
};
use crate::emit::rename_only;
use crate::spec_expand;

verus! {

/// The implementation's visibility is always the most restrictive (private),
/// whatever the original declared; the wrapper keeps the original's.
pub proof fn lemma_implementation_private(s: FunctionSignatureV)
    ensures
        spec_transform(s).implementation.visibility.kind == VisKind::Private,
        spec_transform(s).wrapper.visibility == s.visibility,
{
}

/// The forwarding list holds exactly the bare identifiers of the
/// identifier-bound value parameters, in original declaration order, and no
/// others.
pub proof fn lemma_forward_args_exact(ps: Seq<ParamV>)
    ensures
        forward_args(ps) == ps.filter(|p: ParamV| p.kind == ParamKind::Ident).map_values(
            |p: ParamV| p.ident,
        ),
    decreases ps.len(),
{
    reveal(Seq::filter);
    let pred = |p: ParamV| p.kind == ParamKind::Ident;
    let bind = |p: ParamV| p.ident;
    if ps.len() == 0 {
        assert(forward_args(ps) =~= ps.filter(pred).map_values(bind));
    } else {
        let prefix = ps.drop_last();
        lemma_forward_args_exact(prefix);
        if pred(ps.last()) {
            prefix.filter(pred).lemma_push_map_commute(bind, ps.last());
            assert(forward_args(ps) =~= prefix.filter(pred).map_values(bind).push(
                ps.last().ident,
            ));
        } else {
            assert(forward_args(ps) =~= prefix.filter(pred).map_values(bind));
        }
    }
}

/// The wrapper's declared return type is exactly the envelope applied to the
/// original return type, with unit standing in when none is declared.
pub proof fn lemma_wrapper_return_type(s: FunctionSignatureV)
    ensures
        spec_transform(s).wrapper.return_type == Option::Some(
            envelope_type(ret_or_unit(s.return_type)),
        ),
        spec_transform(s).implementation.return_type == s.return_type,
{
}

/// Suspension propagates verbatim to both definitions, and the wrapper's
/// forwarding call is a suspension point exactly when the original suspends.
pub proof fn lemma_suspension_propagated(s: FunctionSignatureV)
    ensures
        spec_transform(s).wrapper.is_suspending == s.is_suspending,
        spec_transform(s).implementation.is_suspending == s.is_suspending,
        s.is_suspending ==> spec_transform(s).wrapper.body == lit_wrapper_open() + derived_name(
            s.name,
        ) + seq![40u8] + join_args(forward_args(s.params)) + seq![41u8] + lit_await()
            + lit_wrapper_close(),
        !s.is_suspending ==> spec_transform(s).wrapper.body == lit_wrapper_open() + derived_name(
            s.name,
        ) + seq![40u8] + join_args(forward_args(s.params)) + seq![41u8] + lit_wrapper_close(),
{
    if s.is_suspending {
        assert(spec_transform(s).wrapper.body =~= lit_wrapper_open() + derived_name(s.name)
            + seq![40u8] + join_args(forward_args(s.params)) + seq![41u8] + lit_await()
            + lit_wrapper_close());
    } else {
        assert(spec_transform(s).wrapper.body =~= lit_wrapper_open() + derived_name(s.name)
            + seq![40u8] + join_args(forward_args(s.params)) + seq![41u8] + lit_wrapper_close());
    }
}

/// Call sites stay source-compatible: the wrapper keeps the original name,
/// and generics and the parameter list (receiver included) are copied
/// unchanged onto both definitions; the implementation keeps the original
/// body verbatim.
pub proof fn lemma_interface_copied(s: FunctionSignatureV)
    ensures
        spec_transform(s).wrapper.name == s.name,
        spec_transform(s).wrapper.generics == s.generics,
        spec_transform(s).wrapper.params == s.params,
        spec_transform(s).implementation.name == derived_name(s.name),
        spec_transform(s).implementation.generics == s.generics,
        spec_transform(s).implementation.params == s.params,
        spec_transform(s).implementation.body == s.body,
{
}

/// The rename-only variant renames and changes nothing else: original
/// visibility, suspension, parameters, return type and body all stand.
pub proof fn lemma_rename_only_keeps_rest(s: FunctionSignatureV)
    ensures
        rename_only(s).name == derived_name(s.name),
        rename_only(s).visibility == s.visibility,
        rename_only(s).is_suspending == s.is_suspending,
        rename_only(s).params == s.params,
        rename_only(s).return_type == s.return_type,
        rename_only(s).body == s.body,
{
}

/// Determinism: the pipeline is a pure function of the input text and the
/// strategy, so byte-identical inputs under the same strategy yield
/// byte-identical output.
pub proof fn lemma_deterministic(src1: Seq<u8>, src2: Seq<u8>, strategy: Strategy)
    requires
        src1 == src2,
    ensures
        spec_expand(src1, strategy) == spec_expand(src2, strategy),
{
}

} // verus!
