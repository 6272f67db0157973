//! The code emitter: render a structured signature back to source text and
//! assemble the replacement output for a chosen strategy.

use vstd::prelude::*;

use crate::scan::push_range;
use crate::sig::{
    VisKind, VisibilityV, ParamKind, Param, ParamV, FunctionSignature, FunctionSignatureV,
};
use crate::text::{
    lit_pub, lit_pub_open, lit_close_paren_space, lit_async, lit_fn, lit_colon_space, lit_arrow,
    lit_comma_space, lit_blank_line, push_pub, push_pub_open, push_close_paren_space, push_async,
    push_fn, push_colon_space, push_arrow, push_comma_space, push_blank_line,
};
use crate::transform::{
    Strategy, spec_transform, derived_name, derive_impl_name, transform, copy_visibility,
    copy_bytes, copy_params, copy_opt_bytes,
};

verus! {

/// Rendered visibility qualifier, trailing space included.
pub open spec fn render_vis(v: VisibilityV) -> Seq<u8> {
    match v.kind {
        VisKind::Private => Seq::empty(),
        VisKind::Public => lit_pub(),
        VisKind::Restricted => lit_pub_open() + v.restriction + lit_close_paren_space(),
    }
}

/// Rendered single parameter: the receiver text verbatim, or `binder: type`.
pub open spec fn render_param(p: ParamV) -> Seq<u8> {
    if p.kind == ParamKind::Receiver {
        p.binder
    } else {
        p.binder + lit_colon_space() + p.ty
    }
}

/// Rendered parameter list, separated by `, `.
pub open spec fn render_params(ps: Seq<ParamV>) -> Seq<u8>
    decreases ps.len(),
{
    if ps.len() == 0 {
        Seq::empty()
    } else if ps.len() == 1 {
        render_param(ps[0])
    } else {
        render_params(ps.drop_last()) + lit_comma_space() + render_param(ps.last())
    }
}

/// Rendered return-type clause, or nothing when no return type is declared.
pub open spec fn render_ret(r: Option<Seq<u8>>) -> Seq<u8> {
    match r {
        Option::None => Seq::empty(),
        Option::Some(t) => lit_arrow() + t,
    }
}

/// Rendered function definition.
pub open spec fn render_def(s: FunctionSignatureV) -> Seq<u8> {
    render_vis(s.visibility) + (
        if s.is_suspending {
            lit_async()
        } else {
            Seq::empty()
        }
    ) + lit_fn() + s.name + s.generics + seq![40u8] + render_params(s.params) + seq![41u8]
        + render_ret(s.return_type) + seq![32u8] + s.body
}

/// The rename-only variant of a signature: the derived name, everything else
/// (visibility and suspension included) kept as the original declares it.
pub open spec fn rename_only(s: FunctionSignatureV) -> FunctionSignatureV {
    FunctionSignatureV {
        visibility: s.visibility,
        is_suspending: s.is_suspending,
        name: derived_name(s.name),
        generics: s.generics,
        params: s.params,
        return_type: s.return_type,
        body: s.body,
    }
}

/// What the emitter produces for one signature under a strategy: under
/// wrap-and-forward, the wrapper definition, a blank line, and the private
/// implementation definition; under rename-only, just the renamed definition.
pub open spec fn spec_emit(s: FunctionSignatureV, strategy: Strategy) -> Seq<u8> {
    match strategy {
        Strategy::WrapAndForward => render_def(spec_transform(s).wrapper) + lit_blank_line()
            + render_def(spec_transform(s).implementation),
        Strategy::RenameOnly => render_def(rename_only(s)),
    }
}

/// Append the rendered form of one signature to `out`.
#[verifier::rlimit(60)]
pub fn render_function(out: &mut Vec<u8>, sig: &FunctionSignature)
    ensures
        final(out)@ == old(out)@ + render_def(sig@),
{
    match sig.visibility.kind {
        VisKind::Private => {}
        VisKind::Public => {
            push_pub(out);
        }
        VisKind::Restricted => {
            push_pub_open(out);
            let rv = &sig.visibility.restriction;
            push_range(out, rv, 0, rv.len());
            assert(rv@.subrange(0, rv.len() as int) =~= rv@);
            push_close_paren_space(out);
        }
    }
    if sig.is_suspending {
        push_async(out);
    }
    push_fn(out);
    push_range(out, &sig.name, 0, sig.name.len());
    assert(sig.name@.subrange(0, sig.name.len() as int) =~= sig.name@);
    push_range(out, &sig.generics, 0, sig.generics.len());
    assert(sig.generics@.subrange(0, sig.generics.len() as int) =~= sig.generics@);
    out.push(40u8);
    let ghost psv = sig.params@.map_values(|p: Param| p@);
    let ghost prefix = out@;
    let mut k: usize = 0;
    while k < sig.params.len()
        invariant
            k <= sig.params.len(),
            psv == sig.params@.map_values(|p: Param| p@),
            out@ == prefix + render_params(psv.take(k as int)),
        decreases sig.params.len() - k,
    {
        assert(psv.take(k + 1 as int).drop_last() =~= psv.take(k as int));
        assert(psv.take(k + 1 as int).last() == psv[k as int]);
        if k > 0 {
            push_comma_space(out);
        }
        let p = &sig.params[k];
        assert(p@ == psv[k as int]);
        let is_receiver = p.kind == ParamKind::Receiver;
        push_range(out, &p.binder, 0, p.binder.len());
        assert(p.binder@.subrange(0, p.binder.len() as int) =~= p.binder@);
        if !is_receiver {
            push_colon_space(out);
            push_range(out, &p.ty, 0, p.ty.len());
            assert(p.ty@.subrange(0, p.ty.len() as int) =~= p.ty@);
        }
        assert(out@ =~= prefix + render_params(psv.take(k + 1 as int)));
        k = k + 1;
    }
    assert(psv.take(sig.params.len() as int) =~= psv);
    out.push(41u8);
    match &sig.return_type {
        Option::None => {}
        Option::Some(t) => {
            push_arrow(out);
            push_range(out, t, 0, t.len());
            assert(t@.subrange(0, t.len() as int) =~= t@);
        }
    }
    out.push(32u8);
    push_range(out, &sig.body, 0, sig.body.len());
    assert(sig.body@.subrange(0, sig.body.len() as int) =~= sig.body@);
    assert(out@ =~= old(out)@ + render_def(sig@));
}

/// Build the rename-only variant of a signature.
pub fn make_renamed(sig: &FunctionSignature) -> (r: FunctionSignature)
    ensures
        r@ == rename_only(sig@),
{
    FunctionSignature {
        visibility: copy_visibility(&sig.visibility),
        is_suspending: sig.is_suspending,
        name: derive_impl_name(&sig.name),
        generics: copy_bytes(&sig.generics),
        params: copy_params(&sig.params),
        return_type: copy_opt_bytes(&sig.return_type),
        body: copy_bytes(&sig.body),
    }
}

/// Emit the replacement output for one parsed signature under a strategy.
pub fn emit(sig: &FunctionSignature, strategy: Strategy) -> (r: Vec<u8>)
    ensures
        r@ == spec_emit(sig@, strategy),
{
    let mut out: Vec<u8> = Vec::new();
    match strategy {
        Strategy::WrapAndForward => {
            let pair = transform(sig);
            render_function(&mut out, &pair.wrapper);
            push_blank_line(&mut out);
            render_function(&mut out, &pair.implementation);
        }
        Strategy::RenameOnly => {
            let renamed = make_renamed(sig);
            render_function(&mut out, &renamed);
        }
    }
    out
}

} // verus!
