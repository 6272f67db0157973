//! The transformation core: derive the implementation name, extract the
//! forwardable arguments, and synthesize the wrapper/implementation pair.

use vstd::prelude::*;

use crate::scan::push_range;
use crate::sig::{
    VisKind, Visibility, VisibilityV, ParamKind, Param, ParamV, FunctionSignature,
    FunctionSignatureV,
};
use crate::text::{
    lit_impl_prefix, lit_wrapper_open, lit_wrapper_close, lit_await, lit_envelope_open,
    lit_unit, lit_comma_space, push_impl_prefix, push_wrapper_open, push_wrapper_close,
    push_await, push_envelope_open, push_unit, push_comma_space,
};

verus! {

/// Which of the two emission policies the transform follows.
///
/// Wrap-and-forward is the canonical behaviour: both the dispatch wrapper and
/// the renamed private implementation are emitted.  Rename-only emits just
/// the renamed definition, with the original visibility and suspension kept;
/// the original name then no longer exists in the output.
#[derive(Clone, Copy, PartialEq, Eq, Structural, Debug)]
pub enum Strategy {
    WrapAndForward,
    RenameOnly,
}

/// The two definitions produced by one transformation.
pub struct TransformedPair {
    pub wrapper: FunctionSignature,
    pub implementation: FunctionSignature,
}

/// Ghost view of [`TransformedPair`].
pub ghost struct TransformedPairV {
    pub wrapper: FunctionSignatureV,
    pub implementation: FunctionSignatureV,
}

impl View for TransformedPair {
    type V = TransformedPairV;

    open spec fn view(&self) -> TransformedPairV {
        TransformedPairV { wrapper: self.wrapper@, implementation: self.implementation@ }
    }
}

/// The derived private implementation name: the fixed prefix `do_` followed
/// by the original name.
pub open spec fn derived_name(name: Seq<u8>) -> Seq<u8> {
    lit_impl_prefix() + name
}

/// The ordered forwarding list: the bare identifier of every identifier-bound
/// value parameter, in declaration order; receivers and pattern-bound
/// parameters contribute nothing.
pub open spec fn forward_args(ps: Seq<ParamV>) -> Seq<Seq<u8>>
    decreases ps.len(),
{
    if ps.len() == 0 {
        Seq::empty()
    } else {
        forward_args(ps.drop_last()) + if ps.last().kind == ParamKind::Ident {
            seq![ps.last().ident]
        } else {
            Seq::empty()
        }
    }
}

/// The argument list text: the forwarded names separated by `, `.
pub open spec fn join_args(args: Seq<Seq<u8>>) -> Seq<u8>
    decreases args.len(),
{
    if args.len() == 0 {
        Seq::empty()
    } else if args.len() == 1 {
        args[0]
    } else {
        join_args(args.drop_last()) + lit_comma_space() + args.last()
    }
}

/// The synthesized wrapper body: call the implementation on the forwarded
/// arguments, suspend on the call exactly when the original suspends, and
/// hand the whole result value to the envelope constructor.
pub open spec fn wrapper_body(impl_name: Seq<u8>, args: Seq<Seq<u8>>, suspending: bool) -> Seq<u8> {
    lit_wrapper_open() + impl_name + seq![40u8] + join_args(args) + seq![41u8] + (
        if suspending {
            lit_await()
        } else {
            Seq::empty()
        }
    ) + lit_wrapper_close()
}

/// The declared return type, or the unit type when none is declared.
pub open spec fn ret_or_unit(ret: Option<Seq<u8>>) -> Seq<u8> {
    match ret {
        Option::Some(t) => t,
        Option::None => lit_unit(),
    }
}

/// The wrapper's declared return type: the delivery envelope applied to the
/// original return type.
pub open spec fn envelope_type(t: Seq<u8>) -> Seq<u8> {
    lit_envelope_open() + t + seq![62u8]
}

/// What one transformation produces from a signature `s`.
///
/// The wrapper keeps name, visibility, generics, parameters and suspension,
/// returns the enveloped original return type, and carries the synthesized
/// forwarding body.  The implementation keeps everything but its name, which
/// is the derived one, and its visibility, which is forced private.
pub open spec fn spec_transform(s: FunctionSignatureV) -> TransformedPairV {
    TransformedPairV {
        wrapper: FunctionSignatureV {
            visibility: s.visibility,
            is_suspending: s.is_suspending,
            name: s.name,
            generics: s.generics,
            params: s.params,
            return_type: Option::Some(envelope_type(ret_or_unit(s.return_type))),
            body: wrapper_body(derived_name(s.name), forward_args(s.params), s.is_suspending),
        },
        implementation: FunctionSignatureV {
            visibility: VisibilityV { kind: VisKind::Private, restriction: Seq::empty() },
            is_suspending: s.is_suspending,
            name: derived_name(s.name),
            generics: s.generics,
            params: s.params,
            return_type: s.return_type,
            body: s.body,
        },
    }
}

/// Fresh copy of a byte buffer.
pub fn copy_bytes(s: &Vec<u8>) -> (r: Vec<u8>)
    ensures
        r@ == s@,
{
    let mut out: Vec<u8> = Vec::new();
    push_range(&mut out, s, 0, s.len());
    assert(s@.subrange(0, s.len() as int) =~= s@);
    out
}

/// Fresh copy of an optional byte buffer.
pub fn copy_opt_bytes(s: &Option<Vec<u8>>) -> (r: Option<Vec<u8>>)
    ensures
        match s {
            Option::Some(t) => r matches Option::Some(u) && u@ == t@,
            Option::None => r.is_none(),
        },
{
    match s {
        Option::Some(t) => Option::Some(copy_bytes(t)),
        Option::None => Option::None,
    }
}

/// Fresh copy of a visibility.
pub fn copy_visibility(v: &Visibility) -> (r: Visibility)
    ensures
        r@ == v@,
{
    Visibility { kind: v.kind, restriction: copy_bytes(&v.restriction) }
}

/// Fresh copy of a parameter list.
pub fn copy_params(ps: &Vec<Param>) -> (r: Vec<Param>)
    ensures
        r@.map_values(|p: Param| p@) == ps@.map_values(|p: Param| p@),
{
    let mut out: Vec<Param> = Vec::new();
    let ghost psv = ps@.map_values(|p: Param| p@);
    assert(out@.map_values(|p: Param| p@) =~= psv.take(0));
    let mut k: usize = 0;
    while k < ps.len()
        invariant
            k <= ps.len(),
            psv == ps@.map_values(|p: Param| p@),
            out@.map_values(|p: Param| p@) =~= psv.take(k as int),
        decreases ps.len() - k,
    {
        let p = &ps[k];
        let copied = Param {
            kind: p.kind,
            binder: copy_bytes(&p.binder),
            ident: copy_bytes(&p.ident),
            ty: copy_bytes(&p.ty),
        };
        assert(copied@ == psv[k as int]);
        let ghost pre = out@;
        out.push(copied);
        proof {
            pre.lemma_push_map_commute(|q: Param| q@, copied);
        }
        assert(out@.map_values(|p: Param| p@) =~= psv.take(k + 1 as int));
        k = k + 1;
    }
    assert(psv.take(ps.len() as int) =~= psv);
    out
}

/// Derive the implementation name from the original name.
pub fn derive_impl_name(name: &Vec<u8>) -> (r: Vec<u8>)
    ensures
        r@ == derived_name(name@),
{
    let mut out: Vec<u8> = Vec::new();
    push_impl_prefix(&mut out);
    push_range(&mut out, name, 0, name.len());
    assert(name@.subrange(0, name.len() as int) =~= name@);
    out
}

/// Extract the forwarding list from a parameter list.
pub fn forward_list(ps: &Vec<Param>) -> (r: Vec<Vec<u8>>)
    ensures
        r@.map_values(|v: Vec<u8>| v@) == forward_args(ps@.map_values(|p: Param| p@)),
{
    let mut out: Vec<Vec<u8>> = Vec::new();
    let ghost psv = ps@.map_values(|p: Param| p@);
    assert(out@.map_values(|v: Vec<u8>| v@) =~= forward_args(psv.take(0)));
    let mut k: usize = 0;
    while k < ps.len()
        invariant
            k <= ps.len(),
            psv == ps@.map_values(|p: Param| p@),
            out@.map_values(|v: Vec<u8>| v@) == forward_args(psv.take(k as int)),
        decreases ps.len() - k,
    {
        let ghost before = out@.map_values(|v: Vec<u8>| v@);
        assert(psv.take(k + 1 as int).drop_last() =~= psv.take(k as int));
        assert(psv.take(k + 1 as int).last() == psv[k as int]);
        if ps[k].kind == ParamKind::Ident {
            let nb = copy_bytes(&ps[k].ident);
            let ghost pre = out@;
            out.push(nb);
            proof {
                pre.lemma_push_map_commute(|v: Vec<u8>| v@, nb);
            }
            assert(out@.map_values(|v: Vec<u8>| v@) =~= before + seq![psv[k as int].ident]);
        } else {
            assert(forward_args(psv.take(k + 1 as int)) =~= before);
        }
        k = k + 1;
    }
    assert(psv.take(ps.len() as int) =~= psv);
    out
}

/// Build the wrapper body text from the implementation name and the
/// forwarding list.
pub fn build_wrapper_body(impl_name: &Vec<u8>, args: &Vec<Vec<u8>>, suspending: bool) -> (r: Vec<
    u8,
>)
    ensures
        r@ == wrapper_body(impl_name@, args@.map_values(|v: Vec<u8>| v@), suspending),
{
    let ghost av = args@.map_values(|v: Vec<u8>| v@);
    let mut out: Vec<u8> = Vec::new();
    push_wrapper_open(&mut out);
    push_range(&mut out, impl_name, 0, impl_name.len());
    assert(impl_name@.subrange(0, impl_name.len() as int) =~= impl_name@);
    out.push(40u8);
    let ghost prefix = lit_wrapper_open() + impl_name@ + seq![40u8];
    assert(out@ =~= prefix + join_args(av.take(0)));
    let mut k: usize = 0;
    while k < args.len()
        invariant
            k <= args.len(),
            av == args@.map_values(|v: Vec<u8>| v@),
            prefix == lit_wrapper_open() + impl_name@ + seq![40u8],
            out@ == prefix + join_args(av.take(k as int)),
        decreases args.len() - k,
    {
        assert(av.take(k + 1 as int).drop_last() =~= av.take(k as int));
        assert(av.take(k + 1 as int).last() == av[k as int]);
        if k > 0 {
            push_comma_space(&mut out);
        }
        let a = &args[k];
        push_range(&mut out, a, 0, a.len());
        assert(a@.subrange(0, a.len() as int) =~= a@);
        assert(out@ =~= prefix + join_args(av.take(k + 1 as int)));
        k = k + 1;
    }
    assert(av.take(args.len() as int) =~= av);
    out.push(41u8);
    if suspending {
        push_await(&mut out);
    }
    push_wrapper_close(&mut out);
    assert(out@ =~= wrapper_body(impl_name@, av, suspending));
    out
}

/// Build the wrapper's declared return type from the original one.
pub fn build_envelope_type(ret: &Option<Vec<u8>>) -> (r: Vec<u8>)
    ensures
        r@ == envelope_type(ret_or_unit(
            match ret {
                Option::Some(t) => Option::Some(t@),
                Option::None => Option::None,
            },
        )),
{
    let mut out: Vec<u8> = Vec::new();
    push_envelope_open(&mut out);
    match ret {
        Option::Some(t) => {
            push_range(&mut out, t, 0, t.len());
            assert(t@.subrange(0, t.len() as int) =~= t@);
        }
        Option::None => {
            push_unit(&mut out);
        }
    }
    out.push(62u8);
    assert(out@ =~= envelope_type(ret_or_unit(
        match ret {
            Option::Some(t) => Option::Some(t@),
            Option::None => Option::None,
        },
    )));
    out
}

/// Synthesize the wrapper/implementation pair from one parsed signature.
pub fn transform(sig: &FunctionSignature) -> (pair: TransformedPair)
    ensures
        pair@ == spec_transform(sig@),
{
    let impl_name = derive_impl_name(&sig.name);
    let fwd = forward_list(&sig.params);
    let body = build_wrapper_body(&impl_name, &fwd, sig.is_suspending);
    let wrapper = FunctionSignature {
        visibility: copy_visibility(&sig.visibility),
        is_suspending: sig.is_suspending,
        name: copy_bytes(&sig.name),
        generics: copy_bytes(&sig.generics),
        params: copy_params(&sig.params),
        return_type: Option::Some(build_envelope_type(&sig.return_type)),
        body: body,
    };
    let implementation = FunctionSignature {
        visibility: Visibility { kind: VisKind::Private, restriction: Vec::new() },
        is_suspending: sig.is_suspending,
        name: impl_name,
        generics: copy_bytes(&sig.generics),
        params: copy_params(&sig.params),
        return_type: copy_opt_bytes(&sig.return_type),
        body: copy_bytes(&sig.body),
    };
    let pair = TransformedPair { wrapper, implementation };
    assert(pair@.wrapper == spec_transform(sig@).wrapper);
    assert(pair@.implementation == spec_transform(sig@).implementation);
    pair
}

} // verus!
