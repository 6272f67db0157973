//! The signature parser: from the raw text of one function definition to a
//! [`FunctionSignature`].
//!
//! The grammar accepted is
//! `[pub | pub(path)] [async] fn name [<generics>] ( params ) [-> type] { body }`
//! with free whitespace between tokens.  Generics, parameter types, the
//! return type and the body are carried verbatim.  A parameter is a receiver
//! (`self`, `&self`, `&mut self`, `mut self`, first position only), an
//! identifier binding `name: Type`, or a destructuring pattern `pat: Type`.
//! Anything else is a malformed input and the parse fails as a whole.
//!
//! The spec functions in this module are the authoritative definition of the
//! grammar; each executable function's contract ties it to them exactly.

use vstd::prelude::*;

use crate::scan::{
    is_ident_start, is_ident_char, skip_ws, scan_ident_end, trim_end, scan_angle, scan_paren,
    scan_block_end, scan_param_end, scan_type_end, scan_colon, lemma_skip_ws_bounds,
    lemma_scan_param_end_bounds, ident_start_byte, ident_char_byte, skip_ws_at, ident_end_at,
    trim_end_at, angle_close_at, paren_close_at, block_end_at, param_end_at, type_end_at,
    colon_at, copy_range,
};
use crate::sig::{
    VisKind, Visibility, VisibilityV, ParamKind, Param, ParamV, FunctionSignature,
    FunctionSignatureV, wf_params, wf_sig,
};

verus! {

/// The input is not a well-formed function definition; the transformation
/// aborts as a whole and produces no output.
#[derive(Clone, Copy, PartialEq, Eq, Structural, Debug)]
pub struct MalformedInputError;

/// Position `j` does not continue an identifier (so an identifier ending
/// there is complete).
pub open spec fn at_boundary(s: Seq<u8>, j: int, hi: int) -> bool {
    j >= hi || !is_ident_char(s[j])
}

/// The keyword `pub` stands at `i`.
pub open spec fn kw_pub_at(s: Seq<u8>, i: int, hi: int) -> bool {
    &&& i + 3 <= hi
    &&& hi <= s.len()
    &&& s[i] == 112u8
    &&& s[i + 1] == 117u8
    &&& s[i + 2] == 98u8
    &&& at_boundary(s, i + 3, hi)
}

/// The keyword `async` stands at `i`.
pub open spec fn kw_async_at(s: Seq<u8>, i: int, hi: int) -> bool {
    &&& i + 5 <= hi
    &&& hi <= s.len()
    &&& s[i] == 97u8
    &&& s[i + 1] == 115u8
    &&& s[i + 2] == 121u8
    &&& s[i + 3] == 110u8
    &&& s[i + 4] == 99u8
    &&& at_boundary(s, i + 5, hi)
}

/// The keyword `fn` stands at `i`.
pub open spec fn kw_fn_at(s: Seq<u8>, i: int, hi: int) -> bool {
    &&& i + 2 <= hi
    &&& hi <= s.len()
    &&& s[i] == 102u8
    &&& s[i + 1] == 110u8
    &&& at_boundary(s, i + 2, hi)
}

/// The keyword `mut` stands at `i`.
pub open spec fn kw_mut_at(s: Seq<u8>, i: int, hi: int) -> bool {
    &&& i + 3 <= hi
    &&& hi <= s.len()
    &&& s[i] == 109u8
    &&& s[i + 1] == 117u8
    &&& s[i + 2] == 116u8
    &&& at_boundary(s, i + 3, hi)
}

/// Executable mirror of [`kw_pub_at`].
pub fn kw_pub(s: &Vec<u8>, i: usize, hi: usize) -> (r: bool)
    requires
        i <= hi,
        hi <= s.len(),
    ensures
        r == kw_pub_at(s@, i as int, hi as int),
{
    hi - i >= 3 && s[i] == 112 && s[i + 1] == 117 && s[i + 2] == 98
        && (i + 3 >= hi || !ident_char_byte(s[i + 3]))
}

/// Executable mirror of [`kw_async_at`].
pub fn kw_async(s: &Vec<u8>, i: usize, hi: usize) -> (r: bool)
    requires
        i <= hi,
        hi <= s.len(),
    ensures
        r == kw_async_at(s@, i as int, hi as int),
{
    hi - i >= 5 && s[i] == 97 && s[i + 1] == 115 && s[i + 2] == 121 && s[i + 3] == 110
        && s[i + 4] == 99 && (i + 5 >= hi || !ident_char_byte(s[i + 5]))
}

/// Executable mirror of [`kw_fn_at`].
pub fn kw_fn(s: &Vec<u8>, i: usize, hi: usize) -> (r: bool)
    requires
        i <= hi,
        hi <= s.len(),
    ensures
        r == kw_fn_at(s@, i as int, hi as int),
{
    hi - i >= 2 && s[i] == 102 && s[i + 1] == 110 && (i + 2 >= hi || !ident_char_byte(s[i + 2]))
}

/// Executable mirror of [`kw_mut_at`].
pub fn kw_mut(s: &Vec<u8>, i: usize, hi: usize) -> (r: bool)
    requires
        i <= hi,
        hi <= s.len(),
    ensures
        r == kw_mut_at(s@, i as int, hi as int),
{
    hi - i >= 3 && s[i] == 109 && s[i + 1] == 117 && s[i + 2] == 116
        && (i + 3 >= hi || !ident_char_byte(s[i + 3]))
}

/// The trimmed text `s[lo .. hi]` is a receiver declaration: an optional `&`,
/// then optionally `mut`, then exactly `self`.
pub open spec fn is_receiver_text(s: Seq<u8>, lo: int, hi: int) -> bool {
    let p = if lo < hi && hi <= s.len() && s[lo] == 38u8 {
        lo + 1
    } else {
        lo
    };
    let q = skip_ws(s, p, hi);
    let r = if kw_mut_at(s, q, hi) {
        skip_ws(s, q + 3, hi)
    } else {
        q
    };
    &&& hi <= s.len()
    &&& r + 4 == hi
    &&& s[r] == 115u8
    &&& s[r + 1] == 101u8
    &&& s[r + 2] == 108u8
    &&& s[r + 3] == 102u8
}

/// Executable mirror of [`is_receiver_text`].
pub fn receiver_text(s: &Vec<u8>, lo: usize, hi: usize) -> (r: bool)
    requires
        lo <= hi,
        hi <= s.len(),
    ensures
        r == is_receiver_text(s@, lo as int, hi as int),
{
    let p: usize = if lo < hi && s[lo] == 38 {
        lo + 1
    } else {
        lo
    };
    let q = skip_ws_at(s, p, hi);
    let r: usize = if kw_mut(s, q, hi) {
        skip_ws_at(s, q + 3, hi)
    } else {
        q
    };
    hi - r == 4 && s[r] == 115 && s[r + 1] == 101 && s[r + 2] == 108 && s[r + 3] == 102
}

/// Start of the bare identifier of an identifier binding: past an optional
/// `mut` binding prefix.
pub open spec fn ident_binder_lo(s: Seq<u8>, lo: int, hi: int) -> int {
    if kw_mut_at(s, lo, hi) {
        skip_ws(s, lo + 3, hi)
    } else {
        lo
    }
}

/// The trimmed text `s[lo .. hi]` is a plain identifier binding: optionally
/// `mut`, then a single identifier reaching to `hi`.
pub open spec fn is_plain_ident(s: Seq<u8>, lo: int, hi: int) -> bool {
    let l = ident_binder_lo(s, lo, hi);
    &&& l < hi
    &&& hi <= s.len()
    &&& is_ident_start(s[l])
    &&& scan_ident_end(s, l, hi) == hi
}

/// Executable mirror of [`ident_binder_lo`].
pub fn ident_binder_start(s: &Vec<u8>, lo: usize, hi: usize) -> (r: usize)
    requires
        lo <= hi,
        hi <= s.len(),
    ensures
        r == ident_binder_lo(s@, lo as int, hi as int),
        lo <= r <= hi,
{
    if kw_mut(s, lo, hi) {
        skip_ws_at(s, lo + 3, hi)
    } else {
        lo
    }
}

/// Executable mirror of [`is_plain_ident`].
pub fn plain_ident(s: &Vec<u8>, lo: usize, hi: usize) -> (r: bool)
    requires
        lo <= hi,
        hi <= s.len(),
    ensures
        r == is_plain_ident(s@, lo as int, hi as int),
{
    let l = ident_binder_start(s, lo, hi);
    l < hi && ident_start_byte(s[l]) && ident_end_at(s, l, hi) == hi
}

/// Classification of one raw parameter `s[lo .. hi]` (terminator excluded):
/// a receiver, an identifier binding, or a pattern binding; `None` when the
/// text is empty or has no top-level `:` where one is required.
pub open spec fn classify_param(s: Seq<u8>, lo: int, hi: int) -> Option<ParamV> {
    let l = skip_ws(s, lo, hi);
    let h = trim_end(s, l, hi);
    if l >= h {
        Option::None
    } else if is_receiver_text(s, l, h) {
        Option::Some(ParamV {
            kind: ParamKind::Receiver,
            binder: s.subrange(l, h),
            ident: Seq::empty(),
            ty: Seq::empty(),
        })
    } else {
        match scan_colon(s, l, h, 0) {
            Option::None => Option::None,
            Option::Some(c) => {
                let ph = trim_end(s, l, c);
                let tl = skip_ws(s, c + 1, h);
                if ph <= l || tl >= h {
                    Option::None
                } else if is_plain_ident(s, l, ph) {
                    Option::Some(ParamV {
                        kind: ParamKind::Ident,
                        binder: s.subrange(l, ph),
                        ident: s.subrange(ident_binder_lo(s, l, ph), ph),
                        ty: s.subrange(tl, h),
                    })
                } else {
                    Option::Some(ParamV {
                        kind: ParamKind::Patterned,
                        binder: s.subrange(l, ph),
                        ident: Seq::empty(),
                        ty: s.subrange(tl, h),
                    })
                }
            }
        }
    }
}

/// Executable mirror of [`classify_param`].
pub fn classify_at(s: &Vec<u8>, lo: usize, hi: usize) -> (r: Option<Param>)
    requires
        lo <= hi,
        hi <= s.len(),
    ensures
        match r {
            Option::Some(p) => classify_param(s@, lo as int, hi as int) == Option::Some(p@),
            Option::None => classify_param(s@, lo as int, hi as int).is_none(),
        },
{
    let l = skip_ws_at(s, lo, hi);
    let h = trim_end_at(s, l, hi);
    if l >= h {
        Option::None
    } else if receiver_text(s, l, h) {
        Option::Some(Param {
            kind: ParamKind::Receiver,
            binder: copy_range(s, l, h),
            ident: Vec::new(),
            ty: Vec::new(),
        })
    } else {
        match colon_at(s, l, h, 0) {
            Option::None => Option::None,
            Option::Some(c) => {
                let ph = trim_end_at(s, l, c);
                let tl = skip_ws_at(s, c + 1, h);
                if ph <= l || tl >= h {
                    Option::None
                } else if plain_ident(s, l, ph) {
                    let bl = ident_binder_start(s, l, ph);
                    Option::Some(Param {
                        kind: ParamKind::Ident,
                        binder: copy_range(s, l, ph),
                        ident: copy_range(s, bl, ph),
                        ty: copy_range(s, tl, h),
                    })
                } else {
                    Option::Some(Param {
                        kind: ParamKind::Patterned,
                        binder: copy_range(s, l, ph),
                        ident: Vec::new(),
                        ty: copy_range(s, tl, h),
                    })
                }
            }
        }
    }
}

/// Parameters parsed from `i` (just past `(` or a separating `,`) up to and
/// including the closing `)`; yields the parameters in declaration order and
/// the position just past the `)`.  A receiver is accepted only as the first
/// parameter of the list.
pub open spec fn parse_params(s: Seq<u8>, i: int, first: bool) -> Option<(Seq<ParamV>, int)>
    decreases s.len() - i,
    via parse_params_decreases
{
    let n = s.len() as int;
    let j = skip_ws(s, i, n);
    if j < n && s[j] == 41u8 {
        Option::Some((Seq::empty(), j + 1))
    } else {
        match scan_param_end(s, j, n, 0) {
            Option::None => Option::None,
            Option::Some(e) => match classify_param(s, j, e) {
                Option::None => Option::None,
                Option::Some(p) => {
                    if p.kind == ParamKind::Receiver && !first {
                        Option::None
                    } else if s[e] == 41u8 {
                        Option::Some((seq![p], e + 1))
                    } else {
                        match parse_params(s, e + 1, false) {
                            Option::None => Option::None,
                            Option::Some((rest, after)) => Option::Some((seq![p] + rest, after)),
                        }
                    }
                }
            },
        }
    }
}

#[via_fn]
proof fn parse_params_decreases(s: Seq<u8>, i: int, first: bool) {
    let n = s.len() as int;
    lemma_skip_ws_bounds(s, i, n);
    lemma_scan_param_end_bounds(s, skip_ws(s, i, n), n, 0);
}

/// No parameter of `ps` is a receiver.
pub open spec fn no_receiver(ps: Seq<ParamV>) -> bool {
    forall|i: int| 0 <= i < ps.len() ==> ps[i].kind != ParamKind::Receiver
}

/// A parsed parameter list is well formed: parsing with `first` set yields a
/// list whose receivers can stand only at index zero, and parsing a tail
/// (with `first` unset) yields no receiver at all.
pub proof fn lemma_parse_params_wf(s: Seq<u8>, i: int, first: bool)
    ensures
        match parse_params(s, i, first) {
            Option::Some(r) => wf_params(r.0) && (!first ==> no_receiver(r.0)),
            Option::None => true,
        },
    decreases s.len() - i,
{
    let n = s.len() as int;
    lemma_skip_ws_bounds(s, i, n);
    let j = skip_ws(s, i, n);
    lemma_scan_param_end_bounds(s, j, n, 0);
    if j < n && s[j] == 41u8 {
    } else {
        match scan_param_end(s, j, n, 0) {
            Option::None => {},
            Option::Some(e) => match classify_param(s, j, e) {
                Option::None => {},
                Option::Some(p) => {
                    if p.kind == ParamKind::Receiver && !first {
                    } else if s[e] == 41u8 {
                    } else {
                        lemma_parse_params_wf(s, e + 1, false);
                    }
                }
            },
        }
    }
}

/// Executable mirror of [`parse_params`].
pub fn params_at(s: &Vec<u8>, i: usize, first: bool) -> (r: Option<(Vec<Param>, usize)>)
    requires
        i <= s.len(),
    ensures
        match r {
            Option::Some(pr) => parse_params(s@, i as int, first)
                == Option::Some((pr.0@.map_values(|p: Param| p@), pr.1 as int))
                && pr.1 <= s.len(),
            Option::None => parse_params(s@, i as int, first).is_none(),
        },
    decreases s.len() - i,
{
    let n = s.len();
    let j = skip_ws_at(s, i, n);
    if j < n && s[j] == 41 {
        let empty_params: Vec<Param> = Vec::new();
        assert(empty_params@.map_values(|p: Param| p@) =~= Seq::<ParamV>::empty());
        Option::Some((empty_params, j + 1))
    } else {
        match param_end_at(s, j, n, 0) {
            Option::None => Option::None,
            Option::Some(e) => match classify_at(s, j, e) {
                Option::None => Option::None,
                Option::Some(p) => {
                    if p.kind == ParamKind::Receiver && !first {
                        Option::None
                    } else if s[e] == 41 {
                        let ghost pv = p@;
                        let mut one: Vec<Param> = Vec::new();
                        one.push(p);
                        assert(one@.map_values(|q: Param| q@) =~= seq![pv]);
                        Option::Some((one, e + 1))
                    } else {
                        match params_at(s, e + 1, false) {
                            Option::None => Option::None,
                            Option::Some((mut rest, after)) => {
                                let ghost pv = p@;
                                let ghost restv = rest@.map_values(|q: Param| q@);
                                let mut all: Vec<Param> = Vec::new();
                                all.push(p);
                                all.append(&mut rest);
                                assert(all@.map_values(|q: Param| q@) =~= seq![pv] + restv);
                                Option::Some((all, after))
                            }
                        }
                    }
                }
            },
        }
    }
}

/// Visibility parsed at `i`: `pub(path)`, bare `pub`, or nothing (private);
/// yields the visibility and the position just past it.  `None` only when a
/// `pub(` restriction never closes or its path is empty.
pub open spec fn parse_vis(s: Seq<u8>, i: int) -> Option<(VisibilityV, int)> {
    let n = s.len() as int;
    if kw_pub_at(s, i, n) {
        let j = skip_ws(s, i + 3, n);
        if j < n && s[j] == 40u8 {
            match scan_paren(s, j + 1, n, 1) {
                Option::None => Option::None,
                Option::Some(c) => {
                    let pl = skip_ws(s, j + 1, c - 1);
                    let ph = trim_end(s, pl, c - 1);
                    if pl >= ph {
                        Option::None
                    } else {
                        Option::Some((
                            VisibilityV { kind: VisKind::Restricted, restriction: s.subrange(pl, ph) },
                            c,
                        ))
                    }
                }
            }
        } else {
            Option::Some((VisibilityV { kind: VisKind::Public, restriction: Seq::empty() }, i + 3))
        }
    } else {
        Option::Some((VisibilityV { kind: VisKind::Private, restriction: Seq::empty() }, i))
    }
}

/// Executable mirror of [`parse_vis`].
pub fn vis_at(s: &Vec<u8>, i: usize) -> (r: Option<(Visibility, usize)>)
    requires
        i <= s.len(),
    ensures
        match r {
            Option::Some(vr) => parse_vis(s@, i as int) == Option::Some((vr.0@, vr.1 as int))
                && vr.1 <= s.len(),
            Option::None => parse_vis(s@, i as int).is_none(),
        },
{
    let n = s.len();
    if kw_pub(s, i, n) {
        let j = skip_ws_at(s, i + 3, n);
        if j < n && s[j] == 40 {
            match paren_close_at(s, j + 1, n, 1) {
                Option::None => Option::None,
                Option::Some(c) => {
                    let pl = skip_ws_at(s, j + 1, c - 1);
                    let ph = trim_end_at(s, pl, c - 1);
                    if pl >= ph {
                        Option::None
                    } else {
                        Option::Some((
                            Visibility { kind: VisKind::Restricted, restriction: copy_range(s, pl, ph) },
                            c,
                        ))
                    }
                }
            }
        } else {
            Option::Some((Visibility { kind: VisKind::Public, restriction: Vec::new() }, i + 3))
        }
    } else {
        Option::Some((Visibility { kind: VisKind::Private, restriction: Vec::new() }, i))
    }
}

/// Last stage of the parse: the body block at `bpos` and nothing but
/// whitespace after it.
pub open spec fn finish_def(
    s: Seq<u8>,
    vis: VisibilityV,
    susp: bool,
    name: Seq<u8>,
    gen: Seq<u8>,
    params: Seq<ParamV>,
    ret: Option<Seq<u8>>,
    bpos: int,
) -> Option<FunctionSignatureV> {
    let n = s.len() as int;
    if bpos < n && s[bpos] == 123u8 {
        match scan_block_end(s, bpos + 1, n, 1) {
            Option::None => Option::None,
            Option::Some(be) => {
                if skip_ws(s, be, n) == n {
                    Option::Some(FunctionSignatureV {
                        visibility: vis,
                        is_suspending: susp,
                        name: name,
                        generics: gen,
                        params: params,
                        return_type: ret,
                        body: s.subrange(bpos, be),
                    })
                } else {
                    Option::None
                }
            }
        }
    } else {
        Option::None
    }
}

/// The whole grammar: one function definition and nothing else.
pub open spec fn parse_def(s: Seq<u8>) -> Option<FunctionSignatureV> {
    let n = s.len() as int;
    let i0 = skip_ws(s, 0, n);
    match parse_vis(s, i0) {
        Option::None => Option::None,
        Option::Some((vis, i1)) => {
            let i2 = skip_ws(s, i1, n);
            let susp = kw_async_at(s, i2, n);
            let i3 = if susp {
                skip_ws(s, i2 + 5, n)
            } else {
                i2
            };
            if !kw_fn_at(s, i3, n) {
                Option::None
            } else {
                let i4 = skip_ws(s, i3 + 2, n);
                if i4 >= n || !is_ident_start(s[i4]) {
                    Option::None
                } else {
                    let ne = scan_ident_end(s, i4, n);
                    let name = s.subrange(i4, ne);
                    let i5 = skip_ws(s, ne, n);
                    if i5 < n && s[i5] == 60u8 {
                        match scan_angle(s, i5 + 1, n, 1) {
                            Option::None => Option::None,
                            Option::Some(ge) => parse_after_generics(s, vis, susp, name, s.subrange(i5, ge), skip_ws(s, ge, n)),
                        }
                    } else {
                        parse_after_generics(s, vis, susp, name, Seq::empty(), i5)
                    }
                }
            }
        }
    }
}

/// The tail of the grammar after the optional generic parameter list:
/// parameters, optional return type, body.
pub open spec fn parse_after_generics(
    s: Seq<u8>,
    vis: VisibilityV,
    susp: bool,
    name: Seq<u8>,
    gen: Seq<u8>,
    i6: int,
) -> Option<FunctionSignatureV> {
    let n = s.len() as int;
    if !(i6 < n && s[i6] == 40u8) {
        Option::None
    } else {
        match parse_params(s, i6 + 1, true) {
            Option::None => Option::None,
            Option::Some((params, i7)) => {
                let i8 = skip_ws(s, i7, n);
                if i8 < n && s[i8] == 45u8 && i8 + 1 < n && s[i8 + 1] == 62u8 {
                    let tl = skip_ws(s, i8 + 2, n);
                    match scan_type_end(s, tl, n, 0) {
                        Option::None => Option::None,
                        Option::Some(bpos) => {
                            let th = trim_end(s, tl, bpos);
                            if tl >= th {
                                Option::None
                            } else {
                                finish_def(s, vis, susp, name, gen, params, Option::Some(s.subrange(tl, th)), bpos)
                            }
                        }
                    }
                } else if i8 < n && s[i8] == 123u8 {
                    finish_def(s, vis, susp, name, gen, params, Option::None, i8)
                } else {
                    Option::None
                }
            }
        }
    }
}

/// Parse one function definition, as the grammar above defines it.  Succeeds
/// exactly on the inputs the grammar accepts, and then yields the structured
/// signature the grammar assigns to the text, whose parameter list keeps any
/// receiver in first position only.
pub fn parse_function(src: &Vec<u8>) -> (r: Result<FunctionSignature, MalformedInputError>)
    ensures
        match r {
            Result::Ok(sig) => parse_def(src@) == Option::Some(sig@) && wf_sig(sig@),
            Result::Err(_) => parse_def(src@).is_none(),
        },
{
    let n = src.len();
    let i0 = skip_ws_at(src, 0, n);
    match vis_at(src, i0) {
        Option::None => Result::Err(MalformedInputError),
        Option::Some((vis, i1)) => {
            let i2 = skip_ws_at(src, i1, n);
            let susp = kw_async(src, i2, n);
            let i3: usize = if susp {
                skip_ws_at(src, i2 + 5, n)
            } else {
                i2
            };
            if !kw_fn(src, i3, n) {
                Result::Err(MalformedInputError)
            } else {
                let i4 = skip_ws_at(src, i3 + 2, n);
                if i4 >= n || !ident_start_byte(src[i4]) {
                    Result::Err(MalformedInputError)
                } else {
                    let ne = ident_end_at(src, i4, n);
                    let name = copy_range(src, i4, ne);
                    let i5 = skip_ws_at(src, ne, n);
                    if i5 < n && src[i5] == 60 {
                        match angle_close_at(src, i5 + 1, n, 1) {
                            Option::None => Result::Err(MalformedInputError),
                            Option::Some(ge) => {
                                let gen = copy_range(src, i5, ge);
                                let i6 = skip_ws_at(src, ge, n);
                                after_generics_at(src, vis, susp, name, gen, i6)
                            }
                        }
                    } else {
                        after_generics_at(src, vis, susp, name, Vec::new(), i5)
                    }
                }
            }
        }
    }
}

/// Executable mirror of [`parse_after_generics`]; finishes the parse started
/// by [`parse_function`].
fn after_generics_at(
    src: &Vec<u8>,
    vis: Visibility,
    susp: bool,
    name: Vec<u8>,
    gen: Vec<u8>,
    i6: usize,
) -> (r: Result<FunctionSignature, MalformedInputError>)
    requires
        i6 <= src.len(),
    ensures
        match r {
            Result::Ok(sig) => parse_after_generics(src@, vis@, susp, name@, gen@, i6 as int)
                == Option::Some(sig@) && wf_sig(sig@),
            Result::Err(_) => parse_after_generics(src@, vis@, susp, name@, gen@, i6 as int).is_none(),
        },
{
    let n = src.len();
    if !(i6 < n && src[i6] == 40) {
        Result::Err(MalformedInputError)
    } else {
        proof {
            lemma_parse_params_wf(src@, i6 + 1 as int, true);
        }
        match params_at(src, i6 + 1, true) {
            Option::None => Result::Err(MalformedInputError),
            Option::Some((params, i7)) => {
                let i8 = skip_ws_at(src, i7, n);
                if i8 < n && src[i8] == 45 && i8 + 1 < n && src[i8 + 1] == 62 {
                    let tl = skip_ws_at(src, i8 + 2, n);
                    match type_end_at(src, tl, n, 0) {
                        Option::None => Result::Err(MalformedInputError),
                        Option::Some(bpos) => {
                            let th = trim_end_at(src, tl, bpos);
                            if tl >= th {
                                Result::Err(MalformedInputError)
                            } else {
                                let ret = copy_range(src, tl, th);
                                finish_at(src, vis, susp, name, gen, params, Option::Some(ret), bpos)
                            }
                        }
                    }
                } else if i8 < n && src[i8] == 123 {
                    finish_at(src, vis, susp, name, gen, params, Option::None, i8)
                } else {
                    Result::Err(MalformedInputError)
                }
            }
        }
    }
}

/// Executable mirror of [`finish_def`].
fn finish_at(
    src: &Vec<u8>,
    vis: Visibility,
    susp: bool,
    name: Vec<u8>,
    gen: Vec<u8>,
    params: Vec<Param>,
    ret: Option<Vec<u8>>,
    bpos: usize,
) -> (r: Result<FunctionSignature, MalformedInputError>)
    requires
        bpos <= src.len(),
        wf_params(params@.map_values(|p: Param| p@)),
    ensures
        match r {
            Result::Ok(sig) => finish_def(
                src@,
                vis@,
                susp,
                name@,
                gen@,
                params@.map_values(|p: Param| p@),
                match ret {
                    Option::Some(t) => Option::Some(t@),
                    Option::None => Option::None,
                },
                bpos as int,
            ) == Option::Some(sig@) && wf_sig(sig@),
            Result::Err(_) => finish_def(
                src@,
                vis@,
                susp,
                name@,
                gen@,
                params@.map_values(|p: Param| p@),
                match ret {
                    Option::Some(t) => Option::Some(t@),
                    Option::None => Option::None,
                },
                bpos as int,
            ).is_none(),
        },
{
    let n = src.len();
    if bpos < n && src[bpos] == 123 {
        match block_end_at(src, bpos + 1, n, 1) {
            Option::None => Result::Err(MalformedInputError),
            Option::Some(be) => {
                if skip_ws_at(src, be, n) == n {
                    let body = copy_range(src, bpos, be);
                    Result::Ok(FunctionSignature {
                        visibility: vis,
                        is_suspending: susp,
                        name: name,
                        generics: gen,
                        params: params,
                        return_type: ret,
                        body: body,
                    })
                } else {
                    Result::Err(MalformedInputError)
                }
            }
        }
    } else {
        Result::Err(MalformedInputError)
    }
}

} // verus!
