//! The structured shape of one function definition, as the transform sees it.
//!
//! Identifier, type and body text is carried as bytes, verbatim; the parts the
//! transform must reason about (visibility, suspension, the binding form of
//! each parameter) are explicit tags.  Each executable type has a ghost view
//! over `Seq<u8>` that the contracts speak of.

use vstd::prelude::*;

verus! {

/// How a function is scoped in its enclosing module.
#[derive(Clone, Copy, PartialEq, Eq, Structural, Debug)]
pub enum VisKind {
    /// No visibility qualifier.
    Private,
    /// `pub(...)` with a restriction path.
    Restricted,
    /// `pub`.
    Public,
}

/// A function's visibility.  `restriction` holds the text inside the
/// parentheses of a restricted visibility (for example `crate`), and is empty
/// for the other two kinds.
pub struct Visibility {
    pub kind: VisKind,
    pub restriction: Vec<u8>,
}

/// Ghost view of [`Visibility`].
pub ghost struct VisibilityV {
    pub kind: VisKind,
    pub restriction: Seq<u8>,
}

impl View for Visibility {
    type V = VisibilityV;

    open spec fn view(&self) -> VisibilityV {
        VisibilityV { kind: self.kind, restriction: self.restriction@ }
    }
}

/// How one parameter binds its argument.
#[derive(Clone, Copy, PartialEq, Eq, Structural, Debug)]
pub enum ParamKind {
    /// The receiver (`self`, `&self`, `&mut self`, `mut self`); at most one,
    /// and only in first position.
    Receiver,
    /// A value parameter bound to a plain identifier; forwardable.
    Ident,
    /// A value parameter bound through a destructuring pattern; not
    /// forwardable by name.
    Patterned,
}

/// One parameter of a function definition.
///
/// `binder` is the binding text verbatim: the receiver's declaration, the
/// identifier with any `mut` binding prefix, or the whole destructuring
/// pattern.  `ident` is the bare identifier an identifier-bound parameter
/// forwards under, and is empty for the other two kinds.  `ty` is the
/// declared type text, empty for a receiver.
pub struct Param {
    pub kind: ParamKind,
    pub binder: Vec<u8>,
    pub ident: Vec<u8>,
    pub ty: Vec<u8>,
}

/// Ghost view of [`Param`].
pub ghost struct ParamV {
    pub kind: ParamKind,
    pub binder: Seq<u8>,
    pub ident: Seq<u8>,
    pub ty: Seq<u8>,
}

impl View for Param {
    type V = ParamV;

    open spec fn view(&self) -> ParamV {
        ParamV { kind: self.kind, binder: self.binder@, ident: self.ident@, ty: self.ty@ }
    }
}

/// The parsed shape of one function definition.
///
/// `generics` is the whole generic parameter list verbatim, angle brackets
/// included, and is empty when the definition has none.  `return_type` is the
/// declared type text; `None` means the definition declares no return type.
/// `body` is the block verbatim, braces included; the transform never looks
/// inside it.
pub struct FunctionSignature {
    pub visibility: Visibility,
    pub is_suspending: bool,
    pub name: Vec<u8>,
    pub generics: Vec<u8>,
    pub params: Vec<Param>,
    pub return_type: Option<Vec<u8>>,
    pub body: Vec<u8>,
}

/// Ghost view of [`FunctionSignature`].
pub ghost struct FunctionSignatureV {
    pub visibility: VisibilityV,
    pub is_suspending: bool,
    pub name: Seq<u8>,
    pub generics: Seq<u8>,
    pub params: Seq<ParamV>,
    pub return_type: Option<Seq<u8>>,
    pub body: Seq<u8>,
}

impl View for FunctionSignature {
    type V = FunctionSignatureV;

    open spec fn view(&self) -> FunctionSignatureV {
        FunctionSignatureV {
            visibility: self.visibility@,
            is_suspending: self.is_suspending,
            name: self.name@,
            generics: self.generics@,
            params: self.params@.map_values(|p: Param| p@),
            return_type: match self.return_type {
                Option::Some(t) => Option::Some(t@),
                Option::None => Option::None,
            },
            body: self.body@,
        }
    }
}

/// A parameter list is well formed when a receiver can stand only in first
/// position (so there is at most one).
pub open spec fn wf_params(ps: Seq<ParamV>) -> bool {
    forall|i: int| 0 <= i < ps.len() && ps[i].kind == ParamKind::Receiver ==> i == 0
}

/// A signature is well formed when its parameter list is.
pub open spec fn wf_sig(s: FunctionSignatureV) -> bool {
    wf_params(s.params)
}

} // verus!
