//! The structured model of annotated declarations.
//!
//! The transformer works on an ownership tree of plain values: identifiers
//! are interned as `u32` by the embedder, and every syntactic element that
//! the rewrite must preserve verbatim (attributes, doc comments, generic
//! parameters the rewrite does not touch, `where` predicates, method bodies)
//! is carried as an opaque interned token.

use vstd::prelude::*;

verus! {

/// A half-open region of the original source text, used to point
/// diagnostics at the offending construct.
#[derive(Clone, Copy, Debug, PartialEq, Eq, Structural)]
pub struct Span {
    pub lo: u32,
    pub hi: u32,
}

/// A borrow-scope marker as it may appear on a reference-shaped type.
///
/// `Implicit` is the unwritten scope of a bare `&` or `&mut`;
/// `Placeholder` is an explicitly written elision marker;
/// `CallScope` is the one scope the elaborator generates per method,
/// bounding the duration of a single call — surface syntax can never
/// contain it before elaboration;
/// `Named` is a user-written scope name, interned by the embedder.
#[derive(Clone, Copy, Debug, PartialEq, Eq, Structural)]
pub enum ScopeRef {
    Implicit,
    Placeholder,
    CallScope,
    Named(u32),
}

/// A tree-shaped type expression. Reference shapes may nest anywhere.
///
/// `RefAlias` is a user type alias known to expand to a reference: the
/// reference is not syntactically visible, so a scope can only be attached
/// through an explicit argument (`scope`); when none is written the
/// elaborator cannot rewrite it and must report the ambiguity.
///
/// `Handle` only occurs in rewritten output: the heap-owned, dynamically
/// dispatched handle to a deferred computation of `output`, bounded by
/// `scope` and, when `movable` holds, required to be transferable across
/// threads.
#[derive(Debug, PartialEq, Eq)]
pub enum TypeExpr {
    Unit,
    SelfType,
    Path { name: u32, args: TypeList },
    Reference { scope: ScopeRef, mutable: bool, inner: Box<TypeExpr> },
    RefAlias { name: u32, scope: Option<ScopeRef> },
    Handle { movable: bool, scope: ScopeRef, output: Box<TypeExpr> },
}

/// The arguments of an applied type constructor, as an owned list.
#[derive(Debug, PartialEq, Eq)]
pub enum TypeList {
    Empty,
    More(Box<TypeExpr>, Box<TypeList>),
}

/// How a method names its parameter binding.
///
/// `SelfName` marks the receiver binding; `InnerSelf` is the internal
/// rename the expansion gives the receiver when it becomes the first
/// parameter of the generated inner function; `Plain` is an ordinary
/// interned identifier.
#[derive(Clone, Copy, Debug, PartialEq, Eq, Structural)]
pub enum ParamName {
    SelfName,
    InnerSelf,
    Plain(u32),
}

/// One parameter of a method signature.
#[derive(Debug, PartialEq, Eq)]
pub struct Param {
    pub name: ParamName,
    pub ty: TypeExpr,
    pub span: Span,
}

/// The shape of a method's receiver.
#[derive(Clone, Copy, Debug, PartialEq, Eq, Structural)]
pub enum Receiver {
    ByValue,
    ByReference,
    ByMutableReference,
    NoReceiver,
}

/// A generic parameter of a method or declaration: either the generated
/// call scope or an opaque, verbatim-preserved token.
#[derive(Clone, Copy, Debug, PartialEq, Eq, Structural)]
pub enum GenericParam {
    CallScopeParam,
    Opaque(u32),
}

/// A capability bound the expansion may inject on the receiving type.
#[derive(Clone, Copy, Debug, PartialEq, Eq, Structural)]
pub enum Capability {
    ThreadShareable,
    ThreadMovable,
}

/// One `where`-style predicate: either an opaque, verbatim-preserved
/// token, or an injected capability bound on the receiving type, tied to
/// the given scope.
#[derive(Clone, Copy, Debug, PartialEq, Eq, Structural)]
pub enum WherePred {
    Opaque(u32),
    SelfBound { cap: Capability, scope: ScopeRef },
}

/// A method signature.
#[derive(Debug, PartialEq, Eq)]
pub struct MethodSig {
    pub name: u32,
    pub generics: Vec<GenericParam>,
    pub params: Vec<Param>,
    pub ret: TypeExpr,
    pub wheres: Vec<WherePred>,
    pub span: Span,
}

/// A method of a contract or implementation: attributes and doc comments
/// (opaque tokens), a signature, whether it is asynchronous, and its body
/// if it has one (an opaque token; contract methods may omit it).
#[derive(Debug, PartialEq, Eq)]
pub struct Method {
    pub attrs: Vec<u32>,
    pub sig: MethodSig,
    pub is_async: bool,
    pub body: Option<u32>,
}

/// An interface-like contract declaration.
#[derive(Debug, PartialEq, Eq)]
pub struct ContractDecl {
    pub attrs: Vec<u32>,
    pub name: u32,
    pub generics: Vec<GenericParam>,
    pub supers: Vec<u32>,
    pub methods: Vec<Method>,
    pub span: Span,
}

/// An implementation block: inherent, or binding `self_type` to the
/// contract named by `contract`.
#[derive(Debug, PartialEq, Eq)]
pub struct ImplDecl {
    pub attrs: Vec<u32>,
    pub generics: Vec<GenericParam>,
    pub self_type: TypeExpr,
    pub contract: Option<u32>,
    pub methods: Vec<Method>,
    pub span: Span,
}

/// An annotated item the transformer accepts.
#[derive(Debug, PartialEq, Eq)]
pub enum Item {
    Contract(ContractDecl),
    Implementation(ImplDecl),
}

/// What kind of error a diagnostic reports.
#[derive(Clone, Copy, Debug, PartialEq, Eq, Structural)]
pub enum DiagnosticKind {
    MalformedTarget,
    InvalidConfiguration,
    AmbiguousBorrowScope,
}

/// A structured diagnostic record: what went wrong and where.
#[derive(Clone, Copy, Debug, PartialEq, Eq, Structural)]
pub struct Diagnostic {
    pub kind: DiagnosticKind,
    pub span: Span,
}

impl Diagnostic {
    /// The human-readable message accompanying the span: what went wrong
    /// and, for an ambiguity, what the user should write instead.
    pub fn message(&self) -> (r: &'static str)
        ensures
            self.kind is MalformedTarget ==> r@
                == "this attribute only applies to contract declarations and implementation blocks"@,
            self.kind is InvalidConfiguration ==> r@ == "unrecognized configuration argument"@,
            self.kind is AmbiguousBorrowScope ==> r@
                == "a hidden reference needs a named scope or an explicit placeholder"@,
    {
        proof {
            reveal_strlit(
                "this attribute only applies to contract declarations and implementation blocks",
            );
            reveal_strlit("unrecognized configuration argument");
            reveal_strlit("a hidden reference needs a named scope or an explicit placeholder");
        }
        match self.kind {
            DiagnosticKind::MalformedTarget => {
                "this attribute only applies to contract declarations and implementation blocks"
            },
            DiagnosticKind::InvalidConfiguration => "unrecognized configuration argument",
            DiagnosticKind::AmbiguousBorrowScope => {
                "a hidden reference needs a named scope or an explicit placeholder"
            },
        }
    }
}

/// The per-invocation configuration, set once from the attribute's
/// argument and passed through the pipeline; never shared across items.
#[derive(Clone, Copy, Debug, PartialEq, Eq, Structural)]
pub struct ExpansionContext {
    pub local: bool,
}

} // verus!
