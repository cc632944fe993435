//! The expansion engine.
//!
//! Every asynchronous method of a contract declaration or implementation
//! block is rewritten into an outer synchronous method returning a
//! heap-owned, dynamically dispatched handle to a deferred computation of
//! the original return type, plus — when the method has a body — a private
//! inner freestanding function that keeps the original body verbatim. The
//! outer method's body becomes the single expression that calls the inner
//! function with the receiver and every parameter and boxes the result;
//! that expression is fully determined by the rewritten signature and the
//! inner function, so the model carries no separate copy of it. Synchronous
//! methods, and every non-method element of the declaration, pass through
//! unchanged.
//!
//! A capability bound injected on a default-body method can make the
//! contract unusable as a dynamically dispatched object. The engine
//! neither detects nor resolves that conflict: it is surfaced downstream
//! by the host compiler as an ordinary object-safety violation, and
//! resolving it — a supertrait bound, or scoping the method out of dynamic
//! dispatch — is the user's choice, not a rewrite this engine may guess.

use vstd::prelude::*;

use crate::ast::{
    Capability, ContractDecl, Diagnostic, DiagnosticKind, ExpansionContext, GenericParam, ImplDecl,
    Item, Method, MethodSig, Param, ParamName, Receiver, ScopeRef, Span, TypeExpr, TypeList,
    WherePred,
};
use crate::lifetime::{
    elaborate_sig, spec_ambiguity_span, spec_elab_param, spec_elab_type, spec_sig_ambiguous,
};
use crate::receiver::{classify_receiver, spec_classify};

verus! {

/// The private inner freestanding function generated for an asynchronous
/// method with a body: the same generic parameters as the elaborated outer
/// signature, the receiver renamed and turned into a plain parameter of
/// the receiving type, all other parameters and the return type as
/// originally written, and the original body verbatim.
#[derive(Debug, PartialEq, Eq)]
pub struct InnerFn {
    pub name: u32,
    pub generics: Vec<GenericParam>,
    pub params: Vec<Param>,
    pub ret: TypeExpr,
    pub body: u32,
}

/// A rewritten asynchronous method: the original attributes and doc
/// comments, the rewritten outer signature, and the inner function when
/// the method had a body. A contract method without a default body keeps
/// no body after rewriting either: only its signature changes.
#[derive(Debug, PartialEq, Eq)]
pub struct ExpandedMethod {
    pub attrs: Vec<u32>,
    pub sig: MethodSig,
    pub inner: Option<InnerFn>,
}

/// One method of the rewritten declaration: passed through unchanged, or
/// rewritten.
#[derive(Debug, PartialEq, Eq)]
pub enum OutMethod {
    Unchanged(Method),
    Rewritten(ExpandedMethod),
}

/// A rewritten contract declaration.
#[derive(Debug, PartialEq, Eq)]
pub struct OutContract {
    pub attrs: Vec<u32>,
    pub name: u32,
    pub generics: Vec<GenericParam>,
    pub supers: Vec<u32>,
    pub methods: Vec<OutMethod>,
    pub span: Span,
}

/// A rewritten implementation block.
#[derive(Debug, PartialEq, Eq)]
pub struct OutImpl {
    pub attrs: Vec<u32>,
    pub generics: Vec<GenericParam>,
    pub self_type: TypeExpr,
    pub contract: Option<u32>,
    pub methods: Vec<OutMethod>,
    pub span: Span,
}

/// The rewritten item handed back to the host compiler.
#[derive(Debug, PartialEq, Eq)]
pub enum OutItem {
    Contract(OutContract),
    Implementation(OutImpl),
}

/// The capability bound injected on the receiving type: a total function
/// of the configuration, the receiver shape and the presence of a default
/// body. In local mode nothing is ever injected; a method without a body
/// never receives a bound, since no body exists yet that could violate
/// it; a by-value or receiverless method needs none beyond what the
/// handle itself requires.
pub open spec fn spec_cap(local: bool, r: Receiver, has_body: bool) -> Option<Capability> {
    if local {
        None
    } else if r is ByReference && has_body {
        Some(Capability::ThreadShareable)
    } else if r is ByMutableReference && has_body {
        Some(Capability::ThreadMovable)
    } else {
        None
    }
}

/// The rewritten return type: a heap-owned, dynamically dispatched handle
/// to a deferred computation of `output`, not outliving the call scope,
/// and — outside local mode — itself required to be thread-movable.
pub open spec fn spec_handle(local: bool, output: TypeExpr) -> TypeExpr {
    TypeExpr::Handle { movable: !local, scope: ScopeRef::CallScope, output: Box::new(output) }
}

/// The type of the inner function's first parameter: the receiver's
/// underlying type `self_base`, bare for a by-value receiver and behind a
/// call-scoped reference otherwise.
pub open spec fn spec_receiver_param_ty(r: Receiver, self_base: TypeExpr) -> TypeExpr {
    match r {
        Receiver::ByValue => self_base,
        Receiver::ByReference => TypeExpr::Reference {
            scope: ScopeRef::CallScope,
            mutable: false,
            inner: Box::new(self_base),
        },
        Receiver::ByMutableReference => TypeExpr::Reference {
            scope: ScopeRef::CallScope,
            mutable: true,
            inner: Box::new(self_base),
        },
        Receiver::NoReceiver => self_base,
    }
}

/// Whether expansion of this method must fail: it is asynchronous and its
/// signature hides a reference whose borrow scope cannot be bound.
pub open spec fn spec_method_fails(m: Method) -> bool {
    m.is_async && spec_sig_ambiguous(m.sig)
}

/// The diagnostic a failing method produces.
pub open spec fn spec_method_diag(m: Method) -> Diagnostic {
    Diagnostic { kind: DiagnosticKind::AmbiguousBorrowScope, span: spec_ambiguity_span(m.sig) }
}

/// How the generated inner function relates to the original method, given
/// the receiver's underlying type and the elaborated outer generics.
pub open spec fn spec_inner_fn_ok(
    self_base: TypeExpr,
    m: Method,
    outer_generics: Seq<GenericParam>,
    f: InnerFn,
) -> bool {
    let rcv = spec_classify(m.sig.params@);
    &&& f.name == m.sig.name
    &&& f.generics@ == outer_generics
    &&& f.ret == m.sig.ret
    &&& m.body matches Some(b) && f.body == b
    &&& if rcv is NoReceiver {
        f.params@ == m.sig.params@
    } else {
        &&& f.params@.len() == m.sig.params@.len()
        &&& f.params@[0] == (Param {
            name: ParamName::InnerSelf,
            ty: spec_receiver_param_ty(rcv, self_base),
            span: m.sig.params@[0].span,
        })
        &&& forall|i: int|
            1 <= i < m.sig.params@.len() ==> f.params@[i] == #[trigger] m.sig.params@[i]
    }
}

/// How one rewritten method relates to the original: a synchronous method
/// is kept byte-for-byte; an asynchronous one keeps its attributes and
/// doc comments, gains the call scope as one extra generic parameter,
/// has every parameter type and the return type elaborated, returns the
/// deferred-computation handle, receives exactly the capability bound of
/// `spec_cap` appended to its `where` predicates, and carries the inner
/// function exactly when it had a body.
pub open spec fn spec_method_expanded(
    local: bool,
    self_base: TypeExpr,
    m: Method,
    out: OutMethod,
) -> bool {
    if !m.is_async {
        out == OutMethod::Unchanged(m)
    } else {
        out matches OutMethod::Rewritten(em) && {
            let rcv = spec_classify(m.sig.params@);
            let cap = spec_cap(local, rcv, m.body is Some);
            &&& em.attrs@ == m.attrs@
            &&& em.sig.name == m.sig.name
            &&& em.sig.span == m.sig.span
            &&& em.sig.generics@ == m.sig.generics@.push(GenericParam::CallScopeParam)
            &&& em.sig.params@.len() == m.sig.params@.len()
            &&& forall|i: int|
                0 <= i < m.sig.params@.len() ==> em.sig.params@[i] == spec_elab_param(
                    #[trigger] m.sig.params@[i],
                )
            &&& em.sig.ret == spec_handle(local, spec_elab_type(m.sig.ret))
            &&& em.sig.wheres@ == (match cap {
                Option::Some(c) => m.sig.wheres@.push(
                    WherePred::SelfBound { cap: c, scope: ScopeRef::CallScope },
                ),
                Option::None => m.sig.wheres@,
            })
            &&& match m.body {
                Option::Some(_) => em.inner matches Some(f) && spec_inner_fn_ok(
                    self_base,
                    m,
                    em.sig.generics@,
                    f,
                ),
                Option::None => em.inner is None,
            }
        }
    }
}

/// How a rewritten method sequence relates to the original one.
pub open spec fn spec_methods_expanded(
    local: bool,
    self_base: TypeExpr,
    ms: Seq<Method>,
    outs: Seq<OutMethod>,
) -> bool {
    &&& outs.len() == ms.len()
    &&& forall|i: int|
        0 <= i < ms.len() ==> spec_method_expanded(local, self_base, #[trigger] ms[i], outs[i])
}

/// Whether any method of the sequence must make expansion fail.
pub open spec fn spec_any_method_fails(ms: Seq<Method>) -> bool {
    exists|i: int| 0 <= i < ms.len() && spec_method_fails(#[trigger] ms[i])
}

/// The diagnostic of the first failing method of the sequence.
pub open spec fn spec_first_failing_diag(ms: Seq<Method>) -> Diagnostic
    decreases ms.len(),
{
    if ms.len() == 0 {
        Diagnostic { kind: DiagnosticKind::AmbiguousBorrowScope, span: Span { lo: 0, hi: 0 } }
    } else if spec_method_fails(ms[0]) {
        spec_method_diag(ms[0])
    } else {
        spec_first_failing_diag(ms.drop_first())
    }
}

/// Whether expansion of the whole item must fail.
pub open spec fn spec_item_has_ambiguity(item: Item) -> bool {
    match item {
        Item::Contract(c) => spec_any_method_fails(c.methods@),
        Item::Implementation(im) => spec_any_method_fails(im.methods@),
    }
}

/// The diagnostic expansion of a failing item reports: the first failing
/// method's.
pub open spec fn spec_item_diag(item: Item) -> Diagnostic {
    match item {
        Item::Contract(c) => spec_first_failing_diag(c.methods@),
        Item::Implementation(im) => spec_first_failing_diag(im.methods@),
    }
}

/// How the rewritten item relates to the original: name, generics,
/// supertrait bounds, attributes, implemented contract, receiving type
/// and span are kept verbatim; the methods are rewritten one for one. In
/// a contract the receiver's underlying type is the contract's own
/// receiver type; in an implementation block it is the implementing type.
pub open spec fn spec_expanded_item(ctx: ExpansionContext, item: Item, out: OutItem) -> bool {
    match item {
        Item::Contract(c) => out matches OutItem::Contract(oc) && {
            &&& oc.attrs@ == c.attrs@
            &&& oc.name == c.name
            &&& oc.generics@ == c.generics@
            &&& oc.supers@ == c.supers@
            &&& oc.span == c.span
            &&& spec_methods_expanded(ctx.local, TypeExpr::SelfType, c.methods@, oc.methods@)
        },
        Item::Implementation(im) => out matches OutItem::Implementation(oi) && {
            &&& oi.attrs@ == im.attrs@
            &&& oi.generics@ == im.generics@
            &&& oi.self_type == im.self_type
            &&& oi.contract == im.contract
            &&& oi.span == im.span
            &&& spec_methods_expanded(ctx.local, im.self_type, im.methods@, oi.methods@)
        },
    }
}

/// Copies a type expression.
fn copy_type(t: &TypeExpr) -> (r: TypeExpr)
    ensures
        r == *t,
    decreases *t,
{
    match t {
        TypeExpr::Unit => TypeExpr::Unit,
        TypeExpr::SelfType => TypeExpr::SelfType,
        TypeExpr::Path { name, args } => TypeExpr::Path { name: *name, args: copy_list(args) },
        TypeExpr::Reference { scope, mutable, inner } => TypeExpr::Reference {
            scope: *scope,
            mutable: *mutable,
            inner: Box::new(copy_type(inner)),
        },
        TypeExpr::RefAlias { name, scope } => TypeExpr::RefAlias {
            name: *name,
            scope: match scope {
                Some(s) => Some(*s),
                None => None,
            },
        },
        TypeExpr::Handle { movable, scope, output } => TypeExpr::Handle {
            movable: *movable,
            scope: *scope,
            output: Box::new(copy_type(output)),
        },
    }
}

/// Copies an argument list.
fn copy_list(l: &TypeList) -> (r: TypeList)
    ensures
        r == *l,
    decreases *l,
{
    match l {
        TypeList::Empty => TypeList::Empty,
        TypeList::More(head, tail) => TypeList::More(
            Box::new(copy_type(head)),
            Box::new(copy_list(tail)),
        ),
    }
}

/// Copies a parameter.
fn copy_param(p: &Param) -> (r: Param)
    ensures
        r == *p,
{
    Param { name: p.name, ty: copy_type(&p.ty), span: p.span }
}

/// Copies a generic parameter list.
fn copy_generics(v: &Vec<GenericParam>) -> (r: Vec<GenericParam>)
    ensures
        r@ == v@,
{
    let mut r: Vec<GenericParam> = Vec::new();
    let mut i: usize = 0;
    while i < v.len()
        invariant
            i <= v@.len(),
            r@ == v@.take(i as int),
        decreases v@.len() - i,
    {
        r.push(v[i]);
        proof {
            assert(r@ =~= v@.take(i + 1));
        }
        i += 1;
    }
    proof {
        assert(v@.take(v@.len() as int) =~= v@);
    }
    r
}

/// Rewrites one method. A synchronous method is returned unchanged; an
/// asynchronous one is classified, elaborated and rewritten, its outer
/// signature returning the deferred-computation handle and carrying the
/// injected capability bound, its body — when present — moved into the
/// generated inner function. Fails exactly when the method is
/// asynchronous and a parameter or return type hides a reference whose
/// borrow scope cannot be bound, with the diagnostic at the offending
/// parameter.
pub fn expand_method(m: Method, self_base: &TypeExpr, local: bool) -> (r: Result<
    OutMethod,
    Diagnostic,
>)
    ensures
        match r {
            Ok(out) => !spec_method_fails(m) && spec_method_expanded(local, *self_base, m, out),
            Err(d) => spec_method_fails(m) && d == spec_method_diag(m),
        },
{
    if !m.is_async {
        return Ok(OutMethod::Unchanged(m));
    }
    let receiver = classify_receiver(&m.sig.params);
    let has_receiver = match receiver {
        Receiver::NoReceiver => false,
        _ => true,
    };
    let has_body = m.body.is_some();

    // The inner function's raw material is taken from the signature as
    // originally written, before elaboration consumes it.
    let mut inner_params: Vec<Param> = Vec::new();
    if has_receiver {
        let rty = match receiver {
            Receiver::ByValue => copy_type(self_base),
            Receiver::ByReference => TypeExpr::Reference {
                scope: ScopeRef::CallScope,
                mutable: false,
                inner: Box::new(copy_type(self_base)),
            },
            Receiver::ByMutableReference => TypeExpr::Reference {
                scope: ScopeRef::CallScope,
                mutable: true,
                inner: Box::new(copy_type(self_base)),
            },
            Receiver::NoReceiver => copy_type(self_base),
        };
        inner_params.push(Param { name: ParamName::InnerSelf, ty: rty, span: m.sig.params[0].span });
    }
    let start: usize = if has_receiver {
        1
    } else {
        0
    };
    let mut i: usize = start;
    while i < m.sig.params.len()
        invariant
            start <= i <= m.sig.params@.len(),
            start == (if has_receiver {
                1int
            } else {
                0int
            }),
            inner_params@.len() == i,
            forall|j: int|
                start <= j < i ==> inner_params@[j] == #[trigger] m.sig.params@[j],
            has_receiver ==> m.sig.params@.len() > 0 && inner_params@[0] == (Param {
                name: ParamName::InnerSelf,
                ty: spec_receiver_param_ty(spec_classify(m.sig.params@), *self_base),
                span: m.sig.params@[0].span,
            }),
        decreases m.sig.params@.len() - i,
    {
        inner_params.push(copy_param(&m.sig.params[i]));
        i += 1;
    }
    let inner_ret = copy_type(&m.sig.ret);

    let Method { attrs, sig, is_async: _, body } = m;
    let (esig, mut introduced) = match elaborate_sig(sig) {
        Ok(pair) => pair,
        Err(d) => {
            return Err(d);
        },
    };
    let MethodSig { name, mut generics, params, ret, wheres: mut wheres, span } = esig;
    generics.append(&mut introduced);
    proof {
        assert(generics@ =~= m.sig.generics@.push(GenericParam::CallScopeParam));
    }
    let inner_generics = copy_generics(&generics);

    let cap: Option<Capability> = if local {
        None
    } else {
        match receiver {
            Receiver::ByReference => if has_body {
                Some(Capability::ThreadShareable)
            } else {
                None
            },
            Receiver::ByMutableReference => if has_body {
                Some(Capability::ThreadMovable)
            } else {
                None
            },
            _ => None,
        }
    };
    match cap {
        Some(c) => wheres.push(WherePred::SelfBound { cap: c, scope: ScopeRef::CallScope }),
        None => {},
    }
    let out_ret = TypeExpr::Handle {
        movable: !local,
        scope: ScopeRef::CallScope,
        output: Box::new(ret),
    };
    let out_sig = MethodSig { name, generics, params, ret: out_ret, wheres, span };
    let inner = match body {
        Some(b) => Some(
            InnerFn {
                name,
                generics: inner_generics,
                params: inner_params,
                ret: inner_ret,
                body: b,
            },
        ),
        None => None,
    };
    proof {
        if !(spec_classify(m.sig.params@) is NoReceiver) && m.body is Some {
            assert(inner_params@.len() == m.sig.params@.len());
        }
        if spec_classify(m.sig.params@) is NoReceiver && m.body is Some {
            assert(inner_params@ =~= m.sig.params@);
        }
    }
    Ok(OutMethod::Rewritten(ExpandedMethod { attrs, sig: out_sig, inner }))
}

/// Rewrites a parsed item: every asynchronous method is expanded, every
/// synchronous method and every other syntactic element is kept verbatim.
/// Fails exactly when some asynchronous method's signature hides a
/// reference whose borrow scope cannot be bound, with the first such
/// method's diagnostic; one item's failure never touches any other item,
/// since each invocation owns its tree exclusively.
pub fn expand(item: Item, ctx: &ExpansionContext) -> (r: Result<OutItem, Diagnostic>)
    ensures
        match r {
            Ok(out) => !spec_item_has_ambiguity(item) && spec_expanded_item(*ctx, item, out),
            Err(d) => spec_item_has_ambiguity(item) && d == spec_item_diag(item),
        },
{
    match item {
        Item::Contract(c) => {
            let ContractDecl { attrs, name, generics, supers, methods, span } = c;
            let self_base = TypeExpr::SelfType;
            match expand_methods(methods, &self_base, ctx.local) {
                Ok(out_methods) => Ok(
                    OutItem::Contract(
                        OutContract { attrs, name, generics, supers, methods: out_methods, span },
                    ),
                ),
                Err(d) => Err(d),
            }
        },
        Item::Implementation(im) => {
            let ImplDecl { attrs, generics, self_type, contract, methods, span } = im;
            match expand_methods(methods, &self_type, ctx.local) {
                Ok(out_methods) => Ok(
                    OutItem::Implementation(
                        OutImpl {
                            attrs,
                            generics,
                            self_type,
                            contract,
                            methods: out_methods,
                            span,
                        },
                    ),
                ),
                Err(d) => Err(d),
            }
        },
    }
}

/// Rewrites a method sequence in order, stopping at the first failure.
fn expand_methods(methods: Vec<Method>, self_base: &TypeExpr, local: bool) -> (r: Result<
    Vec<OutMethod>,
    Diagnostic,
>)
    ensures
        match r {
            Ok(outs) => !spec_any_method_fails(methods@) && spec_methods_expanded(
                local,
                *self_base,
                methods@,
                outs@,
            ),
            Err(d) => spec_any_method_fails(methods@) && d == spec_first_failing_diag(methods@),
        },
    decreases methods@.len(),
{
    let mut rest = methods;
    if rest.len() == 0 {
        proof {
            assert(!spec_any_method_fails(methods@));
        }
        return Ok(Vec::new());
    }
    let m = rest.remove(0);
    proof {
        assert(rest@ =~= methods@.drop_first());
    }
    match expand_method(m, self_base, local) {
        Ok(om) => {
            match expand_methods(rest, self_base, local) {
                Ok(tail_outs) => {
                    let mut outs = tail_outs;
                    outs.insert(0, om);
                    proof {
                        assert forall|i: int|
                            0 <= i < methods@.len() implies spec_method_expanded(
                            local,
                            *self_base,
                            #[trigger] methods@[i],
                            outs@[i],
                        ) by {
                            if i > 0 {
                                assert(spec_method_expanded(
                                    local,
                                    *self_base,
                                    methods@.drop_first()[i - 1],
                                    outs@[i],
                                ));
                            }
                        }
                        assert forall|i: int|
                            0 <= i < methods@.len() implies !spec_method_fails(
                            #[trigger] methods@[i],
                        ) by {
                            if i > 0 {
                                assert(!spec_method_fails(methods@.drop_first()[i - 1]));
                            }
                        }
                    }
                    Ok(outs)
                },
                Err(d) => {
                    proof {
                        let i = choose|i: int|
                            0 <= i < rest@.len() && spec_method_fails(#[trigger] rest@[i]);
                        assert(spec_method_fails(methods@[i + 1]));
                    }
                    Err(d)
                },
            }
        },
        Err(d) => {
            proof {
                assert(spec_method_fails(methods@[0]));
            }
            Err(d)
        },
    }
}

/// Exactly which capability bound each combination receives: in local
/// mode none, for any receiver shape and any body presence; outside
/// local mode, a by-reference receiver with a default body receives the
/// thread-shareable bound and a by-mutable-reference receiver with a
/// default body the thread-movable bound, both tied to the call scope by
/// `spec_method_expanded`; a by-value or receiverless method, and any
/// method without a default body, receives none.
pub proof fn lemma_capability_bounds(r: Receiver, has_body: bool)
    ensures
        spec_cap(true, r, has_body) is None,
        spec_cap(false, Receiver::ByReference, true) == Some(Capability::ThreadShareable),
        spec_cap(false, Receiver::ByMutableReference, true) == Some(Capability::ThreadMovable),
        spec_cap(false, Receiver::ByValue, has_body) is None,
        spec_cap(false, Receiver::NoReceiver, has_body) is None,
        !has_body ==> spec_cap(false, r, has_body) is None,
{
}

/// Untouched methods are preserved byte for byte: every synchronous
/// method of the rewritten item — generic parameters, `where`-clauses,
/// attributes and doc comments included — is the original method,
/// unchanged.
pub proof fn lemma_untouched_method_preserved(
    ctx: ExpansionContext,
    item: Item,
    out: OutItem,
    i: int,
)
    requires
        spec_expanded_item(ctx, item, out),
        match item {
            Item::Contract(c) => 0 <= i < c.methods@.len() && !c.methods@[i].is_async,
            Item::Implementation(im) => 0 <= i < im.methods@.len() && !im.methods@[i].is_async,
        },
    ensures
        match (item, out) {
            (Item::Contract(c), OutItem::Contract(oc)) => oc.methods@[i] == OutMethod::Unchanged(
                c.methods@[i],
            ),
            (Item::Implementation(im), OutItem::Implementation(oi)) => oi.methods@[i]
                == OutMethod::Unchanged(im.methods@[i]),
            _ => false,
        },
{
    match item {
        Item::Contract(c) => {
            assert(spec_method_expanded(
                ctx.local,
                TypeExpr::SelfType,
                c.methods@[i],
                out->Contract_0.methods@[i],
            ));
        },
        Item::Implementation(im) => {
            assert(spec_method_expanded(
                ctx.local,
                im.self_type,
                im.methods@[i],
                out->Implementation_0.methods@[i],
            ));
        },
    }
}

} // verus!
