//! Borrow-scope elaboration.
//!
//! Every reference-shaped type that depends implicitly on the duration of a
//! call is rewritten to name that duration explicitly: the elaborator
//! synthesizes one scope per method — the call scope, `ScopeRef::CallScope`,
//! added to the method's generic parameters as
//! `GenericParam::CallScopeParam` — and makes every implicit or placeholder
//! scope in the parameter types and the return type refer to it. A type
//! alias that hides a reference without any written scope argument cannot be
//! rewritten structurally and is reported as an ambiguity at the parameter
//! that uses it.

use vstd::prelude::*;

use crate::ast::{
    Diagnostic, DiagnosticKind, GenericParam, MethodSig, Param, ScopeRef, Span, TypeExpr, TypeList,
};

verus! {

/// How one scope marker is elaborated: the implicit scope of a bare
/// reference and the explicit placeholder both become the call scope;
/// the call scope itself and user-named scopes are kept.
pub open spec fn spec_elab_scope(s: ScopeRef) -> ScopeRef {
    match s {
        ScopeRef::Implicit => ScopeRef::CallScope,
        ScopeRef::Placeholder => ScopeRef::CallScope,
        _ => s,
    }
}

/// A scope marker that leaves the scope to be inferred.
pub open spec fn spec_scope_elided(s: ScopeRef) -> bool {
    s is Implicit || s is Placeholder
}

/// A scope marker that names its scope outright.
pub open spec fn spec_scope_explicit(s: ScopeRef) -> bool {
    s is CallScope || s is Named
}

/// Whether a type contains an alias-hidden reference with no written
/// scope argument — the one shape the elaborator cannot rewrite.
pub open spec fn spec_ambiguous(t: TypeExpr) -> bool
    decreases t,
{
    match t {
        TypeExpr::Unit => false,
        TypeExpr::SelfType => false,
        TypeExpr::Path { name: _, args } => spec_ambiguous_list(args),
        TypeExpr::Reference { scope: _, mutable: _, inner } => spec_ambiguous(*inner),
        TypeExpr::RefAlias { name: _, scope } => scope is None,
        TypeExpr::Handle { movable: _, scope: _, output } => spec_ambiguous(*output),
    }
}

/// `spec_ambiguous`, over an argument list.
pub open spec fn spec_ambiguous_list(l: TypeList) -> bool
    decreases l,
{
    match l {
        TypeList::Empty => false,
        TypeList::More(head, tail) => spec_ambiguous(*head) || spec_ambiguous_list(*tail),
    }
}

/// The elaboration of one type: every scope marker that leaves its scope
/// to be inferred is bound to the call scope, everywhere in the tree. An
/// alias-hidden reference without a scope argument is left in place; the
/// executable elaborator reports it instead of using this value.
pub open spec fn spec_elab_type(t: TypeExpr) -> TypeExpr
    decreases t,
{
    match t {
        TypeExpr::Unit => TypeExpr::Unit,
        TypeExpr::SelfType => TypeExpr::SelfType,
        TypeExpr::Path { name, args } => TypeExpr::Path { name, args: spec_elab_list(args) },
        TypeExpr::Reference { scope, mutable, inner } => TypeExpr::Reference {
            scope: spec_elab_scope(scope),
            mutable,
            inner: Box::new(spec_elab_type(*inner)),
        },
        TypeExpr::RefAlias { name, scope } => match scope {
            Option::Some(s) => TypeExpr::RefAlias { name, scope: Some(spec_elab_scope(s)) },
            Option::None => TypeExpr::RefAlias { name, scope: None },
        },
        TypeExpr::Handle { movable, scope, output } => TypeExpr::Handle {
            movable,
            scope: spec_elab_scope(scope),
            output: Box::new(spec_elab_type(*output)),
        },
    }
}

/// `spec_elab_type`, over an argument list.
pub open spec fn spec_elab_list(l: TypeList) -> TypeList
    decreases l,
{
    match l {
        TypeList::Empty => TypeList::Empty,
        TypeList::More(head, tail) => TypeList::More(
            Box::new(spec_elab_type(*head)),
            Box::new(spec_elab_list(*tail)),
        ),
    }
}

/// After elaboration this holds of every rewritten type: each reference
/// shape, visible or alias-hidden, carries an explicit scope.
pub open spec fn spec_fully_scoped(t: TypeExpr) -> bool
    decreases t,
{
    match t {
        TypeExpr::Unit => true,
        TypeExpr::SelfType => true,
        TypeExpr::Path { name: _, args } => spec_fully_scoped_list(args),
        TypeExpr::Reference { scope, mutable: _, inner } => spec_scope_explicit(scope)
            && spec_fully_scoped(*inner),
        TypeExpr::RefAlias { name: _, scope } => scope matches Some(s) && spec_scope_explicit(s),
        TypeExpr::Handle { movable: _, scope, output } => spec_scope_explicit(scope)
            && spec_fully_scoped(*output),
    }
}

/// `spec_fully_scoped`, over an argument list.
pub open spec fn spec_fully_scoped_list(l: TypeList) -> bool
    decreases l,
{
    match l {
        TypeList::Empty => true,
        TypeList::More(head, tail) => spec_fully_scoped(*head) && spec_fully_scoped_list(*tail),
    }
}

/// The number of scope occurrences in a type that leave their scope to be
/// inferred (elided references and written placeholders).
pub open spec fn spec_elided_count(t: TypeExpr) -> nat
    decreases t,
{
    match t {
        TypeExpr::Unit => 0,
        TypeExpr::SelfType => 0,
        TypeExpr::Path { name: _, args } => spec_elided_count_list(args),
        TypeExpr::Reference { scope, mutable: _, inner } => (if spec_scope_elided(scope) {
            1nat
        } else {
            0nat
        }) + spec_elided_count(*inner),
        TypeExpr::RefAlias { name: _, scope } => match scope {
            Option::Some(s) => if spec_scope_elided(s) {
                1nat
            } else {
                0nat
            },
            Option::None => 0,
        },
        TypeExpr::Handle { movable: _, scope, output } => (if spec_scope_elided(scope) {
            1nat
        } else {
            0nat
        }) + spec_elided_count(*output),
    }
}

/// `spec_elided_count`, over an argument list.
pub open spec fn spec_elided_count_list(l: TypeList) -> nat
    decreases l,
{
    match l {
        TypeList::Empty => 0,
        TypeList::More(head, tail) => spec_elided_count(*head) + spec_elided_count_list(*tail),
    }
}

/// The number of scope occurrences in a type that refer to the generated
/// call scope.
pub open spec fn spec_call_scope_count(t: TypeExpr) -> nat
    decreases t,
{
    match t {
        TypeExpr::Unit => 0,
        TypeExpr::SelfType => 0,
        TypeExpr::Path { name: _, args } => spec_call_scope_count_list(args),
        TypeExpr::Reference { scope, mutable: _, inner } => (if scope is CallScope {
            1nat
        } else {
            0nat
        }) + spec_call_scope_count(*inner),
        TypeExpr::RefAlias { name: _, scope } => match scope {
            Option::Some(s) => if s is CallScope {
                1nat
            } else {
                0nat
            },
            Option::None => 0,
        },
        TypeExpr::Handle { movable: _, scope, output } => (if scope is CallScope {
            1nat
        } else {
            0nat
        }) + spec_call_scope_count(*output),
    }
}

/// `spec_call_scope_count`, over an argument list.
pub open spec fn spec_call_scope_count_list(l: TypeList) -> nat
    decreases l,
{
    match l {
        TypeList::Empty => 0,
        TypeList::More(head, tail) => spec_call_scope_count(*head) + spec_call_scope_count_list(
            *tail,
        ),
    }
}

/// Elaborates one scope marker.
pub fn elaborate_scope(s: ScopeRef) -> (r: ScopeRef)
    ensures
        r == spec_elab_scope(s),
{
    match s {
        ScopeRef::Implicit => ScopeRef::CallScope,
        ScopeRef::Placeholder => ScopeRef::CallScope,
        other => other,
    }
}

/// Elaborates one type, or reports that it contains an alias-hidden
/// reference whose scope cannot be bound structurally.
pub fn elaborate_type(t: &TypeExpr) -> (r: Option<TypeExpr>)
    ensures
        r == if spec_ambiguous(*t) {
            Option::<TypeExpr>::None
        } else {
            Option::Some(spec_elab_type(*t))
        },
    decreases *t,
{
    match t {
        TypeExpr::Unit => Some(TypeExpr::Unit),
        TypeExpr::SelfType => Some(TypeExpr::SelfType),
        TypeExpr::Path { name, args } => match elaborate_list(args) {
            Some(new_args) => Some(TypeExpr::Path { name: *name, args: new_args }),
            None => None,
        },
        TypeExpr::Reference { scope, mutable, inner } => match elaborate_type(inner) {
            Some(new_inner) => Some(
                TypeExpr::Reference {
                    scope: elaborate_scope(*scope),
                    mutable: *mutable,
                    inner: Box::new(new_inner),
                },
            ),
            None => None,
        },
        TypeExpr::RefAlias { name, scope } => match scope {
            Some(s) => Some(TypeExpr::RefAlias { name: *name, scope: Some(elaborate_scope(*s)) }),
            None => None,
        },
        TypeExpr::Handle { movable, scope, output } => match elaborate_type(output) {
            Some(new_output) => Some(
                TypeExpr::Handle {
                    movable: *movable,
                    scope: elaborate_scope(*scope),
                    output: Box::new(new_output),
                },
            ),
            None => None,
        },
    }
}

/// Elaborates an argument list, or reports the first ambiguity in it.
pub fn elaborate_list(l: &TypeList) -> (r: Option<TypeList>)
    ensures
        r == if spec_ambiguous_list(*l) {
            Option::<TypeList>::None
        } else {
            Option::Some(spec_elab_list(*l))
        },
    decreases *l,
{
    match l {
        TypeList::Empty => Some(TypeList::Empty),
        TypeList::More(head, tail) => match elaborate_type(head) {
            Some(new_head) => match elaborate_list(tail) {
                Some(new_tail) => Some(TypeList::More(Box::new(new_head), Box::new(new_tail))),
                None => None,
            },
            None => None,
        },
    }
}

/// Elaboration binds every inferred scope: its result is fully scoped
/// whenever the input holds no unrewritable alias.
pub proof fn lemma_elab_fully_scoped(t: TypeExpr)
    ensures
        !spec_ambiguous(t) ==> spec_fully_scoped(spec_elab_type(t)),
    decreases t,
{
    match t {
        TypeExpr::Path { name: _, args } => lemma_elab_fully_scoped_list(args),
        TypeExpr::Reference { scope: _, mutable: _, inner } => lemma_elab_fully_scoped(*inner),
        TypeExpr::Handle { movable: _, scope: _, output } => lemma_elab_fully_scoped(*output),
        _ => {},
    }
}

/// `lemma_elab_fully_scoped`, over an argument list.
pub proof fn lemma_elab_fully_scoped_list(l: TypeList)
    ensures
        !spec_ambiguous_list(l) ==> spec_fully_scoped_list(spec_elab_list(l)),
    decreases l,
{
    match l {
        TypeList::Empty => {},
        TypeList::More(head, tail) => {
            lemma_elab_fully_scoped(*head);
            lemma_elab_fully_scoped_list(*tail);
        },
    }
}

/// On a fully scoped type, elaboration changes nothing.
pub proof fn lemma_elab_identity(t: TypeExpr)
    ensures
        spec_fully_scoped(t) ==> spec_elab_type(t) == t,
    decreases t,
{
    match t {
        TypeExpr::Path { name: _, args } => lemma_elab_identity_list(args),
        TypeExpr::Reference { scope: _, mutable: _, inner } => lemma_elab_identity(*inner),
        TypeExpr::Handle { movable: _, scope: _, output } => lemma_elab_identity(*output),
        _ => {},
    }
}

/// `lemma_elab_identity`, over an argument list.
pub proof fn lemma_elab_identity_list(l: TypeList)
    ensures
        spec_fully_scoped_list(l) ==> spec_elab_list(l) == l,
    decreases l,
{
    match l {
        TypeList::Empty => {},
        TypeList::More(head, tail) => {
            lemma_elab_identity(*head);
            lemma_elab_identity_list(*tail);
        },
    }
}

/// Elaboration is idempotent: elaborating an already-elaborated type
/// assigns every scope the same way again. Together with
/// `lemma_elab_identity` this is the elaborator run twice: a fully scoped
/// input is left as it is, and any input elaborated a second time gives
/// the same assignment as the first run.
pub proof fn lemma_elab_idempotent(t: TypeExpr)
    ensures
        spec_elab_type(spec_elab_type(t)) == spec_elab_type(t),
    decreases t,
{
    match t {
        TypeExpr::Path { name: _, args } => lemma_elab_idempotent_list(args),
        TypeExpr::Reference { scope: _, mutable: _, inner } => lemma_elab_idempotent(*inner),
        TypeExpr::Handle { movable: _, scope: _, output } => lemma_elab_idempotent(*output),
        _ => {},
    }
}

/// `lemma_elab_idempotent`, over an argument list.
pub proof fn lemma_elab_idempotent_list(l: TypeList)
    ensures
        spec_elab_list(spec_elab_list(l)) == spec_elab_list(l),
    decreases l,
{
    match l {
        TypeList::Empty => {},
        TypeList::More(head, tail) => {
            lemma_elab_idempotent(*head);
            lemma_elab_idempotent_list(*tail);
        },
    }
}

/// Signature-level idempotence: elaborating a signature that is itself
/// the elaboration of `sig` assigns every scope exactly as the first
/// elaboration did — the second run is again an elaboration of `sig`.
pub proof fn lemma_sig_elaboration_idempotent(sig: MethodSig, once: MethodSig, twice: MethodSig)
    requires
        spec_sig_elaborated(sig, once),
        spec_sig_elaborated(once, twice),
    ensures
        spec_sig_elaborated(sig, twice),
{
    assert forall|i: int|
        0 <= i < sig.params@.len() implies twice.params@[i] == spec_elab_param(
        #[trigger] sig.params@[i],
    ) by {
        lemma_elab_idempotent(sig.params@[i].ty);
        assert(once.params@[i] == spec_elab_param(sig.params@[i]));
    }
    lemma_elab_idempotent(sig.ret);
}

/// The elaborator's output invariant: in an elaborated signature whose
/// input held no unrewritable alias, every reference-shaped type
/// reachable from the parameters or the return type carries an explicit
/// scope — none is left implicit or as a placeholder.
pub proof fn lemma_sig_fully_scoped(sig: MethodSig, out: MethodSig)
    requires
        spec_sig_elaborated(sig, out),
        !spec_sig_ambiguous(sig),
    ensures
        forall|i: int|
            0 <= i < out.params@.len() ==> spec_fully_scoped(#[trigger] out.params@[i].ty),
        spec_fully_scoped(out.ret),
{
    assert forall|i: int|
        0 <= i < out.params@.len() implies spec_fully_scoped(#[trigger] out.params@[i].ty) by {
        assert(!spec_ambiguous(sig.params@[i].ty));
        lemma_elab_fully_scoped(sig.params@[i].ty);
        assert(out.params@[i] == spec_elab_param(sig.params@[i]));
    }
    lemma_elab_fully_scoped(sig.ret);
}

/// The sum of `spec_elided_count` over a parameter sequence.
pub open spec fn spec_params_elided_count(ps: Seq<Param>) -> nat
    decreases ps.len(),
{
    if ps.len() == 0 {
        0
    } else {
        spec_elided_count(ps[0].ty) + spec_params_elided_count(ps.drop_first())
    }
}

/// The sum of `spec_call_scope_count` over a parameter sequence.
pub open spec fn spec_params_call_scope_count(ps: Seq<Param>) -> nat
    decreases ps.len(),
{
    if ps.len() == 0 {
        0
    } else {
        spec_call_scope_count(ps[0].ty) + spec_params_call_scope_count(ps.drop_first())
    }
}

/// The number of scope occurrences in a whole signature that leave their
/// scope to be inferred.
pub open spec fn spec_sig_elided_count(sig: MethodSig) -> nat {
    spec_params_elided_count(sig.params@) + spec_elided_count(sig.ret)
}

/// The number of scope occurrences in a whole signature that refer to
/// the generated call scope.
pub open spec fn spec_sig_call_scope_count(sig: MethodSig) -> nat {
    spec_params_call_scope_count(sig.params@) + spec_call_scope_count(sig.ret)
}

/// `lemma_elab_call_scope_count`, summed over elaborated parameters.
proof fn lemma_params_call_scope_count(ps: Seq<Param>, qs: Seq<Param>)
    requires
        qs.len() == ps.len(),
        forall|i: int| 0 <= i < ps.len() ==> qs[i] == spec_elab_param(#[trigger] ps[i]),
    ensures
        spec_params_call_scope_count(qs) == spec_params_call_scope_count(ps)
            + spec_params_elided_count(ps),
    decreases ps.len(),
{
    if ps.len() > 0 {
        lemma_elab_call_scope_count(ps[0].ty);
        assert forall|i: int|
            0 <= i < ps.drop_first().len() implies qs.drop_first()[i] == spec_elab_param(
            #[trigger] ps.drop_first()[i],
        ) by {
            assert(qs[i + 1] == spec_elab_param(ps[i + 1]));
        }
        lemma_params_call_scope_count(ps.drop_first(), qs.drop_first());
    }
}

/// Elaborating a method introduces exactly one generated scope — the
/// call scope, the single entry of the generic parameter list that
/// `elaborate_sig` returns — and binds every occurrence that left its
/// scope to be inferred to it: the elaborated signature refers to the
/// call scope once per previously elided occurrence, beyond the input's
/// own call-scope references. On surface input, which cannot mention the
/// generated scope, all of the elided occurrences therefore reference
/// the one generated scope.
pub proof fn lemma_one_generated_scope(sig: MethodSig, out: MethodSig)
    requires
        spec_sig_elaborated(sig, out),
    ensures
        spec_sig_call_scope_count(out) == spec_sig_call_scope_count(sig) + spec_sig_elided_count(
            sig,
        ),
        spec_sig_call_scope_count(sig) == 0 ==> spec_sig_call_scope_count(out)
            == spec_sig_elided_count(sig),
{
    lemma_params_call_scope_count(sig.params@, out.params@);
    lemma_elab_call_scope_count(sig.ret);
}

/// Elaboration introduces no scope other than the call scope, and binds
/// every occurrence that left its scope to be inferred to it: the call
/// scope occurrences of the result are exactly those of the input plus
/// one per previously elided occurrence.
pub proof fn lemma_elab_call_scope_count(t: TypeExpr)
    ensures
        spec_call_scope_count(spec_elab_type(t)) == spec_call_scope_count(t) + spec_elided_count(
            t,
        ),
    decreases t,
{
    match t {
        TypeExpr::Path { name: _, args } => lemma_elab_call_scope_count_list(args),
        TypeExpr::Reference { scope: _, mutable: _, inner } => lemma_elab_call_scope_count(*inner),
        TypeExpr::Handle { movable: _, scope: _, output } => lemma_elab_call_scope_count(*output),
        _ => {},
    }
}

/// The elaboration of one parameter: its type elaborated, everything
/// else untouched.
pub open spec fn spec_elab_param(p: Param) -> Param {
    Param { name: p.name, ty: spec_elab_type(p.ty), span: p.span }
}

/// Whether any parameter type of the signature is ambiguous.
pub open spec fn spec_params_ambiguous(params: Seq<Param>) -> bool {
    exists|i: int| 0 <= i < params.len() && spec_ambiguous(#[trigger] params[i].ty)
}

/// Whether elaboration of the signature must fail: some parameter type
/// or the return type hides a reference whose scope cannot be bound.
pub open spec fn spec_sig_ambiguous(sig: MethodSig) -> bool {
    spec_params_ambiguous(sig.params@) || spec_ambiguous(sig.ret)
}

/// The span the ambiguity diagnostic points at: the first ambiguous
/// parameter's, or `dflt` when only the return type is ambiguous.
pub open spec fn spec_first_ambiguous_span(params: Seq<Param>, dflt: Span) -> Span
    decreases params.len(),
{
    if params.len() == 0 {
        dflt
    } else if spec_ambiguous(params[0].ty) {
        params[0].span
    } else {
        spec_first_ambiguous_span(params.drop_first(), dflt)
    }
}

/// The span of the diagnostic `elaborate_sig` reports on an ambiguous
/// signature: the first ambiguous parameter's span, or the method's own
/// span when the ambiguity sits in the return type.
pub open spec fn spec_ambiguity_span(sig: MethodSig) -> Span {
    spec_first_ambiguous_span(sig.params@, sig.span)
}

/// How the elaborated signature relates to the original: same name,
/// generics, parameter names and spans, `where` predicates and span;
/// every parameter type and the return type elaborated.
pub open spec fn spec_sig_elaborated(sig: MethodSig, out: MethodSig) -> bool {
    &&& out.name == sig.name
    &&& out.generics@ == sig.generics@
    &&& out.params@.len() == sig.params@.len()
    &&& forall|i: int|
        0 <= i < sig.params@.len() ==> out.params@[i] == spec_elab_param(#[trigger] sig.params@[i])
    &&& out.ret == spec_elab_type(sig.ret)
    &&& out.wheres@ == sig.wheres@
    &&& out.span == sig.span
}

/// When the parameters up to `i` are unambiguous and the one at `i` is
/// ambiguous, the reported span is that parameter's.
proof fn lemma_first_ambiguous_span_at(params: Seq<Param>, dflt: Span, i: int)
    requires
        0 <= i < params.len(),
        forall|j: int| 0 <= j < i ==> !spec_ambiguous(#[trigger] params[j].ty),
        spec_ambiguous(params[i].ty),
    ensures
        spec_first_ambiguous_span(params, dflt) == params[i].span,
    decreases i,
{
    if i > 0 {
        lemma_first_ambiguous_span_at(params.drop_first(), dflt, i - 1);
    }
}

/// When no parameter is ambiguous, the reported span falls back to the
/// method's own.
proof fn lemma_first_ambiguous_span_none(params: Seq<Param>, dflt: Span)
    requires
        forall|j: int| 0 <= j < params.len() ==> !spec_ambiguous(#[trigger] params[j].ty),
    ensures
        spec_first_ambiguous_span(params, dflt) == dflt,
    decreases params.len(),
{
    if params.len() > 0 {
        lemma_first_ambiguous_span_none(params.drop_first(), dflt);
    }
}

/// Elaborates a whole method signature: walks every parameter type and
/// the return type, binds each implicit or placeholder scope to the one
/// call scope generated for this method, and returns the rewritten
/// signature together with the scope parameters to be added to the
/// method's generic parameter list — always exactly the one generated
/// call scope. Fails with `AmbiguousBorrowScope`, at the first offending
/// parameter's span (or the method's own span for the return type), when
/// a type hides a reference behind an alias with no written scope.
pub fn elaborate_sig(sig: MethodSig) -> (r: Result<(MethodSig, Vec<GenericParam>), Diagnostic>)
    ensures
        match r {
            Ok(pair) => {
                &&& !spec_sig_ambiguous(sig)
                &&& spec_sig_elaborated(sig, pair.0)
                &&& pair.1@ == seq![GenericParam::CallScopeParam]
            },
            Err(d) => {
                &&& spec_sig_ambiguous(sig)
                &&& d.kind is AmbiguousBorrowScope
                &&& d.span == spec_ambiguity_span(sig)
            },
        },
{
    let n = sig.params.len();
    let mut out_params: Vec<Param> = Vec::new();
    let mut i: usize = 0;
    while i < n
        invariant
            n == sig.params@.len(),
            i <= n,
            out_params@.len() == i as int,
            forall|j: int| 0 <= j < i ==> !spec_ambiguous(#[trigger] sig.params@[j].ty),
            forall|j: int|
                0 <= j < i ==> out_params@[j] == spec_elab_param(#[trigger] sig.params@[j]),
        decreases n - i,
    {
        let p = &sig.params[i];
        match elaborate_type(&p.ty) {
            Some(new_ty) => {
                out_params.push(Param { name: p.name, ty: new_ty, span: p.span });
            },
            None => {
                proof {
                    lemma_first_ambiguous_span_at(sig.params@, sig.span, i as int);
                    assert(spec_params_ambiguous(sig.params@));
                }
                return Err(
                    Diagnostic { kind: DiagnosticKind::AmbiguousBorrowScope, span: p.span },
                );
            },
        }
        i += 1;
    }
    let new_ret = match elaborate_type(&sig.ret) {
        Some(new_ret) => new_ret,
        None => {
            proof {
                lemma_first_ambiguous_span_none(sig.params@, sig.span);
            }
            return Err(Diagnostic { kind: DiagnosticKind::AmbiguousBorrowScope, span: sig.span });
        },
    };
    let MethodSig { name, generics, params: _, ret: _, wheres, span } = sig;
    let mut introduced: Vec<GenericParam> = Vec::new();
    introduced.push(GenericParam::CallScopeParam);
    proof {
        assert(introduced@ == seq![GenericParam::CallScopeParam]);
    }
    Ok((MethodSig { name, generics, params: out_params, ret: new_ret, wheres, span }, introduced))
}

/// `lemma_elab_call_scope_count`, over an argument list.
pub proof fn lemma_elab_call_scope_count_list(l: TypeList)
    ensures
        spec_call_scope_count_list(spec_elab_list(l)) == spec_call_scope_count_list(l)
            + spec_elided_count_list(l),
    decreases l,
{
    match l {
        TypeList::Empty => {},
        TypeList::More(head, tail) => {
            lemma_elab_call_scope_count(*head);
            lemma_elab_call_scope_count_list(*tail);
        },
    }
}

} // verus!
