//! Receiver classification, borrow-scope elaboration and declaration
//! parsing, on concrete inputs.

use async_trait::ast::{
    Diagnostic, DiagnosticKind, GenericParam, MethodSig, Param, ParamName, Receiver, ScopeRef,
    Span, TypeExpr, TypeList,
};
use async_trait::lifetime::{elaborate_sig, elaborate_type};
use async_trait::parse::{parse_args, parse_item, RawArgs, RawItem};
use async_trait::receiver::classify_receiver;

const LOCAL_KW: u32 = 100;
const ALIAS: u32 = 7;
const DATA: u32 = 8;
const WRAPPER: u32 = 9;
const METHOD: u32 = 10;

fn sp(n: u32) -> Span {
    Span { lo: n, hi: n + 1 }
}

fn named(name: u32) -> TypeExpr {
    TypeExpr::Path {
        name,
        args: TypeList::Empty,
    }
}

fn reference(scope: ScopeRef, mutable: bool, inner: TypeExpr) -> TypeExpr {
    TypeExpr::Reference {
        scope,
        mutable,
        inner: Box::new(inner),
    }
}

fn self_param(ty: TypeExpr) -> Param {
    Param {
        name: ParamName::SelfName,
        ty,
        span: sp(0),
    }
}

fn plain_param(name: u32, ty: TypeExpr, span: Span) -> Param {
    Param {
        name: ParamName::Plain(name),
        ty,
        span,
    }
}

#[test]
fn classify_by_value() {
    let params = vec![self_param(TypeExpr::SelfType)];
    assert_eq!(classify_receiver(&params), Receiver::ByValue);
}

#[test]
fn classify_by_reference() {
    let params = vec![self_param(reference(
        ScopeRef::Implicit,
        false,
        TypeExpr::SelfType,
    ))];
    assert_eq!(classify_receiver(&params), Receiver::ByReference);
}

#[test]
fn classify_by_mutable_reference() {
    let params = vec![self_param(reference(
        ScopeRef::Implicit,
        true,
        TypeExpr::SelfType,
    ))];
    assert_eq!(classify_receiver(&params), Receiver::ByMutableReference);
}

#[test]
fn classify_no_receiver_when_no_params() {
    assert_eq!(classify_receiver(&vec![]), Receiver::NoReceiver);
}

#[test]
fn classify_no_receiver_when_first_param_is_plain() {
    let params = vec![plain_param(3, named(DATA), sp(1))];
    assert_eq!(classify_receiver(&params), Receiver::NoReceiver);
}

#[test]
fn elaborate_binds_bare_reference_to_call_scope() {
    let t = reference(ScopeRef::Implicit, false, named(DATA));
    let expected = reference(ScopeRef::CallScope, false, named(DATA));
    assert_eq!(elaborate_type(&t), Some(expected));
}

#[test]
fn elaborate_binds_placeholder_to_call_scope() {
    let t = reference(ScopeRef::Placeholder, true, named(DATA));
    let expected = reference(ScopeRef::CallScope, true, named(DATA));
    assert_eq!(elaborate_type(&t), Some(expected));
}

#[test]
fn elaborate_keeps_named_scope() {
    let t = reference(ScopeRef::Named(4), false, named(DATA));
    let expected = reference(ScopeRef::Named(4), false, named(DATA));
    assert_eq!(elaborate_type(&t), Some(expected));
}

#[test]
fn elaborate_walks_nested_type_arguments() {
    // Wrapper<&Data, &'a Data>: the elided scope is bound, the named one kept.
    let t = TypeExpr::Path {
        name: WRAPPER,
        args: TypeList::More(
            Box::new(reference(ScopeRef::Implicit, false, named(DATA))),
            Box::new(TypeList::More(
                Box::new(reference(ScopeRef::Named(4), false, named(DATA))),
                Box::new(TypeList::Empty),
            )),
        ),
    };
    let expected = TypeExpr::Path {
        name: WRAPPER,
        args: TypeList::More(
            Box::new(reference(ScopeRef::CallScope, false, named(DATA))),
            Box::new(TypeList::More(
                Box::new(reference(ScopeRef::Named(4), false, named(DATA))),
                Box::new(TypeList::Empty),
            )),
        ),
    };
    assert_eq!(elaborate_type(&t), Some(expected));
}

#[test]
fn elaborate_rejects_alias_without_scope_argument() {
    let t = TypeExpr::RefAlias {
        name: ALIAS,
        scope: None,
    };
    assert_eq!(elaborate_type(&t), None);
}

#[test]
fn elaborate_binds_alias_placeholder_to_call_scope() {
    let t = TypeExpr::RefAlias {
        name: ALIAS,
        scope: Some(ScopeRef::Placeholder),
    };
    let expected = TypeExpr::RefAlias {
        name: ALIAS,
        scope: Some(ScopeRef::CallScope),
    };
    assert_eq!(elaborate_type(&t), Some(expected));
}

#[test]
fn elaborate_is_idempotent_on_concrete_input() {
    let t = reference(
        ScopeRef::Implicit,
        false,
        TypeExpr::Path {
            name: WRAPPER,
            args: TypeList::More(
                Box::new(reference(ScopeRef::Placeholder, true, named(DATA))),
                Box::new(TypeList::Empty),
            ),
        },
    );
    let once = elaborate_type(&t).unwrap();
    let twice = elaborate_type(&once).unwrap();
    assert_eq!(once, twice);
}

fn count_call_scope(t: &TypeExpr) -> usize {
    fn list(l: &TypeList) -> usize {
        match l {
            TypeList::Empty => 0,
            TypeList::More(h, t) => count_call_scope(h) + list(t),
        }
    }
    match t {
        TypeExpr::Unit | TypeExpr::SelfType => 0,
        TypeExpr::Path { args, .. } => list(args),
        TypeExpr::Reference { scope, inner, .. } => {
            (*scope == ScopeRef::CallScope) as usize + count_call_scope(inner)
        }
        TypeExpr::RefAlias { scope, .. } => (*scope == Some(ScopeRef::CallScope)) as usize,
        TypeExpr::Handle { scope, output, .. } => {
            (*scope == ScopeRef::CallScope) as usize + count_call_scope(output)
        }
    }
}

#[test]
fn elaborate_sig_binds_all_elided_occurrences_to_one_scope() {
    // Three elided occurrences spread over two parameters and the return
    // type; afterwards all three reference the single generated scope.
    let sig = MethodSig {
        name: METHOD,
        generics: vec![GenericParam::Opaque(20)],
        params: vec![
            plain_param(1, reference(ScopeRef::Implicit, false, named(DATA)), sp(1)),
            plain_param(2, reference(ScopeRef::Placeholder, true, named(DATA)), sp(2)),
        ],
        ret: reference(ScopeRef::Implicit, false, named(DATA)),
        wheres: vec![],
        span: sp(9),
    };
    let (out, introduced) = elaborate_sig(sig).unwrap();
    assert_eq!(introduced, vec![GenericParam::CallScopeParam]);
    let total: usize = out
        .params
        .iter()
        .map(|p| count_call_scope(&p.ty))
        .sum::<usize>()
        + count_call_scope(&out.ret);
    assert_eq!(total, 3);
    assert_eq!(out.generics, vec![GenericParam::Opaque(20)]);
    assert_eq!(out.name, METHOD);
    assert_eq!(out.span, sp(9));
}

#[test]
fn elaborate_sig_reports_ambiguity_at_parameter_span() {
    // Scenario: an alias expanding to a reference, used with no written
    // scope, makes elaboration fail at that parameter's span.
    let sig = MethodSig {
        name: METHOD,
        generics: vec![],
        params: vec![
            plain_param(1, named(DATA), sp(1)),
            plain_param(
                2,
                TypeExpr::RefAlias {
                    name: ALIAS,
                    scope: None,
                },
                sp(2),
            ),
        ],
        ret: TypeExpr::Unit,
        wheres: vec![],
        span: sp(9),
    };
    let d = elaborate_sig(sig).unwrap_err();
    assert_eq!(
        d,
        Diagnostic {
            kind: DiagnosticKind::AmbiguousBorrowScope,
            span: sp(2),
        }
    );
}

#[test]
fn elaborate_sig_reports_return_type_ambiguity_at_method_span() {
    let sig = MethodSig {
        name: METHOD,
        generics: vec![],
        params: vec![],
        ret: TypeExpr::RefAlias {
            name: ALIAS,
            scope: None,
        },
        wheres: vec![],
        span: sp(9),
    };
    let d = elaborate_sig(sig).unwrap_err();
    assert_eq!(d.kind, DiagnosticKind::AmbiguousBorrowScope);
    assert_eq!(d.span, sp(9));
}

#[test]
fn parse_args_accepts_empty_and_local() {
    assert_eq!(parse_args(&RawArgs::NoArg, LOCAL_KW), Ok(false));
    assert_eq!(parse_args(&RawArgs::Arg(LOCAL_KW, sp(5)), LOCAL_KW), Ok(true));
}

#[test]
fn parse_args_rejects_unknown_argument() {
    let d = parse_args(&RawArgs::Arg(42, sp(5)), LOCAL_KW).unwrap_err();
    assert_eq!(
        d,
        Diagnostic {
            kind: DiagnosticKind::InvalidConfiguration,
            span: sp(5),
        }
    );
}

#[test]
fn diagnostic_messages_name_each_failure() {
    let malformed = Diagnostic {
        kind: DiagnosticKind::MalformedTarget,
        span: sp(0),
    };
    let config = Diagnostic {
        kind: DiagnosticKind::InvalidConfiguration,
        span: sp(0),
    };
    let ambiguous = Diagnostic {
        kind: DiagnosticKind::AmbiguousBorrowScope,
        span: sp(0),
    };
    assert_eq!(config.message(), "unrecognized configuration argument");
    assert!(malformed.message().contains("contract declarations"));
    assert!(ambiguous.message().contains("scope"));
    assert_ne!(malformed.message(), ambiguous.message());
}

#[test]
fn parse_item_rejects_function_and_data_type() {
    let d = parse_item(RawItem::Function(sp(3))).unwrap_err();
    assert_eq!(d.kind, DiagnosticKind::MalformedTarget);
    assert_eq!(d.span, sp(3));
    let d = parse_item(RawItem::DataType(sp(4))).unwrap_err();
    assert_eq!(d.kind, DiagnosticKind::MalformedTarget);
    assert_eq!(d.span, sp(4));
}
