//! Declaration parsing: the attribute's argument and the annotated item.
//!
//! The host compiler hands the transformer an already-parsed syntax tree;
//! the driving attribute itself is already stripped from it. This component
//! only decides whether that tree is something the transformer accepts — a
//! contract declaration or an implementation block, with an empty argument
//! list or the single recognized configuration keyword — and reports a
//! structured diagnostic otherwise. Everything it accepts it passes on
//! verbatim: generic parameter lists, `where`-clauses, doc comments,
//! remaining attributes and method bodies all ride along as part of the
//! structured model, untouched.

use vstd::prelude::*;

use crate::ast::{Diagnostic, DiagnosticKind, Item, Span};

verus! {

/// The attribute's argument list: empty, or one identifier with its span.
#[derive(Clone, Copy, Debug, PartialEq, Eq, Structural)]
pub enum RawArgs {
    NoArg,
    Arg(u32, Span),
}

/// The annotated item as the host compiler supplies it: either one of the
/// two accepted declaration forms, already shaped as the structured model,
/// or some other item kind — a plain function, a data-type declaration, or
/// anything else — of which only the span matters, for the diagnostic.
#[derive(Debug, PartialEq, Eq)]
pub enum RawItem {
    Accepted(Item),
    Function(Span),
    DataType(Span),
    Other(Span),
}

/// Whether the argument list is one the transformer recognizes: empty, or
/// exactly the configuration keyword interned as `local_kw`.
pub open spec fn spec_args_valid(args: RawArgs, local_kw: u32) -> bool {
    match args {
        RawArgs::NoArg => true,
        RawArgs::Arg(name, _) => name == local_kw,
    }
}

/// Whether the argument list selects local mode.
pub open spec fn spec_args_local(args: RawArgs, local_kw: u32) -> bool {
    args matches RawArgs::Arg(name, _) && name == local_kw
}

/// The diagnostic for an unrecognized configuration argument, at the
/// argument's span.
pub open spec fn spec_args_error(args: RawArgs) -> Diagnostic {
    Diagnostic {
        kind: DiagnosticKind::InvalidConfiguration,
        span: match args {
            RawArgs::NoArg => Span { lo: 0, hi: 0 },
            RawArgs::Arg(_, span) => span,
        },
    }
}

/// The span of a rejected annotation target.
pub open spec fn spec_raw_span(raw: RawItem) -> Span {
    match raw {
        RawItem::Accepted(item) => match item {
            Item::Contract(c) => c.span,
            Item::Implementation(i) => i.span,
        },
        RawItem::Function(span) => span,
        RawItem::DataType(span) => span,
        RawItem::Other(span) => span,
    }
}

/// The diagnostic for an annotation target that is neither a contract
/// declaration nor an implementation block.
pub open spec fn spec_item_error(raw: RawItem) -> Diagnostic {
    Diagnostic { kind: DiagnosticKind::MalformedTarget, span: spec_raw_span(raw) }
}

/// Reads the attribute's argument list: an empty list selects the default
/// mode, the one recognized configuration keyword (interned by the
/// embedder as `local_kw`) selects local mode, and anything else is an
/// `InvalidConfiguration` diagnostic at the argument's span.
pub fn parse_args(args: &RawArgs, local_kw: u32) -> (r: Result<bool, Diagnostic>)
    ensures
        match r {
            Ok(local) => spec_args_valid(*args, local_kw) && local == spec_args_local(
                *args,
                local_kw,
            ),
            Err(d) => !spec_args_valid(*args, local_kw) && d == spec_args_error(*args),
        },
{
    match args {
        RawArgs::NoArg => Ok(false),
        RawArgs::Arg(name, span) => {
            if *name == local_kw {
                Ok(true)
            } else {
                Err(Diagnostic { kind: DiagnosticKind::InvalidConfiguration, span: *span })
            }
        },
    }
}

/// Accepts a contract declaration or an implementation block, and rejects
/// every other annotation target with a `MalformedTarget` diagnostic at
/// the item's span.
pub fn parse_item(raw: RawItem) -> (r: Result<Item, Diagnostic>)
    ensures
        match r {
            Ok(item) => raw matches RawItem::Accepted(inner) && item == inner,
            Err(d) => !(raw is Accepted) && d == spec_item_error(raw),
        },
{
    match raw {
        RawItem::Accepted(item) => Ok(item),
        RawItem::Function(span) => Err(
            Diagnostic { kind: DiagnosticKind::MalformedTarget, span },
        ),
        RawItem::DataType(span) => Err(
            Diagnostic { kind: DiagnosticKind::MalformedTarget, span },
        ),
        RawItem::Other(span) => Err(Diagnostic { kind: DiagnosticKind::MalformedTarget, span }),
    }
}

} // verus!
