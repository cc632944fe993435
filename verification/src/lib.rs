//! Rewrites interface-like contracts so that methods marked asynchronous —
//! which the host type system does not permit inside contracts — become
//! expressible with features the host compiler already supports.
//!
//! The pipeline: the declaration parser checks that the annotated item is a
//! contract or an implementation block; for every asynchronous method the
//! receiver classifier determines the receiver's shape, the borrow-scope
//! elaborator threads one generated call-duration scope through every
//! implicitly scoped reference, and the expansion engine rewrites the method
//! into an outer synchronous method returning a heap-owned handle to a
//! deferred computation, plus an inner freestanding function holding the
//! original body. Synchronous methods and every preserved syntactic element
//! pass through unchanged. Each annotated item is processed on its own:
//! the transformer keeps no state across invocations, and one item's
//! failure never touches another's expansion.

use vstd::prelude::*;

pub mod ast;
pub mod expand;
pub mod lifetime;
pub mod parse;
pub mod receiver;

use crate::ast::{Diagnostic, ExpansionContext};
use crate::expand::{expand, spec_expanded_item, spec_item_diag, spec_item_has_ambiguity, OutItem};
use crate::parse::{
    parse_args, parse_item, spec_args_error, spec_args_local, spec_args_valid, spec_item_error,
    RawArgs, RawItem,
};

verus! {

/// The whole transformation, as the host compiler invokes it once per
/// annotated item: reads the attribute's argument (`local_kw` is the
/// embedder's interned id of the one recognized configuration keyword),
/// parses the annotated item, and expands it.
///
/// Succeeds exactly on a recognized argument list, an accepted annotation
/// target, and methods free of unbindable borrow scopes; otherwise the
/// first diagnostic is reported: an unrecognized configuration argument at
/// its own span, then an annotation target that is neither a contract nor
/// an implementation at the item's span, then an ambiguous borrow scope at
/// the offending parameter's span.
pub fn async_trait(args: &RawArgs, local_kw: u32, input: RawItem) -> (r: Result<
    OutItem,
    Diagnostic,
>)
    ensures
        match r {
            Ok(out) => {
                &&& spec_args_valid(*args, local_kw)
                &&& input matches RawItem::Accepted(item) && !spec_item_has_ambiguity(item)
                    && spec_expanded_item(
                    (ExpansionContext { local: spec_args_local(*args, local_kw) }),
                    item,
                    out,
                )
            },
            Err(d) => {
                &&& !spec_args_valid(*args, local_kw) || !(input is Accepted) || (
                input matches RawItem::Accepted(item) && spec_item_has_ambiguity(item))
                &&& !spec_args_valid(*args, local_kw) ==> d == spec_args_error(*args)
                &&& spec_args_valid(*args, local_kw) && !(input is Accepted) ==> d
                    == spec_item_error(input)
                &&& input matches RawItem::Accepted(item) ==> (spec_args_valid(*args, local_kw)
                    ==> spec_item_has_ambiguity(item) && d == spec_item_diag(item))
            },
        },
{
    let local = match parse_args(args, local_kw) {
        Ok(local) => local,
        Err(d) => {
            return Err(d);
        },
    };
    let item = match parse_item(input) {
        Ok(item) => item,
        Err(d) => {
            return Err(d);
        },
    };
    let ctx = ExpansionContext { local };
    expand(item, &ctx)
}

} // verus!
