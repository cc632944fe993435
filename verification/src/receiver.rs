//! Receiver classification: the shape of a method's self-parameter.

use vstd::prelude::*;

use crate::ast::{Param, ParamName, Receiver, TypeExpr};

verus! {

/// The classification of a parameter list's receiver, in priority order:
/// no first parameter named as a self-reference gives `NoReceiver`; the
/// bare receiver type gives `ByValue`; an immutable or mutable reference
/// to the receiver type gives `ByReference` or `ByMutableReference`.
/// Malformed receiver shapes never reach this component — the host grammar
/// rejects them upstream — and fall back to `NoReceiver` here only to keep
/// the definition total.
pub open spec fn spec_classify(params: Seq<Param>) -> Receiver {
    if params.len() == 0 {
        Receiver::NoReceiver
    } else if !(params[0].name is SelfName) {
        Receiver::NoReceiver
    } else {
        match params[0].ty {
            TypeExpr::SelfType => Receiver::ByValue,
            TypeExpr::Reference { scope: _, mutable, inner } => {
                if *inner is SelfType {
                    if mutable {
                        Receiver::ByMutableReference
                    } else {
                        Receiver::ByReference
                    }
                } else {
                    Receiver::NoReceiver
                }
            },
            _ => Receiver::NoReceiver,
        }
    }
}

/// Classifies the receiver of a method's parameter list.
pub fn classify_receiver(params: &Vec<Param>) -> (r: Receiver)
    ensures
        r == spec_classify(params@),
{
    if params.len() == 0 {
        return Receiver::NoReceiver;
    }
    let p = &params[0];
    match p.name {
        ParamName::SelfName => {},
        _ => {
            return Receiver::NoReceiver;
        },
    }
    match &p.ty {
        TypeExpr::SelfType => Receiver::ByValue,
        TypeExpr::Reference { scope: _, mutable, inner } => {
            match &**inner {
                TypeExpr::SelfType => {
                    if *mutable {
                        Receiver::ByMutableReference
                    } else {
                        Receiver::ByReference
                    }
                },
                _ => Receiver::NoReceiver,
            }
        },
        _ => Receiver::NoReceiver,
    }
}

} // verus!
