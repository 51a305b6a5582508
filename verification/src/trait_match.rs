//! The general form of the sealing transformation: a bare `enum` key is
//! accepted, and the variant enum is emitted only when the `enum` or
//! `upcast` key asks for it.

use vstd::prelude::*;

use crate::ast::TraitDecl;
use crate::config::SealError;
use crate::emit::{SealOutput, SealOutputView};
use crate::transform::{transform, spec_transform};

verus! {

/// Seal a trait over the given implementor list: strip and parse the seal
/// attributes, add the hidden marker module and its supertrait bound, and
/// emit the variant enum with its wiring impls when the configuration asks
/// for it.
pub fn sealed(args: &Vec<String>, input: &TraitDecl) -> (r: Result<SealOutput, SealError>)
    ensures
        (match r {
            Ok(o) => spec_transform(args.deep_view(), input.deep_view(), true, false) == Ok::<
                _,
                SealError,
            >(o.deep_view()),
            Err(e) => spec_transform(args.deep_view(), input.deep_view(), true, false) == Err::<
                SealOutputView,
                _,
            >(e),
        }),
{
    transform(args, input, true, false)
}

/// The no-op placeholder: hands the declaration back unchanged, whatever
/// the argument list says.
pub fn unsealed(args: &Vec<String>, input: TraitDecl) -> (r: TraitDecl)
    ensures
        r == input,
{
    let _ = args;
    input
}

} // verus!
