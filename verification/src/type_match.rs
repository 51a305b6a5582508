//! The strict form of the sealing transformation: the `enum` key always
//! takes a name (`enum = Name`), and the variant enum is emitted whether or
//! not a key asks for it.

use vstd::prelude::*;

use crate::ast::TraitDecl;
use crate::config::SealError;
use crate::emit::{SealOutput, SealOutputView};
use crate::transform::{transform, spec_transform};

verus! {

/// Seal a trait over the given implementor list: strip and parse the seal
/// attributes, add the hidden marker module and its supertrait bound, and
/// always emit the variant enum with its conversion impls.
pub fn sealed(args: &Vec<String>, input: &TraitDecl) -> (r: Result<SealOutput, SealError>)
    ensures
        (match r {
            Ok(o) => spec_transform(args.deep_view(), input.deep_view(), false, true) == Ok::<
                _,
                SealError,
            >(o.deep_view()),
            Err(e) => spec_transform(args.deep_view(), input.deep_view(), false, true) == Err::<
                SealOutputView,
                _,
            >(e),
        }),
{
    transform(args, input, false, true)
}

} // verus!
