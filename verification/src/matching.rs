//! Runtime model of matching over a dynamically typed value: a prioritized,
//! short-circuiting sequence of typed downcast attempts with a trailing
//! default. A value whose concrete type is erased is represented by the
//! name of that concrete type; an arm by the name of the type it tries.

use vstd::prelude::*;
use vstd::string::StringExecFns;

verus! {

/// How the matching helper accesses the underlying value.
#[derive(Clone, Copy, Debug, PartialEq, Eq, Structural)]
pub enum AccessMode {
    /// Consume the value (the `move` modifier).
    Consume,
    /// Take an exclusive mutable reference (the `mut ref` modifier).
    ExclusiveRef,
    /// Take a shared reference (the `ref` modifier, and the default).
    SharedRef,
}

/// The downcast operation and the success pattern that each access mode
/// selects on the underlying dynamically typed value.
pub fn mode_dispatch(mode: &AccessMode) -> (r: (String, String))
    ensures
        (match mode {
            AccessMode::Consume => r.0@ == "downcast"@ && r.1@ == "Ok"@,
            AccessMode::ExclusiveRef => r.0@ == "downcast_mut"@ && r.1@ == "Some"@,
            AccessMode::SharedRef => r.0@ == "downcast_ref"@ && r.1@ == "Some"@,
        }),
{
    match mode {
        AccessMode::Consume => ("downcast".to_owned(), "Ok".to_owned()),
        AccessMode::ExclusiveRef => ("downcast_mut".to_owned(), "Some".to_owned()),
        AccessMode::SharedRef => ("downcast_ref".to_owned(), "Some".to_owned()),
    }
}

/// Try each arm's type, in order, against the value's actual type. The
/// first arm whose type equals the value's type is selected, and only that
/// arm; when no arm matches, no arm is selected and the caller evaluates
/// its default instead.
pub fn any_match(tag: &String, arms: &Vec<String>) -> (r: Option<usize>)
    ensures
        (match r {
            Some(i) => i < arms@.len() && arms.deep_view()[i as int] == tag@ && forall|k: int|
                0 <= k < i ==> arms.deep_view()[k] != tag@,
            None => forall|k: int| 0 <= k < arms@.len() ==> arms.deep_view()[k] != tag@,
        }),
{
    let mut i: usize = 0;
    while i < arms.len()
        invariant
            i <= arms@.len(),
            forall|k: int| 0 <= k < i ==> arms.deep_view()[k] != tag@,
        decreases arms@.len() - i,
    {
        if arms[i] == *tag {
            proof {
                assert(arms.deep_view()[i as int] == arms@[i as int]@);
            }
            return Some(i);
        }
        proof {
            assert(arms.deep_view()[i as int] == arms@[i as int]@);
        }
        i = i + 1;
    }
    None
}

} // verus!
