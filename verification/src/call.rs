//! Calls that hand over the very argument they were given.
//!
//! A direct call `f(reference)` reborrows a mutable reference. A contract that
//! says where the reference came from needs the reference itself to be handed
//! over, which a parameter of generic type does.
use vstd::prelude::*;

verus! {

/// Calls `f` with `argument`.
pub(crate) fn call_with<A, R, F: FnOnce(A) -> R>(argument: A, f: F) -> (result: R)
    requires
        call_requires(f, (argument,)),
    ensures
        call_ensures(f, (argument,), result),
{
    f(argument)
}

/// Calls `f` with `first` and `second`.
pub(crate) fn call_with_both<A, B, R, F: FnOnce(A, B) -> R>(first: A, second: B, f: F) -> (result:
    R)
    requires
        call_requires(f, (first, second)),
    ensures
        call_ensures(f, (first, second), result),
{
    f(first, second)
}

/// Calls `f` with `first` and `second`; `f` stays usable.
pub(crate) fn call_again_with_both<A, B, R, F: Fn(A, B) -> R>(first: A, second: B, f: &F) -> (result:
    R)
    requires
        call_requires(*f, (first, second)),
    ensures
        call_ensures(*f, (first, second), result),
{
    f(first, second)
}

/// Puts two arguments into one.
pub(crate) fn both<A, B>(first: A, second: B) -> (pair: (A, B))
    ensures
        pair == (first, second),
    no_unwind
{
    (first, second)
}

} // verus!
