//! Futures.
use std::future::Future;

use futures_util::future::{lazy, FutureObj};
use futures_util::FutureExt;
use vstd::future::FutureAdditionalSpecFns;
use vstd::prelude::*;

verus! {

/// `futures_util::future::FutureObj`, a boxed future that can be sent to another
/// thread. What it resolves to is `view`, of `vstd::future`.
#[verifier::external_type_specification]
#[verifier::external_body]
#[verifier::reject_recursive_types(T)]
pub struct ExFutureObj<'a, T>(FutureObj<'a, T>);

/// Calls `futures_util::FutureExt::map`, and puts its result in a box. The
/// contract claims that awaiting the new future awaits `future`, and resolves to
/// what `f` returns for what `future` resolved to.
#[verifier::external_body]
pub(crate) fn map_pending<'a, Fut, A, B, F>(future: Fut, f: F) -> (mapped: FutureObj<'a, B>)
    where
        Fut: Future<Output = A> + Send + 'a,
        B: 'a,
        F: FnOnce(A) -> B + Send + 'a,
    requires
        forall|a: A| call_requires(f, (a,)),
    ensures
        mapped.awaited() ==> future.awaited() && call_ensures(f, (future@,), mapped@),
{
    FutureObj::new(future.map(f).boxed())
}

/// Calls `futures_util::future::lazy` and `flatten` of `futures_util::FutureExt`, and
/// puts the result in a box. The contract claims that awaiting the new future calls
/// `start` with `argument`, awaits the future that it returns, and resolves to the
/// same. Nothing is called before; no clause says so.
#[verifier::external_body]
pub(crate) fn start_when_awaited<'a, A, B, F>(argument: A, start: F) -> (started: FutureObj<'a, B>)
    where
        A: Send + 'a,
        B: 'a,
        F: FnOnce(A) -> FutureObj<'a, B> + Send + 'a,
    requires
        call_requires(start, (argument,)),
    ensures
        started.awaited() ==> exists|inner: FutureObj<'a, B>|
            {
                &&& #[trigger] call_ensures(start, (argument,), inner)
                &&& inner.awaited()
                &&& started@ == inner@
            },
{
    FutureObj::new(lazy(|_| start(argument)).flatten().boxed())
}

} // verus!
