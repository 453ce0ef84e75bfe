//! Transactions on a wrapped connection.
use std::marker::PhantomData;

use diesel::QueryResult;
use futures_util::future::FutureObj;
use vstd::future::FutureAdditionalSpecFns;
use vstd::prelude::*;

use crate::connection::{answered, SyncConnectionWrapper};
use crate::lock::handed_out;
use crate::runtime::SpawnBlocking;
use crate::task::Given;

verus! {

/// A wrapper of the transaction manager `T` of a blocking connection, usable from
/// futures.
pub struct SyncTransactionManagerWrapper<T>(PhantomData<T>);

impl<T> SyncTransactionManagerWrapper<T> {
    /// Begins a transaction with `begin`, the operation of `T` for it. Nothing is
    /// done before the future is awaited.
    pub fn begin_transaction<'a, C, S, F>(
        conn: &'a mut SyncConnectionWrapper<C, S>,
        begin: F,
    ) -> (pending: FutureObj<'a, QueryResult<()>>) where
        C: Send + 'static,
        S: SpawnBlocking + Send,
        F: FnOnce(&mut C) -> QueryResult<()> + Send + 'static,

        requires
            S::runs() ==> forall|connection: &mut C|
                handed_out(old(conn).mutex(), connection) ==> #[trigger] call_requires(
                    begin,
                    (connection,),
                ),
        ensures
            pending.awaited() ==> {
                &&& answered(old(conn).mutex(), old(conn).spawner(), begin, pending@)
                &&& final(conn).mutex() == old(conn).mutex()
                &&& S::steps(old(conn).spawner(), final(conn).spawner())
            },
            exists|wrapper: &mut SyncConnectionWrapper<C, S>|
                {
                    &&& *wrapper == *old(conn)
                    &&& *final(wrapper) == *final(conn)
                    &&& #[trigger] call_ensures(
                        SyncConnectionWrapper::<C, S>::spawn_when_awaited::<(), Given<F>>,
                        (wrapper, Given(begin)),
                        pending,
                    )
                },
    {
        conn.spawn_when_awaited(Given(begin))
    }

    /// Commits a transaction with `commit`, the operation of `T` for it. Nothing is
    /// done before the future is awaited.
    pub fn commit_transaction<'a, C, S, F>(
        conn: &'a mut SyncConnectionWrapper<C, S>,
        commit: F,
    ) -> (pending: FutureObj<'a, QueryResult<()>>) where
        C: Send + 'static,
        S: SpawnBlocking + Send,
        F: FnOnce(&mut C) -> QueryResult<()> + Send + 'static,

        requires
            S::runs() ==> forall|connection: &mut C|
                handed_out(old(conn).mutex(), connection) ==> #[trigger] call_requires(
                    commit,
                    (connection,),
                ),
        ensures
            pending.awaited() ==> {
                &&& answered(old(conn).mutex(), old(conn).spawner(), commit, pending@)
                &&& final(conn).mutex() == old(conn).mutex()
                &&& S::steps(old(conn).spawner(), final(conn).spawner())
            },
            exists|wrapper: &mut SyncConnectionWrapper<C, S>|
                {
                    &&& *wrapper == *old(conn)
                    &&& *final(wrapper) == *final(conn)
                    &&& #[trigger] call_ensures(
                        SyncConnectionWrapper::<C, S>::spawn_when_awaited::<(), Given<F>>,
                        (wrapper, Given(commit)),
                        pending,
                    )
                },
    {
        conn.spawn_when_awaited(Given(commit))
    }

    /// Rolls a transaction back with `rollback`, the operation of `T` for it. Nothing is
    /// done before the future is awaited.
    pub fn rollback_transaction<'a, C, S, F>(
        conn: &'a mut SyncConnectionWrapper<C, S>,
        rollback: F,
    ) -> (pending: FutureObj<'a, QueryResult<()>>) where
        C: Send + 'static,
        S: SpawnBlocking + Send,
        F: FnOnce(&mut C) -> QueryResult<()> + Send + 'static,

        requires
            S::runs() ==> forall|connection: &mut C|
                handed_out(old(conn).mutex(), connection) ==> #[trigger] call_requires(
                    rollback,
                    (connection,),
                ),
        ensures
            pending.awaited() ==> {
                &&& answered(old(conn).mutex(), old(conn).spawner(), rollback, pending@)
                &&& final(conn).mutex() == old(conn).mutex()
                &&& S::steps(old(conn).spawner(), final(conn).spawner())
            },
            exists|wrapper: &mut SyncConnectionWrapper<C, S>|
                {
                    &&& *wrapper == *old(conn)
                    &&& *final(wrapper) == *final(conn)
                    &&& #[trigger] call_ensures(
                        SyncConnectionWrapper::<C, S>::spawn_when_awaited::<(), Given<F>>,
                        (wrapper, Given(rollback)),
                        pending,
                    )
                },
    {
        conn.spawn_when_awaited(Given(rollback))
    }
}

} // verus!
