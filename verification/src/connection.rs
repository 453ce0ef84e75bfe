//! The wrapper of a connection.
use std::sync::{Arc, LockResult, Mutex};

use diesel::query_builder::CollectedQuery;
use diesel::{ConnectionResult, QueryResult};
use futures_util::future::FutureObj;
use vstd::future::FutureAdditionalSpecFns;
use vstd::prelude::*;

use crate::error::{
    bad_connection, bad_connection_of, from_spawn_blocking_error, spawn_blocking_error, SpawnError,
};
use crate::exclusive::{
    grant, grant_despite_poison, granted, granted_despite_poison, look_up, looked_up,
    ExclusiveAccessError,
};
use crate::lock::{handed_out, ran, with_lock, worked, Locked};
use crate::pending::{map_pending, start_when_awaited};
use crate::query::{made_of, prepare_query, prepared, run_prepared};
use crate::runtime::{spawn, SpawnBlocking, Tokio};
use crate::task::{Batch, Connecting, Given, GivenForTwo, Prepared, Task};

verus! {

/// A blocking connection, usable from futures.
///
/// Each operation runs as a blocking task of the runtime. The connection is locked
/// while a task runs.
#[verifier::reject_recursive_types(C)]
pub struct SyncConnectionWrapper<C, S = Tokio> {
    inner: Arc<Mutex<C>>,
    runtime: S,
}

/// `result` is what a query ends in where `outcome` came of its task.
pub open spec fn settled<R>(
    outcome: Result<QueryResult<R>, SpawnError>,
    result: QueryResult<R>,
) -> bool {
    match outcome {
        Ok(returned) => result == returned,
        Err(failure) => result == Err::<R, diesel::result::Error>(spawn_blocking_error(failure)),
    }
}

/// The result of a query, from what came of its task: what the task returned, or
/// the error that stands for the failure of the runtime.
pub fn settle<R>(outcome: Result<QueryResult<R>, SpawnError>) -> (result: QueryResult<R>)
    ensures
        settled(outcome, result),
{
    match outcome {
        Ok(returned) => returned,
        Err(failure) => Err(from_spawn_blocking_error(failure)),
    }
}

/// `result` is what a query ends in where `runtime` gave no result of its task.
pub open spec fn spawn_failed<S: SpawnBlocking, R>(runtime: S, result: QueryResult<R>) -> bool {
    exists|failure: SpawnError|
        S::refuses(runtime, failure) && #[trigger] settled(
            Err::<QueryResult<R>, SpawnError>(failure),
            result,
        )
}

/// `result` is what `task` returned when it was run on what `mutex` holds, under its
/// lock, handed back by `runtime`; or what a query ends in where `runtime` gave no
/// result of its task.
pub open spec fn answered<C, S: SpawnBlocking, R, F: FnOnce(&mut C) -> QueryResult<R>>(
    mutex: Mutex<C>,
    runtime: S,
    task: F,
    result: QueryResult<R>,
) -> bool {
    ||| ran(mutex, task, result) && S::delivers(runtime, result)
    ||| spawn_failed(runtime, result)
}

/// `wrapper` is what establishing a connection ends in where `outcome` came of its
/// task.
pub open spec fn established<C, S>(
    outcome: Result<ConnectionResult<C>, SpawnError>,
    runtime: S,
    wrapper: ConnectionResult<SyncConnectionWrapper<C, S>>,
) -> bool {
    match outcome {
        Ok(Ok(connection)) => {
            &&& wrapper matches Ok(wrapper)
            &&& wrapper.made_from(connection)
            &&& wrapper.spawner() == runtime
        },
        Ok(Err(error)) => wrapper == Err::<
            SyncConnectionWrapper<C, S>,
            diesel::ConnectionError,
        >(error),
        Err(failure) => wrapper == Err::<SyncConnectionWrapper<C, S>, diesel::ConnectionError>(
            bad_connection_of(failure.message@),
        ),
    }
}

/// `outcome` came of running `connect` as a task of `runtime`: what it returned for an
/// address with the text `url`, or a reason of the runtime.
pub open spec fn connected_by<C, S: SpawnBlocking, F: FnOnce(&str) -> ConnectionResult<C>>(
    runtime: S,
    outcome: Result<ConnectionResult<C>, SpawnError>,
    url: Seq<char>,
    connect: F,
) -> bool {
    match outcome {
        Ok(connected) => {
            &&& S::delivers(runtime, connected)
            &&& exists|address: &str|
                address@ == url && #[trigger] call_ensures(connect, (address,), connected)
        },
        Err(failure) => S::refuses(runtime, failure),
    }
}

/// `callback` was run on the query, with what `mutex` holds, under its lock; or
/// the query could not be prepared, and its error is the result.
pub open spec fn ran_prepared<
    C,
    MD,
    R,
    F: FnOnce(&mut C, &CollectedQuery<MD>) -> QueryResult<R>,
>(
    mutex: Mutex<C>,
    query: QueryResult<CollectedQuery<MD>>,
    callback: F,
    result: QueryResult<R>,
) -> bool {
    exists|connection: &mut C|
        handed_out(mutex, connection) && #[trigger] run_prepared(
            connection,
            query,
            callback,
            result,
        )
}

/// Running the task of a prepared query is running its callback, or ending in its error.
proof fn task_of_a_prepared_query<
    C,
    MD,
    R,
    F: FnOnce(&mut C, &CollectedQuery<MD>) -> QueryResult<R>,
>(mutex: Mutex<C>, query: QueryResult<CollectedQuery<MD>>, callback: F)
    ensures
        forall|result: QueryResult<R>| #[trigger]
            worked(mutex, Prepared { query, callback: GivenForTwo(callback) }, result) ==> ran_prepared(
                mutex,
                query,
                callback,
                result,
            ),
{
    let task = Prepared { query, callback: GivenForTwo(callback) };
    assert forall|result: QueryResult<R>| #[trigger] worked(mutex, task, result) implies ran_prepared(
        mutex,
        query,
        callback,
        result,
    ) by {
        let connection = choose|connection: &mut C|
            handed_out(mutex, connection) && #[trigger] task.gives(connection, result);
        assert(run_prepared(connection, query, callback, result));
    }
}

impl<C, S> SyncConnectionWrapper<C, S> {
    /// The mutex that holds the connection.
    pub closed spec fn mutex(&self) -> Mutex<C> {
        *self.inner
    }

    /// The runtime that runs the tasks.
    pub closed spec fn spawner(&self) -> S {
        self.runtime
    }

    /// The wrapper's mutex is a new one, made to hold `connection`.
    pub open spec fn made_from(&self, connection: C) -> bool {
        call_ensures(Mutex::<C>::new, (connection,), self.mutex())
    }

    /// Wraps a connection, with a new instance of the runtime.
    pub fn new(connection: C) -> (wrapper: Self) where S: SpawnBlocking
        ensures
            wrapper.made_from(connection),
            call_ensures(S::get_runtime, (), wrapper.spawner()),
            call_ensures(Self::with_runtime, (connection, wrapper.spawner()), wrapper),
    {
        Self::with_runtime(connection, S::get_runtime())
    }

    /// Wraps a connection, with the runtime to spawn its tasks on.
    pub fn with_runtime(connection: C, runtime: S) -> (wrapper: Self) where S: SpawnBlocking
        ensures
            wrapper.made_from(connection),
            wrapper.spawner() == runtime,
    {
        SyncConnectionWrapper { inner: Arc::new(Mutex::new(connection)), runtime }
    }

    /// Establishes a connection with `connect`, as a task of a new runtime, and
    /// wraps it with that runtime. Nothing is done before the future is awaited.
    ///
    /// `connect` is given the address. Its error is returned as it is; the failure
    /// of the runtime is returned as a bad connection.
    pub fn establish<'a, F>(database_url: &str, connect: F) -> (pending: FutureObj<
        'a,
        ConnectionResult<Self>,
    >) where
        C: Send + 'static,
        S: SpawnBlocking + Send + 'a,
        F: FnOnce(&str) -> ConnectionResult<C> + Send + 'static,

        requires
            S::runs() ==> forall|url: &str|
                url@ == database_url@ ==> #[trigger] call_requires(connect, (url,)),
        ensures
            pending.awaited() ==> exists|
                first: S,
                outcome: Result<ConnectionResult<C>, SpawnError>,
                runtime: S,
            |
                {
                    &&& #[trigger] call_ensures(S::get_runtime, (), first)
                    &&& connected_by(first, outcome, database_url@, connect)
                    &&& S::steps(first, runtime)
                    &&& exists|
                        at: &mut S,
                        address: String,
                        spawned: FutureObj<'a, Result<ConnectionResult<C>, SpawnError>>,
                    |
                        {
                            &&& *at == first
                            &&& *final(at) == runtime
                            &&& address@ == database_url@
                            &&& #[trigger] call_ensures(
                                spawn::<S, ConnectionResult<C>, Connecting<String, Given<F>>>,
                                (at, (Connecting { address, connect: Given(connect) })),
                                spawned,
                            )
                            &&& spawned.awaited()
                            &&& spawned@ == outcome
                        }
                    &&& #[trigger] established(outcome, runtime, pending@)
                },
    {
        let ghost text = database_url@;
        let database_url = database_url.to_string();
        start_when_awaited(
            database_url,
            move |database_url: String| -> (pending: FutureObj<'a, ConnectionResult<Self>>)
                requires
                    database_url@ == text,
                ensures
                    pending.awaited() ==> exists|
                        first: S,
                        outcome: Result<ConnectionResult<C>, SpawnError>,
                        runtime: S,
                    |
                        {
                            &&& #[trigger] call_ensures(S::get_runtime, (), first)
                            &&& connected_by(first, outcome, text, connect)
                            &&& S::steps(first, runtime)
                            &&& exists|
                                at: &mut S,
                                address: String,
                                spawned: FutureObj<'a, Result<ConnectionResult<C>, SpawnError>>,
                            |
                                {
                                    &&& *at == first
                                    &&& *final(at) == runtime
                                    &&& address@ == text
                                    &&& #[trigger] call_ensures(
                                        spawn::<S, ConnectionResult<C>, Connecting<String, Given<F>>>,
                                        (at, (Connecting { address, connect: Given(connect) })),
                                        spawned,
                                    )
                                    &&& spawned.awaited()
                                    &&& spawned@ == outcome
                                }
                            &&& #[trigger] established(outcome, runtime, pending@)
                        }
                {
                    let mut runtime = S::get_runtime();
                    let pending = spawn(
                        &mut runtime,
                        Connecting { address: database_url, connect: Given(connect) },
                    );
                    map_pending(
                        pending,
                        move |outcome: Result<ConnectionResult<C>, SpawnError>| -> (wrapper:
                            ConnectionResult<Self>)
                            ensures
                                established(outcome, runtime, wrapper)
                            { Self::finish_establish(outcome, runtime) },
                    )
                },
        )
    }

    /// Ends the establishing of a connection, from what came of its task.
    pub fn finish_establish(
        outcome: Result<ConnectionResult<C>, SpawnError>,
        runtime: S,
    ) -> (wrapper: ConnectionResult<Self>) where S: SpawnBlocking
        ensures
            established(outcome, runtime, wrapper),
    {
        match outcome {
            Ok(Ok(connection)) => Ok(SyncConnectionWrapper::with_runtime(connection, runtime)),
            Ok(Err(error)) => Err(error),
            Err(failure) => Err(bad_connection(failure.message)),
        }
    }

    /// Runs an operation directly on the connection.
    ///
    /// This is useful to register custom functions and collations, for example.
    ///
    /// The task runs under the lock of the connection, also where an earlier task
    /// panicked. What it returns is what the future resolves to. Where the runtime
    /// gives no result of the task, the future resolves to the error that the
    /// command could not be sent, with the runtime's reason.
    pub fn spawn_blocking<'a, R>(
        &mut self,
        task: impl FnOnce(&mut C) -> QueryResult<R> + Send + 'static,
    ) -> (pending: FutureObj<'a, QueryResult<R>>) where
        C: Send + 'static,
        R: Send + 'static,
        S: SpawnBlocking,

        requires
            S::runs() ==> forall|connection: &mut C|
                handed_out(old(self).mutex(), connection) ==> #[trigger] call_requires(
                    task,
                    (connection,),
                ),
        ensures
            pending.awaited() ==> answered(
                old(self).mutex(),
                old(self).spawner(),
                task,
                pending@,
            ),
            final(self).mutex() == old(self).mutex(),
            S::steps(old(self).spawner(), final(self).spawner()),
            exists|wrapper: &mut Self|
                {
                    &&& *wrapper == *old(self)
                    &&& *final(wrapper) == *final(self)
                    &&& #[trigger] call_ensures(
                        Self::spawn_task::<R, Given<_>>,
                        (wrapper, Given(task)),
                        pending,
                    )
                },
    {
        self.spawn_task(Given(task))
    }

    /// Runs a task on the connection, under its lock. What it gives is what the future
    /// resolves to, or the error that the command could not be sent.
    pub fn spawn_task<'a, R, T>(&mut self, task: T) -> (pending: FutureObj<'a, QueryResult<R>>) where
        C: Send + 'static,
        R: Send + 'static,
        S: SpawnBlocking,
        T: for <'c>Task<&'c mut C, QueryResult<R>> + Send + 'static,

        requires
            S::runs() ==> forall|connection: &mut C|
                handed_out(old(self).mutex(), connection) ==> #[trigger] task.accepts(connection),
        ensures
            pending.awaited() ==> {
                ||| S::delivers(old(self).spawner(), pending@) && worked(
                    old(self).mutex(),
                    task,
                    pending@,
                )
                ||| spawn_failed(old(self).spawner(), pending@)
            },
            final(self).mutex() == old(self).mutex(),
            S::steps(old(self).spawner(), final(self).spawner()),
            exists|
                at: &mut S,
                mutex: Arc<Mutex<C>>,
                spawned: FutureObj<'a, Result<QueryResult<R>, SpawnError>>,
            |
                {
                    &&& *at == old(self).spawner()
                    &&& *final(at) == final(self).spawner()
                    &&& *mutex == old(self).mutex()
                    &&& #[trigger] call_ensures(
                        spawn::<S, QueryResult<R>, Locked<C, T>>,
                        (at, (Locked { mutex, task })),
                        spawned,
                    )
                    &&& pending.awaited() ==> spawned.awaited() && call_ensures(
                        settle::<R>,
                        (spawned@,),
                        pending@,
                    )
                },
    {
        let pending = spawn(&mut self.runtime, Locked { mutex: self.inner.clone(), task });
        map_pending(pending, settle)
    }

    /// Runs a task on the connection, and spawns it not before the future is awaited.
    pub fn spawn_when_awaited<'a, R, T>(&'a mut self, task: T) -> (pending: FutureObj<
        'a,
        QueryResult<R>,
    >) where
        C: Send + 'static,
        R: Send + 'static,
        S: SpawnBlocking + Send,
        T: for <'c>Task<&'c mut C, QueryResult<R>> + Send + 'static,

        requires
            S::runs() ==> forall|connection: &mut C|
                handed_out(old(self).mutex(), connection) ==> #[trigger] task.accepts(connection),
        ensures
            pending.awaited() ==> {
                &&& {
                    ||| S::delivers(old(self).spawner(), pending@) && worked(
                        old(self).mutex(),
                        task,
                        pending@,
                    )
                    ||| spawn_failed(old(self).spawner(), pending@)
                }
                &&& final(self).mutex() == old(self).mutex()
                &&& S::steps(old(self).spawner(), final(self).spawner())
                &&& exists|wrapper: &mut Self, spawned: FutureObj<'a, QueryResult<R>>|
                    {
                        &&& *wrapper == *old(self)
                        &&& *final(wrapper) == *final(self)
                        &&& #[trigger] call_ensures(
                            Self::spawn_task::<R, T>,
                            (wrapper, task),
                            spawned,
                        )
                        &&& spawned.awaited()
                        &&& pending@ == spawned@
                    }
            },
    {
        let ghost mutex = self.mutex();
        start_when_awaited(
            self,
            move |wrapper: &'a mut Self| -> (pending: FutureObj<'a, QueryResult<R>>)
                requires
                    wrapper.mutex() == mutex,
                ensures
                    pending.awaited() ==> {
                        ||| S::delivers(old(wrapper).spawner(), pending@) && worked(
                            old(wrapper).mutex(),
                            task,
                            pending@,
                        )
                        ||| spawn_failed(old(wrapper).spawner(), pending@)
                    },
                    final(wrapper).mutex() == old(wrapper).mutex(),
                    S::steps(old(wrapper).spawner(), final(wrapper).spawner()),
                    exists|same: &mut Self|
                        {
                            &&& *same == *old(wrapper)
                            &&& *final(same) == *final(wrapper)
                            &&& #[trigger] call_ensures(
                                Self::spawn_task::<R, T>,
                                (same, task),
                                pending,
                            )
                        }
                { wrapper.spawn_task(task) },
        )
    }

    /// Runs `execute` on the connection, with a text of SQL statements. Nothing is
    /// done before the future is awaited.
    pub fn batch_execute<'a, F>(&'a mut self, query: &str, execute: F) -> (pending: FutureObj<
        'a,
        QueryResult<()>,
    >) where
        C: Send + 'static,
        S: SpawnBlocking + Send,
        F: FnOnce(&mut C, &str) -> QueryResult<()> + Send + 'static,

        requires
            S::runs() ==> forall|connection: &mut C, sql: &str|
                handed_out(old(self).mutex(), connection) && sql@ == query@
                    ==> #[trigger] call_requires(execute, (connection, sql)),
        ensures
            pending.awaited() ==> {
                ||| S::delivers(old(self).spawner(), pending@) && exists|
                    connection: &mut C,
                    sql: &str,
                |
                    {
                        &&& handed_out(old(self).mutex(), connection)
                        &&& sql@ == query@
                        &&& #[trigger] call_ensures(execute, (connection, sql), pending@)
                    }
                ||| spawn_failed(old(self).spawner(), pending@)
            },
            pending.awaited() ==> final(self).mutex() == old(self).mutex(),
            pending.awaited() ==> S::steps(old(self).spawner(), final(self).spawner()),
            exists|wrapper: &mut Self, text: String|
                {
                    &&& *wrapper == *old(self)
                    &&& *final(wrapper) == *final(self)
                    &&& text@ == query@
                    &&& #[trigger] call_ensures(
                        Self::spawn_when_awaited::<(), Batch<String, GivenForTwo<F>>>,
                        (wrapper, (Batch { query: text, execute: GivenForTwo(execute) })),
                        pending,
                    )
                },
    {
        let query = query.to_string();
        self.spawn_when_awaited(Batch { query, execute: GivenForTwo(execute) })
    }

    /// Runs `callback` on the connection, with a query that can be moved to another
    /// thread.
    ///
    /// `collect_binds` collects the values to bind, and returns with them whether they
    /// could all be collected. It runs at once, on the caller's thread and under the
    /// lock of the connection. After it `to_sql`, which gives the text of the query,
    /// and `is_safe_to_cache_prepared`, which says whether the prepared statement may
    /// be kept, run without the lock. An error in any of the three is what the future
    /// resolves to, the first one in this order; `callback` is then not run.
    ///
    /// A task must not call this on the wrapper that runs it: it would wait for its
    /// own lock.
    pub fn execute_with_prepared_query<'a, MD, R, B, Q, P, F>(
        &mut self,
        collect_binds: B,
        to_sql: Q,
        is_safe_to_cache_prepared: P,
        callback: F,
    ) -> (pending: FutureObj<'a, QueryResult<R>>) where
        C: Send + 'static,
        MD: Send + 'static,
        R: Send + 'static,
        S: SpawnBlocking,
        B: FnOnce(&mut C) -> (QueryResult<()>, MD),
        Q: FnOnce() -> QueryResult<String>,
        P: FnOnce() -> QueryResult<bool>,
        F: FnOnce(&mut C, &CollectedQuery<MD>) -> QueryResult<R> + Send + 'static,

        requires
            forall|connection: &mut C|
                handed_out(old(self).mutex(), connection) ==> #[trigger] call_requires(
                    collect_binds,
                    (connection,),
                ),
            call_requires(to_sql, ()),
            call_requires(is_safe_to_cache_prepared, ()),
            S::runs() ==> forall|
                connection: &mut C,
                query: CollectedQuery<MD>,
                sql: String,
                is_safe: bool,
                bind_data: MD,
            |
                #![trigger made_of(query, sql, is_safe, bind_data), call_requires(callback, (connection, &query))]
                {
                    &&& handed_out(old(self).mutex(), connection)
                    &&& ran(
                        old(self).mutex(),
                        collect_binds,
                        (Ok::<(), diesel::result::Error>(()), bind_data),
                    )
                    &&& call_ensures(to_sql, (), Ok::<String, diesel::result::Error>(sql))
                    &&& call_ensures(
                        is_safe_to_cache_prepared,
                        (),
                        Ok::<bool, diesel::result::Error>(is_safe),
                    )
                    &&& made_of(query, sql, is_safe, bind_data)
                } ==> call_requires(callback, (connection, &query)),
        ensures
            exists|
                collected: QueryResult<()>,
                bind_data: MD,
                sql: QueryResult<String>,
                is_safe: QueryResult<bool>,
            |
                {
                    &&& #[trigger] ran(old(self).mutex(), collect_binds, (collected, bind_data))
                    &&& #[trigger] call_ensures(to_sql, (), sql)
                    &&& #[trigger] call_ensures(is_safe_to_cache_prepared, (), is_safe)
                    &&& pending.awaited() ==> {
                        ||| S::delivers(old(self).spawner(), pending@) && exists|
                            query: QueryResult<CollectedQuery<MD>>,
                        |
                            {
                                &&& #[trigger] prepared(collected, sql, is_safe, bind_data, query)
                                &&& ran_prepared(old(self).mutex(), query, callback, pending@)
                            }
                        ||| spawn_failed(old(self).spawner(), pending@)
                    }
                    &&& exists|wrapper: &mut Self, query: QueryResult<CollectedQuery<MD>>|
                        {
                            &&& *wrapper == *old(self)
                            &&& *final(wrapper) == *final(self)
                            &&& prepared(collected, sql, is_safe, bind_data, query)
                            &&& #[trigger] call_ensures(
                                Self::spawn_task::<R, Prepared<CollectedQuery<MD>, diesel::result::Error, GivenForTwo<F>>>,
                                (wrapper, (Prepared { query, callback: GivenForTwo(callback) })),
                                pending,
                            )
                        }
                },
            final(self).mutex() == old(self).mutex(),
            S::steps(old(self).spawner(), final(self).spawner()),
    {
        let (collected, bind_data) = with_lock(&self.inner, Given(collect_binds));
        let sql = to_sql();
        let is_safe = is_safe_to_cache_prepared();
        let query = prepare_query(collected, sql, is_safe, bind_data);
        proof {
            assert(ran(self.mutex(), collect_binds, (collected, bind_data)));
            task_of_a_prepared_query::<C, MD, R, F>(self.mutex(), query, callback);
            if query is Ok {
                assert(collected->Ok_0 == ());
                assert(made_of(query->Ok_0, sql->Ok_0, is_safe->Ok_0, bind_data));
            }
        }
        self.spawn_task(Prepared { query, callback: GivenForTwo(callback) })
    }

    /// The connection itself, where no task shares it and none panicked with it.
    ///
    /// This is used during a transaction, when no future is pending.
    pub fn exclusive_connection(&mut self) -> (access: Result<&mut C, ExclusiveAccessError>)
        ensures
            exists|found: Option<LockResult<&mut C>>|
                looked_up(old(self).mutex(), found) && #[trigger] granted(found, access),
            final(self).mutex() == old(self).mutex(),
            final(self).spawner() == old(self).spawner(),
    {
        grant(look_up(&mut self.inner))
    }

    /// The connection itself, where no task shares it.
    ///
    /// This is used to reach its settings, such as its instrumentation and the size
    /// of its statement cache, which a panic of a task leaves intact.
    pub fn connection_despite_poison(&mut self) -> (access: Result<&mut C, ExclusiveAccessError>)
        ensures
            exists|found: Option<LockResult<&mut C>>|
                looked_up(old(self).mutex(), found) && #[trigger] granted_despite_poison(
                    found,
                    access,
                ),
            final(self).mutex() == old(self).mutex(),
            final(self).spawner() == old(self).spawner(),
    {
        grant_despite_poison(look_up(&mut self.inner))
    }
}

} // verus!
