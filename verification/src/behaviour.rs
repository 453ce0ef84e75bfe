//! What each operation does with what it is given.
//!
//! The laws here tell it by the calls of other code that stand behind a result, and by
//! nothing else of the library.
use std::sync::{Arc, LockResult, Mutex, MutexGuard, PoisonError};

use diesel::query_builder::CollectedQuery;
use diesel::{ConnectionResult, QueryResult};
use futures_util::future::FutureObj;
use tokio::runtime::TryCurrentError;
use tokio::task::{JoinError, JoinHandle};
use vstd::future::FutureAdditionalSpecFns;
use vstd::prelude::*;
use vstd::std_specs::iter::IteratorSpec;

use crate::connection::{
    connected_by, established, ran_prepared, settle, spawn_failed, SyncConnectionWrapper,
};
use crate::error::{
    bad_connection_of, database_error_of, from_spawn_blocking_error, DatabaseErrorKind, SpawnError,
};
use crate::exclusive::{
    found_behind_the_only_pointer, grant, grant_despite_poison, granted, granted_despite_poison,
    looked_up, ExclusiveAccessError,
};
use crate::lock::{
    arc_get_mut, guard_mut, handed_out, handed_out_by, handed_out_through_a_guard, mutex_get_mut,
    ran, recover, Locked,
};
use crate::query::{prepare_query, prepared, run_prepared};
use crate::rows::{collect_rows, converted, converted_in_turn, fails_at, load_rows};
use crate::runtime::{
    built_by_tokio, handle_spawn_blocking, join_error_text, joined_by_the_runtime,
    new_current_thread, runtime_spawn_blocking, spawn, spawn_outcome, spawned, SpawnBlocking, Tokio,
};
use crate::task::{Batch, Connecting, Given, GivenForTwo, Holder, Prepared, Task};
use crate::transaction::SyncTransactionManagerWrapper;

verus! {

/// The rows of a query come in the order of the cursor, one item for each: the item at a
/// position is what the conversion returned for the row at that position.
pub proof fn rows_are_loaded_in_order<Row, O, K, I, F>(
    cursor: I,
    into_owned: F,
    owned: Vec<QueryResult<O>>,
) where K: Default, I: Iterator<Item = QueryResult<Row>>, F: Fn(Row, &mut K) -> O
    requires
        call_ensures(
            load_rows::<Row, O, K, I, F>,
            (Ok::<I, diesel::result::Error>(cursor), into_owned),
            Ok::<Vec<QueryResult<O>>, diesel::result::Error>(owned),
        ),
    ensures
        owned@.len() == cursor.remaining().len(),
        forall|i: int|
            #![trigger owned@[i]]
            #![trigger cursor.remaining()[i]]
            0 <= i < owned@.len() ==> {
                &&& cursor.remaining()[i] is Ok
                &&& owned@[i] is Ok
                &&& exists|cache: &mut K| #[trigger]
                    call_ensures(
                        into_owned,
                        (cursor.remaining()[i]->Ok_0, cache),
                        owned@[i]->Ok_0,
                    )
            },
{
    let rows = cursor.remaining();
    let (caches, left) = choose|caches: Seq<&mut K>, left: Seq<K>|
        {
            &&& #[trigger] converted_in_turn(into_owned, rows, caches, left, owned@)
            &&& forall|i: int| 0 <= i < left.len() ==> #[trigger] left[i] == *final(caches[i])
        };
    assert forall|i: int| 0 <= i < owned@.len() implies {
        &&& rows[i] is Ok
        &&& owned@[i] is Ok
        &&& exists|cache: &mut K| #[trigger]
            call_ensures(into_owned, (rows[i]->Ok_0, cache), owned@[i]->Ok_0)
    } by {
        assert(converted(into_owned, rows[i], caches[i], owned@[i]));
        assert(call_ensures(into_owned, (rows[i]->Ok_0, caches[i]), owned@[i]->Ok_0));
    }
}

/// The conversions of the rows share one cache, from the first row to the last: the first
/// one finds a new cache, each later one finds what the one before it left.
pub proof fn rows_share_one_cache<Row, O, K, I, F>(
    cursor: I,
    into_owned: F,
    owned: Vec<QueryResult<O>>,
) where K: Default, I: Iterator<Item = QueryResult<Row>>, F: Fn(Row, &mut K) -> O
    requires
        call_ensures(
            load_rows::<Row, O, K, I, F>,
            (Ok::<I, diesel::result::Error>(cursor), into_owned),
            Ok::<Vec<QueryResult<O>>, diesel::result::Error>(owned),
        ),
    ensures
        exists|caches: Seq<&mut K>|
            {
                &&& caches.len() == owned@.len() == cursor.remaining().len()
                &&& caches.len() > 0 ==> call_ensures(K::default, (), *caches[0])
                &&& forall|i: int|
                    1 <= i < caches.len() ==> *(#[trigger] caches[i]) == *final(caches[i - 1])
                &&& forall|i: int|
                    0 <= i < caches.len() ==> call_ensures(
                        into_owned,
                        (cursor.remaining()[i]->Ok_0, #[trigger] caches[i]),
                        owned@[i]->Ok_0,
                    )
            },
{
    let rows = cursor.remaining();
    let (caches, left) = choose|caches: Seq<&mut K>, left: Seq<K>|
        {
            &&& #[trigger] converted_in_turn(into_owned, rows, caches, left, owned@)
            &&& forall|i: int| 0 <= i < left.len() ==> #[trigger] left[i] == *final(caches[i])
        };
    assert forall|i: int|
        1 <= i < caches.len() implies *(#[trigger] caches[i]) == *final(caches[i - 1]) by {
        assert(left[i - 1] == *final(caches[i - 1]));
    }
    assert forall|i: int| 0 <= i < caches.len() implies call_ensures(
        into_owned,
        (rows[i]->Ok_0, #[trigger] caches[i]),
        owned@[i]->Ok_0,
    ) by {
        assert(converted(into_owned, rows[i], caches[i], owned@[i]));
    }
}

/// Loading the rows of a query that ran succeeds exactly where no row is an error, and
/// else ends in the first of the errors.
pub proof fn first_error_among_the_rows_ends_it<Row, O, K, I, F>(
    cursor: I,
    into_owned: F,
    result: QueryResult<Vec<QueryResult<O>>>,
) where K: Default, I: Iterator<Item = QueryResult<Row>>, F: Fn(Row, &mut K) -> O
    requires
        call_ensures(
            load_rows::<Row, O, K, I, F>,
            (Ok::<I, diesel::result::Error>(cursor), into_owned),
            result,
        ),
    ensures
        result is Ok <==> forall|i: int|
            0 <= i < cursor.remaining().len() ==> (#[trigger] cursor.remaining()[i]) is Ok,
        forall|k: int|
            {
                &&& 0 <= k < cursor.remaining().len()
                &&& (#[trigger] cursor.remaining()[k]) is Err
                &&& forall|j: int| 0 <= j < k ==> (#[trigger] cursor.remaining()[j]) is Ok
            } ==> result == Err::<Vec<QueryResult<O>>, diesel::result::Error>(
                cursor.remaining()[k]->Err_0,
            ),
{
    let rows = cursor.remaining();
    if let Err(error) = result {
        let k = choose|k: int| #[trigger]
            fails_at(rows, k) && rows[k] == Err::<Row, diesel::result::Error>(error);
        assert(rows[k] is Err);
        assert forall|j: int| 0 <= j < k implies (#[trigger] rows[j]) is Ok by {
            assert(rows.take(k)[j] is Ok);
        }
        assert forall|m: int|
            {
                &&& 0 <= m < rows.len()
                &&& (#[trigger] rows[m]) is Err
                &&& forall|j: int| 0 <= j < m ==> (#[trigger] rows[j]) is Ok
            } implies m == k by {
            if m < k {
                assert(rows[m] is Ok);
            } else if k < m {
                assert(rows[k] is Ok);
            }
        }
    }
}

/// A query that could not be run has the error of running it for its result.
pub proof fn query_that_did_not_run_ends_in_its_error<Row, O, K, I, F>(
    error: diesel::result::Error,
    into_owned: F,
    result: QueryResult<Vec<QueryResult<O>>>,
) where K: Default, I: Iterator<Item = QueryResult<Row>>, F: Fn(Row, &mut K) -> O
    requires
        call_ensures(
            load_rows::<Row, O, K, I, F>,
            (Err::<I, diesel::result::Error>(error), into_owned),
            result,
        ),
    ensures
        result == Err::<Vec<QueryResult<O>>, diesel::result::Error>(error),
{
}

/// Reading the rows takes from the cursor all that it holds; or, where a row is an error,
/// that row and those before it, and none behind it.
pub proof fn no_row_is_read_behind_the_first_error<Row, O, K, I, F>(
    cursor: &mut I,
    into_owned: F,
    result: QueryResult<Vec<QueryResult<O>>>,
) where K: Default, I: Iterator<Item = QueryResult<Row>>, F: Fn(Row, &mut K) -> O
    requires
        call_ensures(collect_rows::<Row, O, K, I, F>, (cursor, into_owned), result),
    ensures
        ({
            let rows = <I as IteratorSpec>::remaining(old(cursor));
            let rest = <I as IteratorSpec>::remaining(final(cursor));
            match result {
                Ok(owned) => {
                    &&& rest.len() == 0
                    &&& owned@.len() == rows.len()
                    &&& forall|i: int|
                        #![trigger owned@[i]]
                        0 <= i < owned@.len() ==> {
                            &&& rows[i] is Ok
                            &&& owned@[i] is Ok
                            &&& exists|cache: &mut K| #[trigger]
                                call_ensures(into_owned, (rows[i]->Ok_0, cache), owned@[i]->Ok_0)
                        }
                },
                Err(error) => {
                    &&& rest.len() < rows.len()
                    &&& rest == rows.skip(rows.len() - rest.len())
                    &&& rows[rows.len() - rest.len() - 1] == Err::<Row, diesel::result::Error>(
                        error,
                    )
                    &&& forall|j: int|
                        0 <= j < rows.len() - rest.len() - 1 ==> (#[trigger] rows[j]) is Ok
                },
            }
        }),
{
    let rows = <I as IteratorSpec>::remaining(cursor);
    match result {
        Ok(owned) => {
            let (caches, left) = choose|caches: Seq<&mut K>, left: Seq<K>|
                {
                    &&& #[trigger] converted_in_turn(into_owned, rows, caches, left, owned@)
                    &&& forall|i: int|
                        0 <= i < left.len() ==> #[trigger] left[i] == *final(caches[i])
                };
            assert forall|i: int| 0 <= i < owned@.len() implies {
                &&& rows[i] is Ok
                &&& owned@[i] is Ok
                &&& exists|cache: &mut K| #[trigger]
                    call_ensures(into_owned, (rows[i]->Ok_0, cache), owned@[i]->Ok_0)
            } by {
                assert(converted(into_owned, rows[i], caches[i], owned@[i]));
                assert(call_ensures(into_owned, (rows[i]->Ok_0, caches[i]), owned@[i]->Ok_0));
            }
        },
        Err(error) => {
            let rest = <I as IteratorSpec>::remaining(final(cursor));
            let k = choose|k: int| #[trigger]
                fails_at(rows, k) && rows[k] == Err::<Row, diesel::result::Error>(error) && rest
                    == rows.skip(k + 1);
            assert forall|j: int| 0 <= j < k implies (#[trigger] rows[j]) is Ok by {
                assert(rows.take(k)[j] is Ok);
            }
        },
    }
}

/// Establishing a connection ends in what connecting to the address returned, as a task of
/// a new runtime: the connection, in a new mutex and with that runtime, or the error as it
/// is. Only a reason of that runtime makes a bad connection of it, with the reason's words.
pub proof fn establishing_ends_in_what_connecting_returned<
    'a,
    C: Send + 'static,
    S: SpawnBlocking + Send + 'a,
    F: FnOnce(&str) -> ConnectionResult<C> + Send + 'static,
>(
    database_url: &str,
    connect: F,
    pending: FutureObj<'a, ConnectionResult<SyncConnectionWrapper<C, S>>>,
)
    requires
        call_ensures(
            SyncConnectionWrapper::<C, S>::establish::<F>,
            (database_url, connect),
            pending,
        ),
        pending.awaited(),
    ensures
        exists|first: S, runtime: S|
            {
                &&& call_ensures(S::get_runtime, (), first)
                &&& #[trigger] S::steps(first, runtime)
                &&& {
                    ||| exists|address: &str, connected: ConnectionResult<C>|
                        {
                            &&& address@ == database_url@
                            &&& #[trigger] call_ensures(connect, (address,), connected)
                            &&& S::delivers(first, connected)
                            &&& match connected {
                                Ok(connection) => {
                                    &&& pending@ is Ok
                                    &&& call_ensures(
                                        Mutex::<C>::new,
                                        (connection,),
                                        pending@->Ok_0.mutex(),
                                    )
                                    &&& pending@->Ok_0.spawner() == runtime
                                },
                                Err(error) => pending@ == Err::<
                                    SyncConnectionWrapper<C, S>,
                                    diesel::ConnectionError,
                                >(error),
                            }
                        }
                    ||| exists|failure: SpawnError| #[trigger]
                        S::refuses(first, failure) && pending@ == Err::<
                            SyncConnectionWrapper<C, S>,
                            diesel::ConnectionError,
                        >(bad_connection_of(failure.message@))
                }
            },
{
    let (first, outcome, runtime) = choose|
        first: S,
        outcome: Result<ConnectionResult<C>, SpawnError>,
        runtime: S,
    |
        {
            &&& #[trigger] call_ensures(S::get_runtime, (), first)
            &&& connected_by(first, outcome, database_url@, connect)
            &&& S::steps(first, runtime)
            &&& #[trigger] established(outcome, runtime, pending@)
        };
    assert(S::steps(first, runtime));
    match outcome {
        Ok(connected) => {
            let address = choose|address: &str|
                address@ == database_url@ && #[trigger] call_ensures(
                    connect,
                    (address,),
                    connected,
                );
            assert(call_ensures(connect, (address,), connected));
        },
        Err(failure) => {
            assert(S::refuses(first, failure));
        },
    }
}

/// Where a new runtime refuses no task, establishing a connection succeeds exactly where
/// connecting to the address did, whatever the address: with the connection that connecting
/// returned, or else with its error.
pub proof fn willing_runtime_establishes_what_was_connected<
    'a,
    C: Send + 'static,
    S: SpawnBlocking + Send + 'a,
    F: FnOnce(&str) -> ConnectionResult<C> + Send + 'static,
>(
    database_url: &str,
    connect: F,
    pending: FutureObj<'a, ConnectionResult<SyncConnectionWrapper<C, S>>>,
)
    requires
        call_ensures(
            SyncConnectionWrapper::<C, S>::establish::<F>,
            (database_url, connect),
            pending,
        ),
        pending.awaited(),
        forall|first: S, failure: SpawnError|
            call_ensures(S::get_runtime, (), first) ==> !#[trigger] S::refuses(first, failure),
    ensures
        exists|address: &str, connected: ConnectionResult<C>|
            {
                &&& address@ == database_url@
                &&& #[trigger] call_ensures(connect, (address,), connected)
                &&& match connected {
                    Ok(connection) => pending@ is Ok && call_ensures(
                        Mutex::<C>::new,
                        (connection,),
                        pending@->Ok_0.mutex(),
                    ),
                    Err(error) => pending@ == Err::<
                        SyncConnectionWrapper<C, S>,
                        diesel::ConnectionError,
                    >(error),
                }
            },
{
    establishing_ends_in_what_connecting_returned(database_url, connect, pending);
}

/// The connection is refused to a caller who wants it without a task only where the pointer
/// to its mutex is not the only one, or where the mutex is poisoned; else what the mutex
/// gives is granted.
pub(crate) proof fn exclusive_access_is_refused_only_where_shared_or_poisoned<C, S>(
    wrapper: &mut SyncConnectionWrapper<C, S>,
    access: Result<&mut C, ExclusiveAccessError>,
)
    requires
        call_ensures(SyncConnectionWrapper::<C, S>::exclusive_connection, (wrapper,), access),
    ensures
        exists|pointer: &mut Arc<Mutex<C>>, unique: Option<&mut Mutex<C>>|
            {
                &&& **pointer == old(wrapper).mutex()
                &&& #[trigger] call_ensures(arc_get_mut::<Mutex<C>>, (pointer,), unique)
                &&& match unique {
                    None => access == Err::<&mut C, ExclusiveAccessError>(
                        ExclusiveAccessError::Shared,
                    ),
                    Some(_) => exists|held: &mut Mutex<C>, result: LockResult<&mut C>|
                        {
                            &&& *held == old(wrapper).mutex()
                            &&& #[trigger] call_ensures(mutex_get_mut::<C>, (held,), result)
                            &&& match result {
                                Ok(connection) => access == Ok::<&mut C, ExclusiveAccessError>(
                                    connection,
                                ),
                                Err(_) => access == Err::<&mut C, ExclusiveAccessError>(
                                    ExclusiveAccessError::Poisoned,
                                ),
                            }
                        },
                }
            },
        final(wrapper).mutex() == old(wrapper).mutex(),
{
    let found = choose|found: Option<LockResult<&mut C>>|
        looked_up(wrapper.mutex(), found) && #[trigger] granted(found, access);
    found_behind_the_only_pointer(wrapper.mutex(), found);
}

/// The connection is refused to a caller who wants it poisoned or not only where the
/// pointer to its mutex is not the only one; else what the mutex gives is granted, out of
/// the error where it is poisoned.
pub(crate) proof fn access_despite_poison_is_refused_only_where_shared<C, S>(
    wrapper: &mut SyncConnectionWrapper<C, S>,
    access: Result<&mut C, ExclusiveAccessError>,
)
    requires
        call_ensures(SyncConnectionWrapper::<C, S>::connection_despite_poison, (wrapper,), access),
    ensures
        exists|pointer: &mut Arc<Mutex<C>>, unique: Option<&mut Mutex<C>>|
            {
                &&& **pointer == old(wrapper).mutex()
                &&& #[trigger] call_ensures(arc_get_mut::<Mutex<C>>, (pointer,), unique)
                &&& match unique {
                    None => access == Err::<&mut C, ExclusiveAccessError>(
                        ExclusiveAccessError::Shared,
                    ),
                    Some(_) => exists|held: &mut Mutex<C>, result: LockResult<&mut C>|
                        {
                            &&& *held == old(wrapper).mutex()
                            &&& #[trigger] call_ensures(mutex_get_mut::<C>, (held,), result)
                            &&& access is Ok
                            &&& match result {
                                Ok(connection) => access->Ok_0 == connection,
                                Err(poison) => call_ensures(
                                    PoisonError::<&mut C>::into_inner,
                                    (poison,),
                                    access->Ok_0,
                                ),
                            }
                        },
                }
            },
        final(wrapper).mutex() == old(wrapper).mutex(),
{
    let found = choose|found: Option<LockResult<&mut C>>|
        looked_up(wrapper.mutex(), found) && #[trigger] granted_despite_poison(found, access);
    found_behind_the_only_pointer(wrapper.mutex(), found);
}

/// What a lock gives is what the guard of the mutex gives. Of a poisoned mutex the guard is
/// taken out of the error, and its mark is cleared.
pub(crate) proof fn connection_is_reached_through_the_lock<C>(mutex: Mutex<C>, connection: &mut C)
    requires
        handed_out(mutex, connection),
    ensures
        exists|result: LockResult<MutexGuard<'_, C>>, guard: &mut MutexGuard<'_, C>|
            {
                &&& #[trigger] call_ensures(Mutex::<C>::lock, (&mutex,), result)
                &&& match result {
                    Ok(held) => *guard == held,
                    Err(poison) => {
                        &&& call_ensures(
                            PoisonError::<MutexGuard<'_, C>>::into_inner,
                            (poison,),
                            *guard,
                        )
                        &&& call_ensures(Mutex::<C>::clear_poison, (&mutex,), ())
                    },
                }
                &&& #[trigger] call_ensures(guard_mut::<C>, (guard,), connection)
            },
{
    let result = choose|result: LockResult<MutexGuard<'_, C>>| #[trigger]
        handed_out_by(mutex, result, connection);
    handed_out_through_a_guard(mutex, result, connection);
}

/// Taking the guard of a mutex never fails: it is the guard that locking gave, out of the
/// error where the mutex was poisoned, and then the mark is cleared.
pub proof fn guard_is_what_locking_gave<'a, C>(
    mutex: &Mutex<C>,
    result: LockResult<MutexGuard<'a, C>>,
    guard: MutexGuard<'a, C>,
)
    requires
        call_ensures(recover::<C>, (mutex, result), guard),
    ensures
        match result {
            Ok(held) => guard == held,
            Err(poison) => {
                &&& call_ensures(PoisonError::<MutexGuard<'a, C>>::into_inner, (poison,), guard)
                &&& call_ensures(Mutex::<C>::clear_poison, (mutex,), ())
            },
        },
{
}

/// An operation ends in what it returned on the connection, or in the error that the
/// command could not be sent, with the words of a reason that the runtime gives.
pub proof fn operation_ends_in_what_it_returned<
    'a,
    C: Send + 'static,
    S: SpawnBlocking,
    R: Send + 'static,
    F: FnOnce(&mut C) -> QueryResult<R> + Send + 'static,
>(
    wrapper: &mut SyncConnectionWrapper<C, S>,
    task: F,
    pending: FutureObj<'a, QueryResult<R>>,
)
    requires
        call_ensures(SyncConnectionWrapper::<C, S>::spawn_blocking, (wrapper, task), pending),
        pending.awaited(),
    ensures
        ({
            ||| exists|connection: &mut C|
                handed_out(old(wrapper).mutex(), connection) && #[trigger] call_ensures(
                    task,
                    (connection,),
                    pending@,
                )
            ||| exists|failure: SpawnError| #[trigger]
                S::refuses(old(wrapper).spawner(), failure) && pending@ == Err::<
                    R,
                    diesel::result::Error,
                >(database_error_of(DatabaseErrorKind::UnableToSendCommand, failure.message@))
        }),
        final(wrapper).mutex() == old(wrapper).mutex(),
{
}

/// Beginning, committing and rolling back end in what the operation for it returned on the
/// connection, or in the error that the command could not be sent, with the words of a
/// reason that the runtime gives.
pub proof fn transaction_ends_in_what_its_operation_returned<
    'a,
    T,
    C: Send + 'static,
    S: SpawnBlocking + Send,
    F: FnOnce(&mut C) -> QueryResult<()> + Send + 'static,
>(
    wrapper: &'a mut SyncConnectionWrapper<C, S>,
    operation: F,
    pending: FutureObj<'a, QueryResult<()>>,
)
    requires
        ({
            ||| call_ensures(
                SyncTransactionManagerWrapper::<T>::begin_transaction::<C, S, F>,
                (wrapper, operation),
                pending,
            )
            ||| call_ensures(
                SyncTransactionManagerWrapper::<T>::commit_transaction::<C, S, F>,
                (wrapper, operation),
                pending,
            )
            ||| call_ensures(
                SyncTransactionManagerWrapper::<T>::rollback_transaction::<C, S, F>,
                (wrapper, operation),
                pending,
            )
        }),
        pending.awaited(),
    ensures
        ({
            ||| exists|connection: &mut C|
                handed_out(old(wrapper).mutex(), connection) && #[trigger] call_ensures(
                    operation,
                    (connection,),
                    pending@,
                )
            ||| exists|failure: SpawnError| #[trigger]
                S::refuses(old(wrapper).spawner(), failure) && pending@ == Err::<
                    (),
                    diesel::result::Error,
                >(database_error_of(DatabaseErrorKind::UnableToSendCommand, failure.message@))
        }),
        final(wrapper).mutex() == old(wrapper).mutex(),
{
}

/// Executing a text of statements ends in what executing that very text on the connection
/// returned, whatever the text, or in the error that the command could not be sent, with
/// the words of a reason that the runtime gives.
pub proof fn text_is_executed_as_it_is<
    'a,
    C: Send + 'static,
    S: SpawnBlocking + Send,
    F: FnOnce(&mut C, &str) -> QueryResult<()> + Send + 'static,
>(
    wrapper: &'a mut SyncConnectionWrapper<C, S>,
    query: &str,
    execute: F,
    pending: FutureObj<'a, QueryResult<()>>,
)
    requires
        call_ensures(
            SyncConnectionWrapper::<C, S>::batch_execute::<F>,
            (wrapper, query, execute),
            pending,
        ),
        pending.awaited(),
    ensures
        ({
            ||| exists|connection: &mut C, sql: &str|
                {
                    &&& handed_out(old(wrapper).mutex(), connection)
                    &&& sql@ == query@
                    &&& #[trigger] call_ensures(execute, (connection, sql), pending@)
                }
            ||| exists|failure: SpawnError| #[trigger]
                S::refuses(old(wrapper).spawner(), failure) && pending@ == Err::<
                    (),
                    diesel::result::Error,
                >(database_error_of(DatabaseErrorKind::UnableToSendCommand, failure.message@))
        }),
        final(wrapper).mutex() == old(wrapper).mutex(),
{
}

/// What is handed to the runtime for a text of statements is the execution of that very
/// text, and nothing else, whatever the text: a task which does not panic where the
/// execution does not.
pub proof fn text_is_all_that_its_task_executes<
    'a,
    C: Send + 'static,
    S: SpawnBlocking + Send,
    F: FnOnce(&mut C, &str) -> QueryResult<()> + Send + 'static,
>(
    wrapper: &'a mut SyncConnectionWrapper<C, S>,
    query: &str,
    execute: F,
    pending: FutureObj<'a, QueryResult<()>>,
)
    requires
        call_ensures(
            SyncConnectionWrapper::<C, S>::batch_execute::<F>,
            (wrapper, query, execute),
            pending,
        ),
        pending.awaited(),
    ensures
        exists|
            at: &mut S,
            mutex: Arc<Mutex<C>>,
            text: String,
            spawned: FutureObj<'a, Result<QueryResult<()>, SpawnError>>,
        |
            {
                &&& *at == old(wrapper).spawner()
                &&& *mutex == old(wrapper).mutex()
                &&& text@ == query@
                &&& #[trigger] call_ensures(
                    spawn::<S, QueryResult<()>, Locked<C, Batch<String, GivenForTwo<F>>>>,
                    (
                        at,
                        (Locked {
                            mutex,
                            task: Batch { query: text, execute: GivenForTwo(execute) },
                        }),
                    ),
                    spawned,
                )
                &&& spawned.awaited()
                &&& call_ensures(settle::<()>, (spawned@,), pending@)
            },
{
}

/// The task that executes a text panics only where it lends the text or executes it. It
/// accepts what the execution accepts of the text, and gives what the execution gives.
pub proof fn task_of_a_text_panics_only_where_it_is_executed<
    A,
    R,
    H: Holder,
    E: for <'t>Task<(A, &'t H::Lent), R>,
>(task: Batch<H, E>, argument: A, text: &H::Lent, result: R)
    requires
        task.query.lends(text),
        forall|other: &H::Lent| #[trigger] task.query.lends(other) ==> other == text,
    ensures
        task.query.lends_steadily() && task.execute.steady((argument, text)) ==> task.steady(
            argument,
        ),
        task.accepts(argument) <==> task.execute.accepts((argument, text)),
        task.gives(argument, result) <==> task.execute.gives((argument, text), result),
{
}

/// The task that connects panics only where it lends the address or connects. It accepts
/// what connecting accepts for the address, and gives what connecting gives.
pub proof fn task_of_connecting_panics_only_where_it_connects<
    R,
    H: Holder,
    E: for <'t>Task<&'t H::Lent, R>,
>(task: Connecting<H, E>, address: &H::Lent, result: R)
    requires
        task.address.lends(address),
        forall|other: &H::Lent| #[trigger] task.address.lends(other) ==> other == address,
    ensures
        task.address.lends_steadily() && task.connect.steady(address) ==> task.steady(()),
        task.accepts(()) <==> task.connect.accepts(address),
        task.gives((), result) <==> task.connect.gives(address, result),
{
}

/// The task of a query that could be prepared panics only where its callback does, and
/// gives what the callback gives for the query.
pub proof fn task_of_a_query_panics_only_in_its_callback<
    A,
    R,
    Q,
    X,
    E: for <'q>Task<(A, &'q Q), Result<R, X>>,
>(query: Q, callback: E, argument: A, result: Result<R, X>)
    ensures
        callback.steady((argument, &query)) ==> (Prepared {
            query: Ok::<Q, X>(query),
            callback,
        }).steady(argument),
        (Prepared { query: Ok::<Q, X>(query), callback }).accepts(argument) <==> callback.accepts(
            (argument, &query),
        ),
        (Prepared { query: Ok::<Q, X>(query), callback }).gives(argument, result)
            <==> callback.gives((argument, &query), result),
{
}

/// The task of a query that could not be prepared panics nowhere, and gives the error.
pub proof fn task_of_a_query_that_is_not_prepared_gives_the_error<
    A,
    R,
    Q,
    X,
    E: for <'q>Task<(A, &'q Q), Result<R, X>>,
>(error: X, callback: E, argument: A, result: Result<R, X>)
    ensures
        (Prepared { query: Err::<Q, X>(error), callback }).steady(argument),
        (Prepared { query: Err::<Q, X>(error), callback }).accepts(argument),
        (Prepared { query: Err::<Q, X>(error), callback }).gives(argument, result) <==> result
            == Err::<R, X>(error),
{
}

/// A query is prepared of its three parts, whatever the flag says; the first of the errors
/// among the parts, in their order, is what preparing ends in.
pub proof fn query_is_prepared_of_its_parts<MD>(
    collected: QueryResult<()>,
    sql: QueryResult<String>,
    is_safe: QueryResult<bool>,
    bind_data: MD,
    query: QueryResult<CollectedQuery<MD>>,
)
    requires
        call_ensures(prepare_query::<MD>, (collected, sql, is_safe, bind_data), query),
    ensures
        query is Ok <==> collected is Ok && sql is Ok && is_safe is Ok,
        query is Ok ==> call_ensures(
            CollectedQuery::<MD>::new,
            (sql->Ok_0, is_safe->Ok_0, bind_data),
            query->Ok_0,
        ),
        collected is Err ==> query->Err_0 == collected->Err_0,
        collected is Ok && sql is Err ==> query->Err_0 == sql->Err_0,
        collected is Ok && sql is Ok && is_safe is Err ==> query->Err_0 == is_safe->Err_0,
{
}

/// A query whose values, text and flag are there ends in what the callback returned on the
/// connection for the query that is made of them, for both values of the flag; one with an
/// error among the three ends in the first of them. Otherwise it ends in the error that the
/// command could not be sent, with the words of a reason that the runtime gives.
pub proof fn query_ends_in_what_its_callback_returned<
    'a,
    C: Send + 'static,
    S: SpawnBlocking,
    MD: Send + 'static,
    R: Send + 'static,
    B: FnOnce(&mut C) -> (QueryResult<()>, MD),
    Q: FnOnce() -> QueryResult<String>,
    P: FnOnce() -> QueryResult<bool>,
    F: FnOnce(&mut C, &CollectedQuery<MD>) -> QueryResult<R> + Send + 'static,
>(
    wrapper: &mut SyncConnectionWrapper<C, S>,
    collect_binds: B,
    to_sql: Q,
    is_safe_to_cache_prepared: P,
    callback: F,
    pending: FutureObj<'a, QueryResult<R>>,
)
    requires
        call_ensures(
            SyncConnectionWrapper::<C, S>::execute_with_prepared_query::<MD, R, B, Q, P, F>,
            (wrapper, collect_binds, to_sql, is_safe_to_cache_prepared, callback),
            pending,
        ),
        pending.awaited(),
    ensures
        exists|
            binding: &mut C,
            collected: QueryResult<()>,
            bind_data: MD,
            sql: QueryResult<String>,
            is_safe: QueryResult<bool>,
        |
            {
                &&& handed_out(old(wrapper).mutex(), binding)
                &&& #[trigger] call_ensures(collect_binds, (binding,), (collected, bind_data))
                &&& #[trigger] call_ensures(to_sql, (), sql)
                &&& #[trigger] call_ensures(is_safe_to_cache_prepared, (), is_safe)
                &&& {
                    ||| match (collected, sql, is_safe) {
                        (Err(error), _, _) => pending@ == Err::<R, diesel::result::Error>(error),
                        (Ok(_), Err(error), _) => pending@ == Err::<R, diesel::result::Error>(
                            error,
                        ),
                        (Ok(_), Ok(_), Err(error)) => pending@ == Err::<R, diesel::result::Error>(
                            error,
                        ),
                        (Ok(_), Ok(sql), Ok(is_safe)) => exists|
                            connection: &mut C,
                            query: CollectedQuery<MD>,
                        |
                            {
                                &&& handed_out(old(wrapper).mutex(), connection)
                                &&& call_ensures(
                                    CollectedQuery::<MD>::new,
                                    (sql, is_safe, bind_data),
                                    query,
                                )
                                &&& #[trigger] call_ensures(
                                    callback,
                                    (connection, &query),
                                    pending@,
                                )
                            },
                    }
                    ||| exists|failure: SpawnError| #[trigger]
                        S::refuses(old(wrapper).spawner(), failure) && pending@ == Err::<
                            R,
                            diesel::result::Error,
                        >(
                            database_error_of(
                                DatabaseErrorKind::UnableToSendCommand,
                                failure.message@,
                            ),
                        )
                }
            },
        final(wrapper).mutex() == old(wrapper).mutex(),
{
    let mutex = wrapper.mutex();
    let (collected, bind_data, sql, is_safe) = choose|
        collected: QueryResult<()>,
        bind_data: MD,
        sql: QueryResult<String>,
        is_safe: QueryResult<bool>,
    |
        {
            &&& #[trigger] ran(mutex, collect_binds, (collected, bind_data))
            &&& #[trigger] call_ensures(to_sql, (), sql)
            &&& #[trigger] call_ensures(is_safe_to_cache_prepared, (), is_safe)
            &&& {
                ||| S::delivers(wrapper.spawner(), pending@) && exists|
                    query: QueryResult<CollectedQuery<MD>>,
                |
                    {
                        &&& #[trigger] prepared(collected, sql, is_safe, bind_data, query)
                        &&& ran_prepared(mutex, query, callback, pending@)
                    }
                ||| spawn_failed(wrapper.spawner(), pending@)
            }
        };
    let binding = choose|binding: &mut C|
        handed_out(mutex, binding) && #[trigger] call_ensures(
            collect_binds,
            (binding,),
            (collected, bind_data),
        );
    assert(call_ensures(collect_binds, (binding,), (collected, bind_data)));
    if !spawn_failed(wrapper.spawner(), pending@) {
        let query = choose|query: QueryResult<CollectedQuery<MD>>|
            {
                &&& #[trigger] prepared(collected, sql, is_safe, bind_data, query)
                &&& ran_prepared(mutex, query, callback, pending@)
            };
        let connection = choose|connection: &mut C|
            handed_out(mutex, connection) && #[trigger] run_prepared(
                connection,
                query,
                callback,
                pending@,
            );
        if query is Ok {
            assert(call_ensures(callback, (connection, &query->Ok_0), pending@));
        }
    }
}

/// What is handed to the runtime for a query is the callback with the query that was
/// prepared of the three parts, and nothing else, for both values of the flag: a task which
/// does not panic where the callback does not.
pub proof fn query_is_all_that_its_task_runs<
    'a,
    C: Send + 'static,
    S: SpawnBlocking,
    MD: Send + 'static,
    R: Send + 'static,
    B: FnOnce(&mut C) -> (QueryResult<()>, MD),
    Q: FnOnce() -> QueryResult<String>,
    P: FnOnce() -> QueryResult<bool>,
    F: FnOnce(&mut C, &CollectedQuery<MD>) -> QueryResult<R> + Send + 'static,
>(
    wrapper: &mut SyncConnectionWrapper<C, S>,
    collect_binds: B,
    to_sql: Q,
    is_safe_to_cache_prepared: P,
    callback: F,
    pending: FutureObj<'a, QueryResult<R>>,
)
    requires
        call_ensures(
            SyncConnectionWrapper::<C, S>::execute_with_prepared_query::<MD, R, B, Q, P, F>,
            (wrapper, collect_binds, to_sql, is_safe_to_cache_prepared, callback),
            pending,
        ),
        pending.awaited(),
    ensures
        exists|
            binding: &mut C,
            collected: QueryResult<()>,
            bind_data: MD,
            sql: QueryResult<String>,
            is_safe: QueryResult<bool>,
            query: QueryResult<CollectedQuery<MD>>,
            at: &mut S,
            mutex: Arc<Mutex<C>>,
            spawned: FutureObj<'a, Result<QueryResult<R>, SpawnError>>,
        |
            {
                &&& handed_out(old(wrapper).mutex(), binding)
                &&& #[trigger] call_ensures(collect_binds, (binding,), (collected, bind_data))
                &&& #[trigger] call_ensures(to_sql, (), sql)
                &&& #[trigger] call_ensures(is_safe_to_cache_prepared, (), is_safe)
                &&& query is Ok <==> collected is Ok && sql is Ok && is_safe is Ok
                &&& query is Ok ==> call_ensures(
                    CollectedQuery::<MD>::new,
                    (sql->Ok_0, is_safe->Ok_0, bind_data),
                    query->Ok_0,
                )
                &&& *at == old(wrapper).spawner()
                &&& *mutex == old(wrapper).mutex()
                &&& #[trigger] call_ensures(
                    spawn::<
                        S,
                        QueryResult<R>,
                        Locked<
                            C,
                            Prepared<CollectedQuery<MD>, diesel::result::Error, GivenForTwo<F>>,
                        >,
                    >,
                    (
                        at,
                        (Locked {
                            mutex,
                            task: Prepared { query, callback: GivenForTwo(callback) },
                        }),
                    ),
                    spawned,
                )
                &&& spawned.awaited()
                &&& call_ensures(settle::<R>, (spawned@,), pending@)
            },
{
    let (collected, bind_data, sql, is_safe, at, query) = choose|
        collected: QueryResult<()>,
        bind_data: MD,
        sql: QueryResult<String>,
        is_safe: QueryResult<bool>,
        at: &mut SyncConnectionWrapper<C, S>,
        query: QueryResult<CollectedQuery<MD>>,
    |
        {
            &&& #[trigger] ran(wrapper.mutex(), collect_binds, (collected, bind_data))
            &&& #[trigger] call_ensures(to_sql, (), sql)
            &&& #[trigger] call_ensures(is_safe_to_cache_prepared, (), is_safe)
            &&& *at == *wrapper
            &&& prepared(collected, sql, is_safe, bind_data, query)
            &&& #[trigger] call_ensures(
                SyncConnectionWrapper::<C, S>::spawn_task::<
                    R,
                    Prepared<CollectedQuery<MD>, diesel::result::Error, GivenForTwo<F>>,
                >,
                (at, (Prepared { query, callback: GivenForTwo(callback) })),
                pending,
            )
        };
    let binding = choose|binding: &mut C|
        handed_out(wrapper.mutex(), binding) && #[trigger] call_ensures(
            collect_binds,
            (binding,),
            (collected, bind_data),
        );
    assert(call_ensures(collect_binds, (binding,), (collected, bind_data)));
}

/// What is handed to the runtime for an operation is that operation on the connection, and
/// nothing else.
pub proof fn operation_is_all_that_its_task_runs<
    'a,
    C: Send + 'static,
    S: SpawnBlocking,
    R: Send + 'static,
    F: FnOnce(&mut C) -> QueryResult<R> + Send + 'static,
>(
    wrapper: &mut SyncConnectionWrapper<C, S>,
    task: F,
    pending: FutureObj<'a, QueryResult<R>>,
)
    requires
        call_ensures(SyncConnectionWrapper::<C, S>::spawn_blocking, (wrapper, task), pending),
        pending.awaited(),
    ensures
        exists|
            at: &mut S,
            mutex: Arc<Mutex<C>>,
            spawned: FutureObj<'a, Result<QueryResult<R>, SpawnError>>,
        |
            {
                &&& *at == old(wrapper).spawner()
                &&& *mutex == old(wrapper).mutex()
                &&& #[trigger] call_ensures(
                    spawn::<S, QueryResult<R>, Locked<C, Given<F>>>,
                    (at, (Locked { mutex, task: Given(task) })),
                    spawned,
                )
                &&& spawned.awaited()
                &&& call_ensures(settle::<R>, (spawned@,), pending@)
            },
{
}

/// What is handed to the runtime to begin, commit or roll back is the operation for it on
/// the connection, and nothing else.
pub proof fn transaction_is_all_that_its_task_runs<
    'a,
    T,
    C: Send + 'static,
    S: SpawnBlocking + Send,
    F: FnOnce(&mut C) -> QueryResult<()> + Send + 'static,
>(
    wrapper: &'a mut SyncConnectionWrapper<C, S>,
    operation: F,
    pending: FutureObj<'a, QueryResult<()>>,
)
    requires
        ({
            ||| call_ensures(
                SyncTransactionManagerWrapper::<T>::begin_transaction::<C, S, F>,
                (wrapper, operation),
                pending,
            )
            ||| call_ensures(
                SyncTransactionManagerWrapper::<T>::commit_transaction::<C, S, F>,
                (wrapper, operation),
                pending,
            )
            ||| call_ensures(
                SyncTransactionManagerWrapper::<T>::rollback_transaction::<C, S, F>,
                (wrapper, operation),
                pending,
            )
        }),
        pending.awaited(),
    ensures
        exists|
            at: &mut S,
            mutex: Arc<Mutex<C>>,
            spawned: FutureObj<'a, Result<QueryResult<()>, SpawnError>>,
        |
            {
                &&& *at == old(wrapper).spawner()
                &&& *mutex == old(wrapper).mutex()
                &&& #[trigger] call_ensures(
                    spawn::<S, QueryResult<()>, Locked<C, Given<F>>>,
                    (at, (Locked { mutex, task: Given(operation) })),
                    spawned,
                )
                &&& spawned.awaited()
                &&& call_ensures(settle::<()>, (spawned@,), pending@)
            },
{
}

/// What is handed to a new runtime to establish a connection is connecting to the very
/// address, and nothing else, whatever the address. What comes of it is what establishing
/// ends in.
pub proof fn connecting_is_all_that_establishing_runs<
    'a,
    C: Send + 'static,
    S: SpawnBlocking + Send + 'a,
    F: FnOnce(&str) -> ConnectionResult<C> + Send + 'static,
>(
    database_url: &str,
    connect: F,
    pending: FutureObj<'a, ConnectionResult<SyncConnectionWrapper<C, S>>>,
)
    requires
        call_ensures(
            SyncConnectionWrapper::<C, S>::establish::<F>,
            (database_url, connect),
            pending,
        ),
        pending.awaited(),
    ensures
        exists|
            at: &mut S,
            address: String,
            spawned: FutureObj<'a, Result<ConnectionResult<C>, SpawnError>>,
        |
            {
                &&& call_ensures(S::get_runtime, (), *at)
                &&& address@ == database_url@
                &&& #[trigger] call_ensures(
                    spawn::<S, ConnectionResult<C>, Connecting<String, Given<F>>>,
                    (at, (Connecting { address, connect: Given(connect) })),
                    spawned,
                )
                &&& spawned.awaited()
                &&& match spawned@ {
                    Ok(Ok(connection)) => {
                        &&& pending@ is Ok
                        &&& call_ensures(Mutex::<C>::new, (connection,), pending@->Ok_0.mutex())
                        &&& pending@->Ok_0.spawner() == *final(at)
                    },
                    Ok(Err(error)) => pending@ == Err::<
                        SyncConnectionWrapper<C, S>,
                        diesel::ConnectionError,
                    >(error),
                    Err(failure) => pending@ == Err::<
                        SyncConnectionWrapper<C, S>,
                        diesel::ConnectionError,
                    >(bad_connection_of(failure.message@)),
                }
            },
{
}

/// Running a task under the lock gives what the task gives on what the lock hands out. An
/// operation that the caller gave is run as it is, and a text is lent as it is.
pub proof fn parts_of_a_task_change_nothing<C, R, T, F, G>(
    mutex: Arc<Mutex<C>>,
    task: T,
    operation: F,
    for_two: G,
    first: &mut C,
    text: String,
    second: &str,
    result: R,
) where
    T: for <'c>Task<&'c mut C, R>,
    F: FnOnce(&mut C) -> R,
    G: FnOnce(&mut C, &str) -> R,

    ensures
        (Locked { mutex, task }).gives((), result) <==> exists|connection: &mut C|
            handed_out(*mutex, connection) && #[trigger] task.gives(connection, result),
        Given(operation).gives(first, result) <==> call_ensures(operation, (first,), result),
        GivenForTwo(for_two).gives((first, second), result) <==> call_ensures(
            for_two,
            (first, second),
            result,
        ),
        text.lends(second) ==> second@ == text@,
{
}

/// The result of a query is what its task returned, a value or an error; or the error that
/// the command could not be sent, with the words of the runtime, all of them.
pub proof fn result_is_what_came_of_the_task<R>(
    outcome: Result<QueryResult<R>, SpawnError>,
    result: QueryResult<R>,
)
    requires
        call_ensures(settle::<R>, (outcome,), result),
    ensures
        match outcome {
            Ok(returned) => result == returned,
            Err(failure) => result == Err::<R, diesel::result::Error>(
                database_error_of(DatabaseErrorKind::UnableToSendCommand, failure.message@),
            ),
        },
{
}

/// The failure of a runtime becomes the error that the command could not be sent, with the
/// words of the runtime, all of them.
pub proof fn error_has_the_words_of_the_runtime(failure: SpawnError, error: diesel::result::Error)
    requires
        call_ensures(from_spawn_blocking_error, (failure,), error),
    ensures
        error == database_error_of(DatabaseErrorKind::UnableToSendCommand, failure.message@),
{
}

/// Ending the establishing of a connection wraps the connection that came of the task, with
/// the runtime, and passes an error of connecting on; the failure of the runtime is a bad
/// connection with the words of the runtime, all of them.
pub proof fn establishing_ends_in_what_came_of_the_task<C, S: SpawnBlocking>(
    outcome: Result<ConnectionResult<C>, SpawnError>,
    runtime: S,
    wrapper: ConnectionResult<SyncConnectionWrapper<C, S>>,
)
    requires
        call_ensures(
            SyncConnectionWrapper::<C, S>::finish_establish,
            (outcome, runtime),
            wrapper,
        ),
    ensures
        match outcome {
            Ok(Ok(connection)) => {
                &&& wrapper is Ok
                &&& call_ensures(Mutex::<C>::new, (connection,), wrapper->Ok_0.mutex())
                &&& wrapper->Ok_0.spawner() == runtime
            },
            Ok(Err(error)) => wrapper == Err::<
                SyncConnectionWrapper<C, S>,
                diesel::ConnectionError,
            >(error),
            Err(failure) => wrapper == Err::<SyncConnectionWrapper<C, S>, diesel::ConnectionError>(
                bad_connection_of(failure.message@),
            ),
        },
{
}

/// Wrapping a connection puts it in a new mutex, with the runtime that was given or with a
/// new one.
pub proof fn wrapping_puts_the_connection_in_a_mutex<C, S: SpawnBlocking>(
    connection: C,
    runtime: S,
    given: SyncConnectionWrapper<C, S>,
    new: SyncConnectionWrapper<C, S>,
)
    requires
        call_ensures(SyncConnectionWrapper::<C, S>::with_runtime, (connection, runtime), given),
        call_ensures(SyncConnectionWrapper::<C, S>::new, (connection,), new),
    ensures
        call_ensures(Mutex::<C>::new, (connection,), given.mutex()),
        given.spawner() == runtime,
        call_ensures(Mutex::<C>::new, (connection,), new.mutex()),
        call_ensures(S::get_runtime, (), new.spawner()),
{
}

/// The connection is granted exactly where it was found, by the strict way only where it is
/// not poisoned; and what is granted is what was found.
pub proof fn what_was_found_is_granted<T>(
    found: Option<LockResult<T>>,
    strict: Result<T, ExclusiveAccessError>,
    despite_poison: Result<T, ExclusiveAccessError>,
)
    requires
        call_ensures(grant::<T>, (found,), strict),
        call_ensures(grant_despite_poison::<T>, (found,), despite_poison),
    ensures
        match found {
            None => {
                &&& strict == Err::<T, ExclusiveAccessError>(ExclusiveAccessError::Shared)
                &&& despite_poison == Err::<T, ExclusiveAccessError>(ExclusiveAccessError::Shared)
            },
            Some(Ok(connection)) => {
                &&& strict == Ok::<T, ExclusiveAccessError>(connection)
                &&& despite_poison == Ok::<T, ExclusiveAccessError>(connection)
            },
            Some(Err(poison)) => {
                &&& strict == Err::<T, ExclusiveAccessError>(ExclusiveAccessError::Poisoned)
                &&& despite_poison is Ok
                &&& call_ensures(PoisonError::<T>::into_inner, (poison,), despite_poison->Ok_0)
            },
        },
{
}

/// Of a task that tokio joined, the result is passed on, and an error is put in its own
/// words, all of them.
pub proof fn joined_task_is_passed_on<R>(
    joined: Result<R, JoinError>,
    outcome: Result<R, SpawnError>,
)
    requires
        call_ensures(spawn_outcome::<R>, (joined,), outcome),
    ensures
        match joined {
            Ok(result) => outcome == Ok::<R, SpawnError>(result),
            Err(error) => outcome is Err && outcome->Err_0.message@ == join_error_text(error),
        },
{
}

/// Tokio runs a task on the runtime at hand, be it a handle or one of its own. The task's
/// result is passed on, and the error that ended it comes in its own words.
pub(crate) proof fn tokio_runs_the_task<'a, R: Send + 'static, F: FnOnce() -> R + Send + 'static>(
    runtime: &Tokio,
    task: F,
    pending: FutureObj<'a, Result<R, SpawnError>>,
)
    requires
        call_ensures(Tokio::run_blocking::<R, F>, (runtime, task), pending),
        pending.awaited(),
    ensures
        exists|joined: JoinHandle<R>|
            {
                &&& match *runtime {
                    Tokio::Handle(handle) => call_ensures(
                        handle_spawn_blocking::<F, R>,
                        (&handle, task),
                        joined,
                    ),
                    Tokio::Runtime(own) => call_ensures(
                        runtime_spawn_blocking::<F, R>,
                        (&own, task),
                        joined,
                    ),
                }
                &&& #[trigger] joined.awaited()
                &&& match joined@ {
                    Ok(result) => {
                        &&& pending@ == Ok::<R, SpawnError>(result)
                        &&& call_ensures(task, (), result)
                    },
                    Err(error) => pending@ is Err && pending@->Err_0.message@ == join_error_text(
                        error,
                    ),
                }
            },
{
    let joined = choose|joined: JoinHandle<R>|
        {
            &&& #[trigger] runtime.joins(task, joined)
            &&& joined.awaited()
            &&& spawned(joined@, pending@)
        };
    joined_by_the_runtime(*runtime, task, joined);
    assert(joined.awaited());
}

/// A new instance is a handle of the runtime that the caller runs in, or a runtime that was
/// newly built where the caller runs in none.
pub(crate) proof fn new_instance_is_the_current_runtime(runtime: Tokio)
    requires
        call_ensures(<Tokio as SpawnBlocking>::get_runtime, (), runtime),
    ensures
        exists|current: Result<tokio::runtime::Handle, TryCurrentError>|
            {
                &&& #[trigger] call_ensures(tokio::runtime::Handle::try_current, (), current)
                &&& match current {
                    Ok(handle) => runtime == Tokio::Handle(handle),
                    Err(_) => {
                        &&& runtime is Runtime
                        &&& call_ensures(
                            new_current_thread,
                            (),
                            Ok::<tokio::runtime::Runtime, std::io::Error>(runtime->Runtime_0),
                        )
                    },
                }
            },
{
    let current = choose|current: Result<tokio::runtime::Handle, TryCurrentError>|
        {
            &&& call_ensures(tokio::runtime::Handle::try_current, (), current)
            &&& #[trigger] Tokio::chosen(current, runtime)
        };
    if current is Err {
        built_by_tokio(runtime->Runtime_0);
    }
    assert(call_ensures(tokio::runtime::Handle::try_current, (), current));
}

} // verus!
