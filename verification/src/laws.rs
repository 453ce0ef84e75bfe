//! What holds of the library as a whole.
use std::sync::{LockResult, Mutex, MutexGuard, PoisonError};

use diesel::query_builder::CollectedQuery;
use diesel::{ConnectionResult, QueryResult};
use futures_util::future::FutureObj;
use tokio::task::JoinError;
use vstd::future::FutureAdditionalSpecFns;
use vstd::prelude::*;
use vstd::std_specs::iter::IteratorSpec;

use crate::connection::{
    answered, connected_by, established, ran_prepared, settled, spawn_failed, SyncConnectionWrapper,
};
use crate::error::{
    bad_connection_of, database_error_of, spawn_blocking_error, DatabaseErrorKind, SpawnError,
};
use crate::exclusive::{granted, granted_despite_poison, looked_up, ExclusiveAccessError};
use crate::lock::{handed_out, handed_out_by, handed_out_with_poison_cleared, ran, recovered};
use crate::query::{made_of, prepared, run_prepared, same_parts};
use crate::rows::{all_read, converted, converted_in_turn, fails_at, load_rows};
use crate::runtime::{join_error_text, spawned, SpawnBlocking, Tokio};
use crate::transaction::SyncTransactionManagerWrapper;

verus! {

/// Going through the wrapper changes nothing about an operation: what its task
/// returned, a value or an error, is what the query ends in.
pub proof fn result_of_the_task_is_the_result<R>(returned: QueryResult<R>, result: QueryResult<R>)
    requires
        settled(Ok::<QueryResult<R>, SpawnError>(returned), result),
    ensures
        result == returned,
{
}

/// A runtime that gave no result of the task never makes a query succeed: the query
/// ends in the error that the command could not be sent, with the runtime's reason.
pub proof fn failure_to_spawn_is_an_error<S: SpawnBlocking, R>(runtime: S, result: QueryResult<R>)
    requires
        spawn_failed(runtime, result),
    ensures
        exists|failure: SpawnError|
            {
                &&& S::refuses(runtime, failure)
                &&& result == Err::<R, diesel::result::Error>(#[trigger] spawn_blocking_error(failure))
            },
{
    let failure = choose|failure: SpawnError|
        S::refuses(runtime, failure) && #[trigger] settled(
            Err::<QueryResult<R>, SpawnError>(failure),
            result,
        );
    assert(result == Err::<R, diesel::result::Error>(spawn_blocking_error(failure)));
}

/// Where tokio gave no result of a task, the query's error has the words of the error
/// that ended the task.
pub proof fn failure_on_tokio_has_the_words_of_the_task<R>(runtime: Tokio, result: QueryResult<R>)
    requires
        spawn_failed(runtime, result),
    ensures
        exists|error: JoinError|
            result == Err::<R, diesel::result::Error>(
                database_error_of(
                    DatabaseErrorKind::UnableToSendCommand,
                    #[trigger] join_error_text(error),
                ),
            ),
{
}

/// From the end of a tokio task to the result of a query: a value or an error that
/// the task returned comes through both steps unchanged, and the failure of the
/// task comes out with its own words.
pub proof fn joined_task_to_result<R>(
    joined: Result<QueryResult<R>, JoinError>,
    outcome: Result<QueryResult<R>, SpawnError>,
    result: QueryResult<R>,
)
    requires
        spawned(joined, outcome),
        settled(outcome, result),
    ensures
        match joined {
            Ok(returned) => result == returned,
            Err(error) => result == Err::<R, diesel::result::Error>(
                database_error_of(
                    DatabaseErrorKind::UnableToSendCommand,
                    join_error_text(error),
                ),
            ),
        },
{
}

/// A query succeeds only where its task ran on the connection and the wrapper's runtime
/// handed its value back.
pub proof fn success_comes_from_the_connection<
    C,
    S: SpawnBlocking,
    R,
    F: FnOnce(&mut C) -> QueryResult<R>,
>(mutex: Mutex<C>, runtime: S, task: F, result: QueryResult<R>)
    requires
        answered(mutex, runtime, task, result),
        result is Ok,
    ensures
        S::delivers(runtime, result),
        exists|connection: &mut C|
            handed_out(mutex, connection) && #[trigger] call_ensures(task, (connection,), result),
{
}

/// A runtime that refuses no task gives every operation the result of its task.
pub proof fn willing_runtime_answers_with_the_task<
    C,
    S: SpawnBlocking,
    R,
    F: FnOnce(&mut C) -> QueryResult<R>,
>(mutex: Mutex<C>, runtime: S, task: F, result: QueryResult<R>)
    requires
        answered(mutex, runtime, task, result),
        forall|failure: SpawnError| !S::refuses(runtime, failure),
    ensures
        ran(mutex, task, result),
{
}

/// The tasks of a wrapper run on the runtime that it was built with: the first task is
/// answered by that runtime, and leaves it one step on.
pub proof fn tasks_run_on_the_given_runtime<
    'a,
    C: Send + 'static,
    S: SpawnBlocking,
    R: Send + 'static,
    F: FnOnce(&mut C) -> QueryResult<R> + Send + 'static,
>(
    connection: C,
    runtime: S,
    wrapper: &mut SyncConnectionWrapper<C, S>,
    task: F,
    pending: FutureObj<'a, QueryResult<R>>,
)
    requires
        call_ensures(SyncConnectionWrapper::<C, S>::with_runtime, (connection, runtime), *wrapper),
        call_ensures(SyncConnectionWrapper::<C, S>::spawn_blocking, (wrapper, task), pending),
        pending.awaited(),
    ensures
        old(wrapper).made_from(connection),
        answered(old(wrapper).mutex(), runtime, task, pending@),
        final(wrapper).mutex() == old(wrapper).mutex(),
        S::steps(runtime, final(wrapper).spawner()),
{
}

/// A poisoned mutex does not stay poisoned, and does not keep the connection from the
/// next task.
pub proof fn poison_is_cleared<'a, C>(
    mutex: Mutex<C>,
    poison: PoisonError<MutexGuard<'a, C>>,
    guard: MutexGuard<'a, C>,
)
    requires
        recovered(mutex, Err::<MutexGuard<'a, C>, PoisonError<MutexGuard<'a, C>>>(poison), guard),
    ensures
        call_ensures(Mutex::<C>::clear_poison, (&mutex,), ()),
        call_ensures(PoisonError::<MutexGuard<'a, C>>::into_inner, (poison,), guard),
{
}

/// Where a query cannot be prepared, the first error is its result, whatever the
/// callback would have done: the values to bind come first, then the text, then the
/// question whether the statement may be kept.
pub proof fn first_error_of_preparation_wins<
    C,
    MD,
    R,
    F: FnOnce(&mut C, &CollectedQuery<MD>) -> QueryResult<R>,
>(
    mutex: Mutex<C>,
    collected: QueryResult<()>,
    sql: QueryResult<String>,
    is_safe_to_cache_prepared: QueryResult<bool>,
    bind_data: MD,
    query: QueryResult<CollectedQuery<MD>>,
    callback: F,
    result: QueryResult<R>,
)
    requires
        prepared(collected, sql, is_safe_to_cache_prepared, bind_data, query),
        ran_prepared(mutex, query, callback, result),
    ensures
        collected matches Err(error) ==> result == Err::<R, diesel::result::Error>(error),
        collected is Ok ==> (sql matches Err(error) ==> result == Err::<R, diesel::result::Error>(
            error,
        )),
        collected is Ok && sql is Ok ==> (is_safe_to_cache_prepared matches Err(error) ==> result
            == Err::<R, diesel::result::Error>(error)),
{
}

/// Where a query can be prepared, the callback is run on the connection, with the
/// query made of the three parts, and what it returns is the result.
pub proof fn callback_gets_the_prepared_query<
    C,
    MD,
    R,
    F: FnOnce(&mut C, &CollectedQuery<MD>) -> QueryResult<R>,
>(
    mutex: Mutex<C>,
    sql: String,
    is_safe_to_cache_prepared: bool,
    bind_data: MD,
    query: QueryResult<CollectedQuery<MD>>,
    callback: F,
    result: QueryResult<R>,
)
    requires
        prepared(
            Ok::<(), diesel::result::Error>(()),
            Ok::<String, diesel::result::Error>(sql),
            Ok::<bool, diesel::result::Error>(is_safe_to_cache_prepared),
            bind_data,
            query,
        ),
        ran_prepared(mutex, query, callback, result),
    ensures
        exists|connection: &mut C, made: CollectedQuery<MD>|
            {
                &&& handed_out(mutex, connection)
                &&& call_ensures(
                    CollectedQuery::<MD>::new,
                    (sql, is_safe_to_cache_prepared, bind_data),
                    made,
                )
                &&& #[trigger] call_ensures(callback, (connection, &made), result)
            },
{
    let connection = choose|connection: &mut C|
        handed_out(mutex, connection) && #[trigger] run_prepared(
            connection,
            query,
            callback,
            result,
        );
    let made = query->Ok_0;
    assert(call_ensures(callback, (connection, &made), result));
}

/// Either every row can be read, or there is a first one that cannot, and only one.
pub proof fn rows_are_read_or_fail_once<Row>(rows: Seq<QueryResult<Row>>)
    ensures
        all_read(rows) <==> !exists|k: int| fails_at(rows, k),
        forall|j: int, k: int| fails_at(rows, j) && fails_at(rows, k) ==> j == k,
{
    if !all_read(rows) {
        first_failure(rows);
    }
    assert forall|k: int| fails_at(rows, k) implies !all_read(rows) by {
        assert(rows[k] is Err);
    }
    assert forall|j: int, k: int| fails_at(rows, j) && fails_at(rows, k) implies j == k by {
        if j < k {
            assert(rows.take(k)[j] is Ok);
        } else if k < j {
            assert(rows.take(j)[k] is Ok);
        }
    }
}

/// Among rows that cannot all be read there is a first one that cannot.
proof fn first_failure<Row>(rows: Seq<QueryResult<Row>>) -> (k: int)
    requires
        !all_read(rows),
    ensures
        fails_at(rows, k),
    decreases rows.len(),
{
    let j = choose|j: int| 0 <= j < rows.len() && !((#[trigger] rows[j]) is Ok);
    if all_read(rows.take(j)) {
        j
    } else {
        let k = first_failure(rows.take(j));
        assert(rows.take(j).take(k) == rows.take(k));
        k
    }
}

/// Conversions that agree on the rows before agree on the row at `i`, and on what they
/// leave in the cache.
proof fn same_items<Row, O, K: Default, F: Fn(Row, &mut K) -> O>(
    into_owned: F,
    rows: Seq<QueryResult<Row>>,
    one: (Seq<&mut K>, Seq<K>, Seq<QueryResult<O>>),
    other: (Seq<&mut K>, Seq<K>, Seq<QueryResult<O>>),
    i: int,
)
    requires
        0 <= i < rows.len(),
        converted_in_turn(into_owned, rows, one.0, one.1, one.2),
        converted_in_turn(into_owned, rows, other.0, other.1, other.2),
        forall|i: int| 0 <= i < one.1.len() ==> #[trigger] one.1[i] == *final(one.0[i]),
        forall|i: int| 0 <= i < other.1.len() ==> #[trigger] other.1[i] == *final(other.0[i]),
        forall|a: K, b: K| #[trigger]
            call_ensures(K::default, (), a) && #[trigger] call_ensures(K::default, (), b) ==> a
                == b,
        forall|row: Row, c: &mut K, d: &mut K, x: O, y: O|
            *c == *d && #[trigger] call_ensures(into_owned, (row, c), x)
                && #[trigger] call_ensures(into_owned, (row, d), y) ==> x == y && *final(c)
                == *final(d),
    ensures
        one.2[i] == other.2[i],
        one.1[i] == other.1[i],
    decreases i,
{
    if i > 0 {
        same_items(into_owned, rows, one, other, i - 1);
    }
    assert(*one.0[i] == *other.0[i]);
    assert(converted(into_owned, rows[i], one.0[i], one.2[i]));
    assert(converted(into_owned, rows[i], other.0[i], other.2[i]));
}

/// A mutex that every step keeps is the first one's.
proof fn mutex_is_kept<C, S>(states: Seq<SyncConnectionWrapper<C, S>>, i: int)
    requires
        0 <= i < states.len(),
        forall|i: int| 1 <= i < states.len() ==> (#[trigger] states[i]).mutex() == states[i - 1].mutex(),
    ensures
        states[i].mutex() == states.first().mutex(),
    decreases i,
{
    if i > 0 {
        mutex_is_kept(states, i - 1);
    }
}

/// Rows after the first one that cannot be read make no difference.
pub proof fn later_rows_do_not_matter<Row>(
    rows: Seq<QueryResult<Row>>,
    later: Seq<QueryResult<Row>>,
    k: int,
)
    requires
        fails_at(rows, k),
    ensures
        fails_at(rows + later, k),
        (rows + later)[k] == rows[k],
{
    assert((rows + later).take(k) == rows.take(k));
}

/// The two ways to reach the connection without a task agree, but for poison: they
/// grant the same connection, and refuse it alike where it is shared. Only the
/// strict one refuses a poisoned connection.
pub proof fn exclusive_access_differs_only_by_poison<T>(
    found: Option<LockResult<T>>,
    strict: Result<T, ExclusiveAccessError>,
    despite_poison: Result<T, ExclusiveAccessError>,
)
    requires
        granted(found, strict),
        granted_despite_poison(found, despite_poison),
    ensures
        strict is Ok ==> despite_poison == strict,
        strict == Err::<T, ExclusiveAccessError>(ExclusiveAccessError::Shared) <==> despite_poison
            is Err,
        strict == Err::<T, ExclusiveAccessError>(ExclusiveAccessError::Poisoned) ==> despite_poison
            is Ok,
        despite_poison is Err ==> despite_poison == strict,
{
}

/// Establishing a connection succeeds exactly where connecting did, and wraps that
/// connection; an error of connecting is returned as it is.
pub proof fn establishing_is_connecting<C, S>(
    connected: ConnectionResult<C>,
    runtime: S,
    wrapper: ConnectionResult<SyncConnectionWrapper<C, S>>,
)
    requires
        established(Ok::<ConnectionResult<C>, SpawnError>(connected), runtime, wrapper),
    ensures
        wrapper is Ok <==> connected is Ok,
        connected matches Ok(connection) ==> wrapper->Ok_0.made_from(connection),
        connected matches Err(error) ==> wrapper->Err_0 == error,
{
}

/// A runtime that gave no result of connecting makes a bad connection, with its
/// reason.
pub proof fn failure_to_spawn_is_a_bad_connection<C, S>(
    failure: SpawnError,
    runtime: S,
    wrapper: ConnectionResult<SyncConnectionWrapper<C, S>>,
)
    requires
        established(Err::<ConnectionResult<C>, SpawnError>(failure), runtime, wrapper),
    ensures
        wrapper == Err::<SyncConnectionWrapper<C, S>, diesel::ConnectionError>(
            bad_connection_of(failure.message@),
        ),
{
}

/// An established wrapper keeps the runtime that ran the connecting: it wraps the
/// connection that a new instance of the runtime handed back, and its first task is
/// answered by that instance, one step on.
pub proof fn established_wrapper_keeps_its_runtime<
    'a,
    'b,
    C: Send + 'static,
    S: SpawnBlocking + Send + 'a,
    R: Send + 'static,
    F: FnOnce(&str) -> ConnectionResult<C> + Send + 'static,
    G: FnOnce(&mut C) -> QueryResult<R> + Send + 'static,
>(
    database_url: &str,
    connect: F,
    establishing: FutureObj<'a, ConnectionResult<SyncConnectionWrapper<C, S>>>,
    wrapper: &mut SyncConnectionWrapper<C, S>,
    task: G,
    pending: FutureObj<'b, QueryResult<R>>,
)
    requires
        call_ensures(
            SyncConnectionWrapper::<C, S>::establish::<F>,
            (database_url, connect),
            establishing,
        ),
        establishing.awaited(),
        establishing@ == Ok::<SyncConnectionWrapper<C, S>, diesel::ConnectionError>(*wrapper),
        call_ensures(SyncConnectionWrapper::<C, S>::spawn_blocking, (wrapper, task), pending),
        pending.awaited(),
    ensures
        exists|first: S, runtime: S, connection: C|
            {
                &&& call_ensures(S::get_runtime, (), first)
                &&& S::delivers(first, Ok::<C, diesel::ConnectionError>(connection))
                &&& #[trigger] S::steps(first, runtime)
                &&& #[trigger] old(wrapper).made_from(connection)
                &&& answered(old(wrapper).mutex(), runtime, task, pending@)
                &&& S::steps(runtime, final(wrapper).spawner())
            },
{
    let (first, outcome, runtime) = choose|
        first: S,
        outcome: Result<ConnectionResult<C>, SpawnError>,
        runtime: S,
    |
        {
            &&& #[trigger] call_ensures(S::get_runtime, (), first)
            &&& connected_by(first, outcome, database_url@, connect)
            &&& S::steps(first, runtime)
            &&& #[trigger] established(outcome, runtime, establishing@)
        };
    let connection = outcome->Ok_0->Ok_0;
    assert(wrapper.made_from(connection));
}

/// Wrapping a connection is wrapping it with a new instance of the runtime: what `new`
/// returns, `with_runtime` returns for an instance that the runtime's constructor
/// returned, and it wraps the same connection with that instance.
pub proof fn new_is_with_a_new_runtime<C, S: SpawnBlocking>(
    connection: C,
    wrapper: SyncConnectionWrapper<C, S>,
)
    requires
        call_ensures(SyncConnectionWrapper::<C, S>::new, (connection,), wrapper),
    ensures
        exists|runtime: S|
            {
                &&& #[trigger] call_ensures(S::get_runtime, (), runtime)
                &&& call_ensures(
                    SyncConnectionWrapper::<C, S>::with_runtime,
                    (connection, runtime),
                    wrapper,
                )
                &&& wrapper.made_from(connection)
                &&& wrapper.spawner() == runtime
            },
{
}

/// Poison makes no difference to a task: run on equal connections, one behind a mutex
/// that was clean and one behind a mutex that was poisoned, a task that depends on its
/// connection alone returns the same. The mark of poison is cleared.
pub proof fn poison_makes_no_difference_to_a_task<'a, C, R, F: FnOnce(&mut C) -> R>(
    clean: (Mutex<C>, LockResult<MutexGuard<'a, C>>),
    poisoned: (Mutex<C>, LockResult<MutexGuard<'a, C>>),
    at_clean: &mut C,
    at_poisoned: &mut C,
    task: F,
    result: R,
    result_despite_poison: R,
)
    requires
        clean.1 is Ok,
        poisoned.1 is Err,
        handed_out_by(clean.0, clean.1, at_clean),
        handed_out_by(poisoned.0, poisoned.1, at_poisoned),
        *at_clean == *at_poisoned,
        forall|c: &mut C, d: &mut C, x: R, y: R|
            *c == *d && #[trigger] call_ensures(task, (c,), x) && #[trigger] call_ensures(
                task,
                (d,),
                y,
            ) ==> x == y,
        call_ensures(task, (at_clean,), result),
        call_ensures(task, (at_poisoned,), result_despite_poison),
    ensures
        ran(clean.0, task, result),
        ran(poisoned.0, task, result_despite_poison),
        result_despite_poison == result,
        call_ensures(Mutex::<C>::clear_poison, (&poisoned.0,), ()),
{
    handed_out_with_poison_cleared(poisoned.0, poisoned.1, at_poisoned);
}

/// Poison makes no difference to a prepared query. Of two equal connections one is
/// behind a mutex that is clean, the other behind a mutex that is poisoned when the
/// values to bind are collected; the callback finds the connection as collecting left
/// it. Where collecting depends on the connection alone, and the callback on the
/// connection and on what the query is made of, the results are the same. The mark of
/// poison is cleared.
pub proof fn poison_makes_no_difference_to_a_prepared_query<
    'a,
    C,
    MD,
    R,
    B: FnOnce(&mut C) -> (QueryResult<()>, MD),
    F: FnOnce(&mut C, &CollectedQuery<MD>) -> QueryResult<R>,
>(
    clean: (Mutex<C>, LockResult<MutexGuard<'a, C>>),
    poisoned: (Mutex<C>, LockResult<MutexGuard<'a, C>>),
    binding: (&mut C, &mut C),
    collect_binds: B,
    collected: ((QueryResult<()>, MD), (QueryResult<()>, MD)),
    sql: QueryResult<String>,
    is_safe: QueryResult<bool>,
    query: (QueryResult<CollectedQuery<MD>>, QueryResult<CollectedQuery<MD>>),
    running: (&mut C, &mut C),
    callback: F,
    result: QueryResult<R>,
    result_despite_poison: QueryResult<R>,
)
    requires
        clean.1 is Ok,
        poisoned.1 is Err,
        handed_out_by(clean.0, clean.1, binding.0),
        handed_out_by(poisoned.0, poisoned.1, binding.1),
        *binding.0 == *binding.1,
        call_ensures(collect_binds, (binding.0,), collected.0),
        call_ensures(collect_binds, (binding.1,), collected.1),
        prepared(collected.0.0, sql, is_safe, collected.0.1, query.0),
        prepared(collected.1.0, sql, is_safe, collected.1.1, query.1),
        handed_out(clean.0, running.0),
        handed_out(poisoned.0, running.1),
        *running.0 == *final(binding.0),
        *running.1 == *final(binding.1),
        run_prepared(running.0, query.0, callback, result),
        run_prepared(running.1, query.1, callback, result_despite_poison),
        forall|c: &mut C, d: &mut C, x: (QueryResult<()>, MD), y: (QueryResult<()>, MD)|
            *c == *d && #[trigger] call_ensures(collect_binds, (c,), x) && #[trigger] call_ensures(
                collect_binds,
                (d,),
                y,
            ) ==> x == y && *final(c) == *final(d),
        forall|
            c: &mut C,
            d: &mut C,
            p: CollectedQuery<MD>,
            q: CollectedQuery<MD>,
            x: QueryResult<R>,
            y: QueryResult<R>,
        |
            *c == *d && same_parts(p, q) && #[trigger] call_ensures(callback, (c, &p), x)
                && #[trigger] call_ensures(callback, (d, &q), y) ==> x == y,
    ensures
        result_despite_poison == result,
        call_ensures(Mutex::<C>::clear_poison, (&poisoned.0,), ()),
{
    handed_out_with_poison_cleared(poisoned.0, poisoned.1, binding.1);
    if query.0 is Ok {
        let (text, safe, bind_data) = (sql->Ok_0, is_safe->Ok_0, collected.0.1);
        assert(made_of(query.0->Ok_0, text, safe, bind_data));
        assert(made_of(query.1->Ok_0, text, safe, bind_data));
        assert(same_parts(query.0->Ok_0, query.1->Ok_0));
        assert(call_ensures(callback, (running.0, &query.0->Ok_0), result));
        assert(call_ensures(callback, (running.1, &query.1->Ok_0), result_despite_poison));
    }
}

/// Loading rows succeeds exactly where the runtime delivered, the query could be
/// prepared and run, and every row could be read; and then no item is an error.
pub proof fn loading_succeeds_exactly_where_every_part_does<Row, O, K, I, F, MD>(
    outcome: Result<QueryResult<Vec<QueryResult<O>>>, SpawnError>,
    collected: QueryResult<()>,
    sql: QueryResult<String>,
    is_safe: QueryResult<bool>,
    bind_data: MD,
    query: QueryResult<CollectedQuery<MD>>,
    cursor: QueryResult<I>,
    into_owned: F,
    result: QueryResult<Vec<QueryResult<O>>>,
) where K: Default, I: Iterator<Item = QueryResult<Row>>, F: Fn(Row, &mut K) -> O
    requires
        prepared(collected, sql, is_safe, bind_data, query),
        outcome matches Ok(returned) ==> match query {
            Ok(_) => call_ensures(load_rows::<Row, O, K, I, F>, (cursor, into_owned), returned),
            Err(error) => returned == Err::<Vec<QueryResult<O>>, diesel::result::Error>(error),
        },
        settled(outcome, result),
    ensures
        result is Ok <==> {
            &&& outcome is Ok
            &&& collected is Ok
            &&& sql is Ok
            &&& is_safe is Ok
            &&& cursor matches Ok(cursor) && all_read(cursor.remaining())
        },
        result matches Ok(rows) ==> all_read(rows@),
{
    if outcome is Ok && query is Ok && cursor is Ok {
        let rows = cursor->Ok_0.remaining();
        rows_are_read_or_fail_once(rows);
        if result is Ok {
            let owned = result->Ok_0@;
            assert forall|i: int| 0 <= i < owned.len() implies (#[trigger] owned[i]) is Ok by {}
        }
    }
}

/// Loading depends on the rows alone: two cursors that yield the same rows, whatever
/// they say about how many there are, both succeed with as many items, or both end in
/// the same error.
pub proof fn loading_depends_on_the_rows_alone<Row, O, K, I, J, F>(
    one: I,
    other: J,
    into_owned: F,
    result_of_one: QueryResult<Vec<QueryResult<O>>>,
    result_of_other: QueryResult<Vec<QueryResult<O>>>,
) where
    K: Default,
    I: Iterator<Item = QueryResult<Row>>,
    J: Iterator<Item = QueryResult<Row>>,
    F: Fn(Row, &mut K) -> O,

    requires
        one.remaining() == other.remaining(),
        call_ensures(
            load_rows::<Row, O, K, I, F>,
            (Ok::<I, diesel::result::Error>(one), into_owned),
            result_of_one,
        ),
        call_ensures(
            load_rows::<Row, O, K, J, F>,
            (Ok::<J, diesel::result::Error>(other), into_owned),
            result_of_other,
        ),
    ensures
        match (result_of_one, result_of_other) {
            (Ok(a), Ok(b)) => a@.len() == b@.len() == one.remaining().len(),
            (Err(a), Err(b)) => a == b,
            _ => false,
        },
{
    rows_are_read_or_fail_once(one.remaining());
}

/// Two cursors that yield the same rows give the same items, in the same order, where
/// the conversion depends on the row and the cache alone, and a new cache is always the
/// same.
pub proof fn loading_is_determined_by_the_rows<Row, O, K, I, J, F>(
    one: I,
    other: J,
    into_owned: F,
    items_of_one: Vec<QueryResult<O>>,
    items_of_other: Vec<QueryResult<O>>,
) where
    K: Default,
    I: Iterator<Item = QueryResult<Row>>,
    J: Iterator<Item = QueryResult<Row>>,
    F: Fn(Row, &mut K) -> O,

    requires
        one.remaining() == other.remaining(),
        call_ensures(
            load_rows::<Row, O, K, I, F>,
            (Ok::<I, diesel::result::Error>(one), into_owned),
            Ok::<Vec<QueryResult<O>>, diesel::result::Error>(items_of_one),
        ),
        call_ensures(
            load_rows::<Row, O, K, J, F>,
            (Ok::<J, diesel::result::Error>(other), into_owned),
            Ok::<Vec<QueryResult<O>>, diesel::result::Error>(items_of_other),
        ),
        forall|a: K, b: K| #[trigger]
            call_ensures(K::default, (), a) && #[trigger] call_ensures(K::default, (), b) ==> a
                == b,
        forall|row: Row, c: &mut K, d: &mut K, x: O, y: O|
            *c == *d && #[trigger] call_ensures(into_owned, (row, c), x)
                && #[trigger] call_ensures(into_owned, (row, d), y) ==> x == y && *final(c)
                == *final(d),
    ensures
        items_of_one@ == items_of_other@,
{
    let rows = one.remaining();
    let (c, p) = choose|c: Seq<&mut K>, p: Seq<K>|
        {
            &&& #[trigger] converted_in_turn(into_owned, rows, c, p, items_of_one@)
            &&& forall|i: int| 0 <= i < p.len() ==> #[trigger] p[i] == *final(c[i])
        };
    let (d, q) = choose|d: Seq<&mut K>, q: Seq<K>|
        {
            &&& #[trigger] converted_in_turn(into_owned, rows, d, q, items_of_other@)
            &&& forall|i: int| 0 <= i < q.len() ==> #[trigger] q[i] == *final(d[i])
        };
    assert forall|i: int| 0 <= i < rows.len() implies items_of_one@[i] == items_of_other@[i] by {
        same_items(into_owned, rows, (c, p, items_of_one@), (d, q, items_of_other@), i);
    }
}

/// A transaction that was begun is committed on the same connection: where the runtime
/// refuses no task, the awaited commit is what the operation for it returned there,
/// whatever it is. `between` are the states in which the operations in between found
/// the wrapper, each of which kept its mutex.
pub proof fn commit_runs_where_the_transaction_began<
    'a,
    'b,
    T,
    C: Send + 'static,
    S: SpawnBlocking + Send,
    F: FnOnce(&mut C) -> QueryResult<()> + Send + 'static,
    G: FnOnce(&mut C) -> QueryResult<()> + Send + 'static,
>(
    at_begin: &'a mut SyncConnectionWrapper<C, S>,
    begin: F,
    begun: FutureObj<'a, QueryResult<()>>,
    between: Seq<SyncConnectionWrapper<C, S>>,
    at_commit: &'b mut SyncConnectionWrapper<C, S>,
    commit: G,
    committed: FutureObj<'b, QueryResult<()>>,
)
    requires
        call_ensures(
            SyncTransactionManagerWrapper::<T>::begin_transaction::<C, S, F>,
            (at_begin, begin),
            begun,
        ),
        begun.awaited(),
        begun@ == Ok::<(), diesel::result::Error>(()),
        between.len() > 0,
        between.first() == *final(at_begin),
        forall|i: int| 1 <= i < between.len() ==> (#[trigger] between[i]).mutex() == between[i - 1].mutex(),
        *at_commit == between.last(),
        call_ensures(
            SyncTransactionManagerWrapper::<T>::commit_transaction::<C, S, G>,
            (at_commit, commit),
            committed,
        ),
        committed.awaited(),
        forall|failure: SpawnError| !S::refuses(at_commit.spawner(), failure),
    ensures
        ran(old(at_begin).mutex(), begin, Ok::<(), diesel::result::Error>(())),
        ran(old(at_begin).mutex(), commit, committed@),
        final(at_commit).mutex() == old(at_begin).mutex(),
{
    mutex_is_kept(between, between.len() - 1);
}

/// A transaction that was begun is rolled back on the same connection: where the runtime
/// refuses no task, the awaited rollback is what the operation for it returned there,
/// whatever it is. `between` are the states in which the operations in between found
/// the wrapper, each of which kept its mutex.
pub proof fn rollback_runs_where_the_transaction_began<
    'a,
    'b,
    T,
    C: Send + 'static,
    S: SpawnBlocking + Send,
    F: FnOnce(&mut C) -> QueryResult<()> + Send + 'static,
    G: FnOnce(&mut C) -> QueryResult<()> + Send + 'static,
>(
    at_begin: &'a mut SyncConnectionWrapper<C, S>,
    begin: F,
    begun: FutureObj<'a, QueryResult<()>>,
    between: Seq<SyncConnectionWrapper<C, S>>,
    at_rollback: &'b mut SyncConnectionWrapper<C, S>,
    rollback: G,
    rolled_back: FutureObj<'b, QueryResult<()>>,
)
    requires
        call_ensures(
            SyncTransactionManagerWrapper::<T>::begin_transaction::<C, S, F>,
            (at_begin, begin),
            begun,
        ),
        begun.awaited(),
        begun@ == Ok::<(), diesel::result::Error>(()),
        between.len() > 0,
        between.first() == *final(at_begin),
        forall|i: int|
            1 <= i < between.len() ==> (#[trigger] between[i]).mutex() == between[i - 1].mutex(),
        *at_rollback == between.last(),
        call_ensures(
            SyncTransactionManagerWrapper::<T>::rollback_transaction::<C, S, G>,
            (at_rollback, rollback),
            rolled_back,
        ),
        rolled_back.awaited(),
        forall|failure: SpawnError| !S::refuses(at_rollback.spawner(), failure),
    ensures
        ran(old(at_begin).mutex(), begin, Ok::<(), diesel::result::Error>(())),
        ran(old(at_begin).mutex(), rollback, rolled_back@),
        final(at_rollback).mutex() == old(at_begin).mutex(),
{
    mutex_is_kept(between, between.len() - 1);
}

/// Two tasks that are run in turn meet one connection, whether the first one succeeded or
/// not: where the runtime refuses no task, each returned its result on what one and the
/// same mutex holds.
pub proof fn tasks_in_turn_meet_one_connection<
    'a,
    'b,
    C: Send + 'static,
    S: SpawnBlocking,
    P: Send + 'static,
    Q: Send + 'static,
    F: FnOnce(&mut C) -> QueryResult<P> + Send + 'static,
    G: FnOnce(&mut C) -> QueryResult<Q> + Send + 'static,
>(
    at_first: &mut SyncConnectionWrapper<C, S>,
    first: F,
    first_pending: FutureObj<'a, QueryResult<P>>,
    at_second: &mut SyncConnectionWrapper<C, S>,
    second: G,
    second_pending: FutureObj<'b, QueryResult<Q>>,
)
    requires
        call_ensures(SyncConnectionWrapper::<C, S>::spawn_blocking, (at_first, first), first_pending),
        first_pending.awaited(),
        *at_second == *final(at_first),
        call_ensures(
            SyncConnectionWrapper::<C, S>::spawn_blocking,
            (at_second, second),
            second_pending,
        ),
        second_pending.awaited(),
        forall|failure: SpawnError| !S::refuses(at_first.spawner(), failure),
        forall|failure: SpawnError| !S::refuses(at_second.spawner(), failure),
    ensures
        ran(old(at_first).mutex(), first, first_pending@),
        ran(old(at_first).mutex(), second, second_pending@),
        final(at_second).mutex() == old(at_first).mutex(),
{
}

/// Exclusive access and the operation of a transaction that comes next reach one connection:
/// the access is what the wrapper's mutex gave of what it holds, and the operation, which
/// begins, commits or rolls back, runs on what that same mutex holds.
pub proof fn exclusive_access_and_the_next_operation_reach_one_connection<
    'a,
    'b,
    T,
    C: Send + 'static,
    S: SpawnBlocking + Send,
    F: FnOnce(&mut C) -> QueryResult<()> + Send + 'static,
>(
    at_access: &'a mut SyncConnectionWrapper<C, S>,
    connection: &'a mut C,
    at_operation: &'b mut SyncConnectionWrapper<C, S>,
    operation: F,
    pending: FutureObj<'b, QueryResult<()>>,
)
    requires
        call_ensures(
            SyncConnectionWrapper::<C, S>::exclusive_connection,
            (at_access,),
            Ok::<&mut C, ExclusiveAccessError>(connection),
        ),
        *at_operation == *final(at_access),
        ({
            ||| call_ensures(
                SyncTransactionManagerWrapper::<T>::begin_transaction::<C, S, F>,
                (at_operation, operation),
                pending,
            )
            ||| call_ensures(
                SyncTransactionManagerWrapper::<T>::commit_transaction::<C, S, F>,
                (at_operation, operation),
                pending,
            )
            ||| call_ensures(
                SyncTransactionManagerWrapper::<T>::rollback_transaction::<C, S, F>,
                (at_operation, operation),
                pending,
            )
        }),
        pending.awaited(),
    ensures
        looked_up(old(at_access).mutex(), Some(Ok::<&mut C, PoisonError<&mut C>>(connection))),
        answered(old(at_access).mutex(), old(at_access).spawner(), operation, pending@),
        final(at_operation).mutex() == old(at_access).mutex(),
{
}

} // verus!
