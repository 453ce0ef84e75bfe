use std::cell::RefCell;
use std::future::Future;
use std::sync::{LockResult, PoisonError};

use diesel::query_builder::CollectedQuery;
use diesel::result::Error;
use diesel::QueryResult;
use sync_connection_wrapper::exclusive::{grant, grant_despite_poison};
use sync_connection_wrapper::query::prepare_query;
use sync_connection_wrapper::rows::{collect_rows, load_rows};
use sync_connection_wrapper::{ExclusiveAccessError, SyncConnectionWrapper};

fn run<F: Future>(future: F) -> F::Output {
    tokio::runtime::Builder::new_current_thread().build().unwrap().block_on(future)
}

fn describe<T: std::fmt::Debug>(query: &CollectedQuery<T>) -> String {
    format!("{:?}", query)
}

#[test]
fn prepared_query_has_its_three_parts() {
    let query = prepare_query(Ok(()), Ok(String::from("SELECT ?")), Ok(true), 17);
    assert_eq!(
        query.map(|query| describe(&query)),
        Ok(String::from(
            "CollectedQuery { sql: \"SELECT ?\", safe_to_cache_prepared: true, bind_data: 17 }"
        ))
    );
    let query = prepare_query(Ok(()), Ok(String::from("DELETE")), Ok(false), "binds");
    assert_eq!(
        query.map(|query| describe(&query)),
        Ok(String::from(
            "CollectedQuery { sql: \"DELETE\", safe_to_cache_prepared: false, bind_data: \"binds\" }"
        ))
    );
}

#[test]
fn first_error_of_preparation_is_returned() {
    let query = prepare_query(
        Err(Error::NotFound),
        Err(Error::AlreadyInTransaction),
        Err(Error::RollbackTransaction),
        0,
    );
    assert!(matches!(query, Err(Error::NotFound)));
    let query =
        prepare_query(Ok(()), Err(Error::AlreadyInTransaction), Err(Error::RollbackTransaction), 0);
    assert!(matches!(query, Err(Error::AlreadyInTransaction)));
    let query = prepare_query(Ok(()), Ok(String::from("SELECT 1")), Err(Error::RollbackTransaction), 0);
    assert!(matches!(query, Err(Error::RollbackTransaction)));
}

#[test]
fn callback_gets_the_prepared_query() {
    let mut wrapper: SyncConnectionWrapper<u32> = SyncConnectionWrapper::new(3);
    let pending = wrapper.execute_with_prepared_query(
        |conn: &mut u32| {
            *conn += 1;
            (Ok(()), *conn)
        },
        || Ok(String::from("SELECT ?")),
        || Ok(true),
        |conn: &mut u32, query: &CollectedQuery<u32>| {
            *conn *= 10;
            Ok((*conn, describe(query)))
        },
    );
    assert_eq!(
        run(pending),
        Ok((
            40,
            String::from(
                "CollectedQuery { sql: \"SELECT ?\", safe_to_cache_prepared: true, bind_data: 4 }"
            )
        ))
    );
}

#[test]
fn callback_is_not_run_on_a_query_that_is_not_prepared() {
    let mut wrapper: SyncConnectionWrapper<u32> = SyncConnectionWrapper::new(3);
    let callback = |conn: &mut u32, _query: &CollectedQuery<()>| {
        *conn = 0;
        Ok(())
    };
    let pending = wrapper.execute_with_prepared_query(
        |_: &mut u32| (Err(Error::NotFound), ()),
        || Err(Error::AlreadyInTransaction),
        || Ok(true),
        callback,
    );
    assert!(matches!(run(pending), Err(Error::NotFound)));
    let pending = wrapper.execute_with_prepared_query(
        |_: &mut u32| (Ok(()), ()),
        || Err(Error::AlreadyInTransaction),
        || Err(Error::NotInTransaction),
        callback,
    );
    assert!(matches!(run(pending), Err(Error::AlreadyInTransaction)));
    let pending = wrapper.execute_with_prepared_query(
        |_: &mut u32| (Ok(()), ()),
        || Ok(String::from("SELECT 1")),
        || Err(Error::NotInTransaction),
        callback,
    );
    assert!(matches!(run(pending), Err(Error::NotInTransaction)));
    assert_eq!(run(wrapper.spawn_blocking(|conn: &mut u32| Ok(*conn))), Ok(3));
}

#[test]
fn callback_returns_its_error() {
    let mut wrapper: SyncConnectionWrapper<u32> = SyncConnectionWrapper::new(3);
    let pending = wrapper.execute_with_prepared_query(
        |_: &mut u32| (Ok(()), ()),
        || Ok(String::from("SELECT 1")),
        || Ok(true),
        |_: &mut u32, _: &CollectedQuery<()>| -> QueryResult<()> { Err(Error::NotFound) },
    );
    assert!(matches!(run(pending), Err(Error::NotFound)));
}

#[test]
fn query_is_collected_in_order() {
    let mut wrapper: SyncConnectionWrapper<u32> = SyncConnectionWrapper::new(3);
    let order = RefCell::new(vec![]);
    let pending = wrapper.execute_with_prepared_query(
        |_: &mut u32| {
            order.borrow_mut().push("binds");
            (Ok(()), ())
        },
        || {
            order.borrow_mut().push("text");
            Ok(String::from("SELECT 1"))
        },
        || {
            order.borrow_mut().push("cache");
            Ok(true)
        },
        |_: &mut u32, _: &CollectedQuery<()>| Ok(()),
    );
    assert_eq!(order.into_inner(), vec!["binds", "text", "cache"]);
    assert_eq!(run(pending), Ok(()));
}

#[test]
fn binds_are_collected_at_once() {
    let mut wrapper: SyncConnectionWrapper<u32> = SyncConnectionWrapper::new(3);
    let mut collected = 0;
    let pending = wrapper.execute_with_prepared_query(
        |conn: &mut u32| {
            collected = *conn;
            (Ok(()), ())
        },
        || Ok(String::from("SELECT 1")),
        || Ok(true),
        |_: &mut u32, _: &CollectedQuery<()>| Ok(()),
    );
    assert_eq!(collected, 3);
    assert_eq!(run(pending), Ok(()));
}

/// Owns a row, and counts the rows in the cache.
fn own(row: &str, seen: &mut usize) -> String {
    *seen += 1;
    format!("{}{}", row, seen)
}

#[test]
fn rows_are_owned_in_order_with_one_cache() {
    let rows: Vec<QueryResult<&str>> = vec![Ok("a"), Ok("b"), Ok("c")];
    let mut cursor = rows.into_iter();
    let owned = collect_rows(&mut cursor, own);
    assert_eq!(
        owned,
        Ok(vec![Ok(String::from("a1")), Ok(String::from("b2")), Ok(String::from("c3"))])
    );
    assert!(cursor.next().is_none());
}

#[test]
fn no_rows_are_no_error() {
    let rows: Vec<QueryResult<&str>> = vec![];
    assert_eq!(load_rows(Ok(rows.into_iter()), own), Ok(vec![]));
}

#[test]
fn first_row_that_fails_ends_it() {
    let rows: Vec<QueryResult<&str>> =
        vec![Ok("a"), Err(Error::NotFound), Err(Error::RollbackTransaction), Ok("d")];
    let mut cursor = rows.into_iter();
    let owned = collect_rows(&mut cursor, own);
    assert!(matches!(owned, Err(Error::NotFound)));
    // the rows behind it were not asked for
    assert!(matches!(cursor.next(), Some(Err(Error::RollbackTransaction))));
    assert!(matches!(cursor.next(), Some(Ok("d"))));
    assert!(cursor.next().is_none());
}

#[test]
fn rows_behind_the_first_that_fails_do_not_matter() {
    let short: Vec<QueryResult<&str>> = vec![Ok("a"), Err(Error::NotFound)];
    let long: Vec<QueryResult<&str>> = vec![Ok("a"), Err(Error::NotFound), Ok("b"), Ok("c")];
    assert!(matches!(load_rows(Ok(short.into_iter()), own), Err(Error::NotFound)));
    assert!(matches!(load_rows(Ok(long.into_iter()), own), Err(Error::NotFound)));
}

/// Yields the rows of a vector, and is wrong about how many there are.
struct Misleading {
    rows: std::vec::IntoIter<QueryResult<&'static str>>,
    hint: (usize, Option<usize>),
}

impl Iterator for Misleading {
    type Item = QueryResult<&'static str>;

    fn next(&mut self) -> Option<Self::Item> {
        self.rows.next()
    }

    fn size_hint(&self) -> (usize, Option<usize>) {
        self.hint
    }
}

#[test]
fn size_hint_does_not_matter() {
    for hint in [(0, None), (0, Some(1)), (7, Some(7)), (100, None)] {
        let rows: Vec<QueryResult<&'static str>> = vec![Ok("a"), Ok("b"), Ok("c")];
        let cursor = Misleading { rows: rows.into_iter(), hint };
        assert_eq!(
            load_rows(Ok(cursor), own),
            Ok(vec![Ok(String::from("a1")), Ok(String::from("b2")), Ok(String::from("c3"))])
        );
    }
}

#[test]
fn query_that_does_not_run_has_no_rows() {
    let cursor: QueryResult<std::vec::IntoIter<QueryResult<&str>>> = Err(Error::NotInTransaction);
    assert!(matches!(load_rows(cursor, own), Err(Error::NotInTransaction)));
}

#[test]
fn rows_are_loaded_through_the_wrapper() {
    let mut wrapper: SyncConnectionWrapper<Vec<&'static str>> =
        SyncConnectionWrapper::new(vec!["x", "y"]);
    let pending = wrapper.execute_with_prepared_query(
        |_: &mut Vec<&'static str>| (Ok(()), ()),
        || Ok(String::from("SELECT * FROM letters")),
        || Ok(true),
        |conn: &mut Vec<&'static str>, _: &CollectedQuery<()>| {
            load_rows(Ok(conn.iter().map(|row| Ok(*row))), own)
        },
    );
    assert_eq!(run(pending), Ok(vec![Ok(String::from("x1")), Ok(String::from("y2"))]));
}

#[test]
fn access_is_granted_by_what_was_found() {
    let clean: Option<LockResult<u8>> = Some(Ok(1));
    assert_eq!(grant(clean), Ok(1));
    let poisoned: Option<LockResult<u8>> = Some(Err(PoisonError::new(2)));
    assert_eq!(grant(poisoned), Err(ExclusiveAccessError::Poisoned));
    let shared: Option<LockResult<u8>> = None;
    assert_eq!(grant(shared), Err(ExclusiveAccessError::Shared));
}

#[test]
fn access_despite_poison_is_refused_only_where_shared() {
    let clean: Option<LockResult<u8>> = Some(Ok(1));
    assert_eq!(grant_despite_poison(clean), Ok(1));
    let poisoned: Option<LockResult<u8>> = Some(Err(PoisonError::new(2)));
    assert_eq!(grant_despite_poison(poisoned), Ok(2));
    let shared: Option<LockResult<u8>> = None;
    assert_eq!(grant_despite_poison(shared), Err(ExclusiveAccessError::Shared));
}
