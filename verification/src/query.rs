//! Queries that can be moved to another thread.
use diesel::query_builder::CollectedQuery;
use diesel::QueryResult;
use vstd::prelude::*;

verus! {

/// `diesel::query_builder::CollectedQuery`: the text of a query, whether its
/// prepared statement may be kept, and the values to bind. Opaque.
#[verifier::external_type_specification]
#[verifier::external_body]
#[verifier::reject_recursive_types(T)]
pub struct ExCollectedQuery<T>(CollectedQuery<T>);

/// `diesel::query_builder::CollectedQuery::new`: a query of the three parts. The
/// parts of a query have no name here, so there is no clause: contracts say by
/// `call_ensures` of which parts a query was made.
pub assume_specification<T>[ CollectedQuery::<T>::new ](
    sql: String,
    safe_to_cache_prepared: bool,
    bind_data: T,
) -> (query: CollectedQuery<T>)
;

/// `query` was made of the three parts.
pub open spec fn made_of<MD>(
    query: CollectedQuery<MD>,
    sql: String,
    is_safe_to_cache_prepared: bool,
    bind_data: MD,
) -> bool {
    call_ensures(CollectedQuery::<MD>::new, (sql, is_safe_to_cache_prepared, bind_data), query)
}

/// Two queries were made of the same parts.
pub open spec fn same_parts<MD>(one: CollectedQuery<MD>, other: CollectedQuery<MD>) -> bool {
    exists|sql: String, is_safe_to_cache_prepared: bool, bind_data: MD|
        {
            &&& #[trigger] made_of(one, sql, is_safe_to_cache_prepared, bind_data)
            &&& made_of(other, sql, is_safe_to_cache_prepared, bind_data)
        }
}

/// `query` is what preparing a query ends in: the first of the three errors, or the
/// query made of the three parts.
pub open spec fn prepared<MD>(
    collected: QueryResult<()>,
    sql: QueryResult<String>,
    is_safe_to_cache_prepared: QueryResult<bool>,
    bind_data: MD,
    query: QueryResult<CollectedQuery<MD>>,
) -> bool {
    match (collected, sql, is_safe_to_cache_prepared) {
        (Err(error), _, _) => query == Err::<CollectedQuery<MD>, diesel::result::Error>(error),
        (Ok(_), Err(error), _) => query == Err::<CollectedQuery<MD>, diesel::result::Error>(error),
        (Ok(_), Ok(_), Err(error)) => query == Err::<CollectedQuery<MD>, diesel::result::Error>(
            error,
        ),
        (Ok(_), Ok(sql), Ok(is_safe)) => {
            &&& query matches Ok(query)
            &&& made_of(query, sql, is_safe, bind_data)
        },
    }
}

/// Prepares a query. `collected` says whether the values to bind could all be
/// collected.
pub fn prepare_query<MD>(
    collected: QueryResult<()>,
    sql: QueryResult<String>,
    is_safe_to_cache_prepared: QueryResult<bool>,
    bind_data: MD,
) -> (query: QueryResult<CollectedQuery<MD>>)
    ensures
        prepared(collected, sql, is_safe_to_cache_prepared, bind_data, query),
{
    collected?;
    Ok(CollectedQuery::new(sql?, is_safe_to_cache_prepared?, bind_data))
}

/// `callback` was run on `connection` with the query, and returned `result`; or the
/// query could not be prepared, and its error is the result.
pub open spec fn run_prepared<
    C,
    MD,
    R,
    F: FnOnce(&mut C, &CollectedQuery<MD>) -> QueryResult<R>,
>(
    connection: &mut C,
    query: QueryResult<CollectedQuery<MD>>,
    callback: F,
    result: QueryResult<R>,
) -> bool {
    match query {
        Ok(query) => call_ensures(callback, (connection, &query), result),
        Err(error) => result == Err::<R, diesel::result::Error>(error),
    }
}

} // verus!
