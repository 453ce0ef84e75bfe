//! Reading the rows that a query returns.
use diesel::QueryResult;
use vstd::prelude::*;
use vstd::std_specs::iter::IteratorSpec;

use crate::call::call_again_with_both;

verus! {

/// No row of `rows` is an error.
pub open spec fn all_read<Row>(rows: Seq<QueryResult<Row>>) -> bool {
    forall|i: int| 0 <= i < rows.len() ==> (#[trigger] rows[i]) is Ok
}

/// `k` is the position of the first row of `rows` that is an error.
pub open spec fn fails_at<Row>(rows: Seq<QueryResult<Row>>, k: int) -> bool {
    &&& 0 <= k < rows.len()
    &&& rows[k] is Err
    &&& all_read(rows.take(k))
}

/// `owned` is what `into_owned` made of `row`, with `cache` at hand.
pub open spec fn converted<Row, K, O, F: Fn(Row, &mut K) -> O>(
    into_owned: F,
    row: QueryResult<Row>,
    cache: &mut K,
    owned: QueryResult<O>,
) -> bool {
    match (row, owned) {
        (Ok(row), Ok(owned)) => call_ensures(into_owned, (row, cache), owned),
        _ => false,
    }
}

/// `owned` is what `into_owned` made of `rows`, one after the other with one cache: the
/// first conversion found a new cache, and each later one what the one before left.
/// `caches` are the references to the cache that the conversions were given, `left` is
/// what they left in it.
pub open spec fn converted_in_turn<Row, K: Default, O, F: Fn(Row, &mut K) -> O>(
    into_owned: F,
    rows: Seq<QueryResult<Row>>,
    caches: Seq<&mut K>,
    left: Seq<K>,
    owned: Seq<QueryResult<O>>,
) -> bool {
    &&& caches.len() == left.len() == owned.len() == rows.len()
    &&& caches.len() > 0 ==> call_ensures(K::default, (), *caches[0])
    &&& forall|i: int| 1 <= i < caches.len() ==> *(#[trigger] caches[i]) == left[i - 1]
    &&& forall|i: int|
        #![trigger owned[i]]
        0 <= i < owned.len() ==> converted(into_owned, rows[i], caches[i], owned[i])
}

/// Reads the rows of `cursor` and makes each of them its own owner with
/// `into_owned`. All rows share one cache, which starts as the default of its
/// type.
///
/// The first row that is an error ends it: the error is returned, and no later row
/// is asked for. The cursor is one that ends.
pub fn collect_rows<Row, O, K, I, F>(cursor: &mut I, into_owned: F) -> (collected: QueryResult<
    Vec<QueryResult<O>>,
>) where K: Default, I: Iterator<Item = QueryResult<Row>>, F: Fn(Row, &mut K) -> O
    requires
        <I as IteratorSpec>::obeys_prophetic_iter_laws(old(cursor)),
        <I as IteratorSpec>::decrease(old(cursor)) is Some,
        forall|row: Row, cache: &mut K| call_requires(into_owned, (row, cache)),
    ensures
        ({
            let rows = <I as IteratorSpec>::remaining(old(cursor));
            let rest = <I as IteratorSpec>::remaining(final(cursor));
            match collected {
                Ok(owned) => {
                    &&& all_read(rows)
                    &&& rest.len() == 0
                    &&& exists|caches: Seq<&mut K>, left: Seq<K>|
                        {
                            &&& #[trigger] converted_in_turn(into_owned, rows, caches, left, owned@)
                            &&& forall|i: int|
                                0 <= i < left.len() ==> #[trigger] left[i] == *final(caches[i])
                        }
                },
                Err(error) => exists|k: int|
                    {
                        &&& #[trigger] fails_at(rows, k)
                        &&& rows[k] == Err::<Row, diesel::result::Error>(error)
                        &&& rest == rows.skip(k + 1)
                    },
            }
        }),
{
    let ghost rows = <I as IteratorSpec>::remaining(cursor);
    let mut cache = K::default();
    let mut owned: Vec<QueryResult<O>> = Vec::new();
    let ghost caches: Seq<&mut K> = Seq::empty();
    let ghost left: Seq<K> = Seq::empty();
    loop
        invariant
            <I as IteratorSpec>::obeys_prophetic_iter_laws(cursor),
            <I as IteratorSpec>::decrease(cursor) is Some,
            forall|row: Row, cache: &mut K| call_requires(into_owned, (row, cache)),
            rows == <I as IteratorSpec>::remaining(old(cursor)),
            owned@.len() <= rows.len(),
            <I as IteratorSpec>::remaining(cursor) == rows.skip(owned@.len() as int),
            all_read(rows.take(owned@.len() as int)),
            converted_in_turn(into_owned, rows.take(owned@.len() as int), caches, left, owned@),
            forall|i: int| 0 <= i < left.len() ==> #[trigger] left[i] == *final(caches[i]),
            left.len() == 0 ==> call_ensures(K::default, (), cache),
            left.len() > 0 ==> left.last() == cache,
        decreases <I as IteratorSpec>::decrease(cursor)->0,
    {
        match cursor.next() {
            None => {
                assert(rows.take(owned@.len() as int) == rows);
                let collected: QueryResult<Vec<QueryResult<O>>> = Ok(owned);
                assert(converted_in_turn(into_owned, rows, caches, left, collected->Ok_0@));
                return collected;
            },
            Some(Err(error)) => {
                assert(fails_at(rows, owned@.len() as int));
                return Err(error);
            },
            Some(Ok(row)) => {
                let lent = &mut cache;
                proof {
                    caches = caches.push(lent);
                }
                owned.push(Ok(call_again_with_both(row, lent, &into_owned)));
                proof {
                    left = left.push(cache);
                }
            },
        }
    }
}

/// Reads the rows of a query, where `cursor` is what running the query gave. A
/// query that could not be run ends in its error.
pub fn load_rows<Row, O, K, I, F>(cursor: QueryResult<I>, into_owned: F) -> (collected: QueryResult<
    Vec<QueryResult<O>>,
>) where K: Default, I: Iterator<Item = QueryResult<Row>>, F: Fn(Row, &mut K) -> O
    requires
        cursor matches Ok(rows) ==> rows.obeys_prophetic_iter_laws() && rows.decrease() is Some,
        forall|row: Row, cache: &mut K| call_requires(into_owned, (row, cache)),
    ensures
        match (cursor, collected) {
            (Err(error), _) => collected == Err::<Vec<QueryResult<O>>, diesel::result::Error>(error),
            (Ok(cursor), Ok(owned)) => {
                &&& all_read(cursor.remaining())
                &&& exists|caches: Seq<&mut K>, left: Seq<K>|
                    {
                        &&& #[trigger] converted_in_turn(
                            into_owned,
                            cursor.remaining(),
                            caches,
                            left,
                            owned@,
                        )
                        &&& forall|i: int|
                            0 <= i < left.len() ==> #[trigger] left[i] == *final(caches[i])
                    }
            },
            (Ok(cursor), Err(error)) => exists|k: int|
                {
                    &&& #[trigger] fails_at(cursor.remaining(), k)
                    &&& cursor.remaining()[k] == Err::<Row, diesel::result::Error>(error)
                },
        },
{
    match cursor {
        Ok(mut cursor) => collect_rows(&mut cursor, into_owned),
        Err(error) => Err(error),
    }
}

} // verus!
