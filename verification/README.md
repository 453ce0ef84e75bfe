# sync_connection_wrapper

A blocking database connection, made usable from futures.

`SyncConnectionWrapper<C, S>` keeps a connection `C` behind a mutex and runs each
operation on it as a blocking task of a runtime `S`, by default tokio's. The future
of an operation resolves to what the task returned, or to an error that says why the
runtime gave no result. A task that panics poisons the mutex; the next one clears
the mark and goes on with the connection.

## Layout

- `src/`: the library, verified with Verus
  - `connection`: the wrapper and its operations
  - `transaction`: the operations of a transaction
  - `lock`: the mutex, and how a poisoned one is recovered
  - `exclusive`: access to the connection while no task is pending
  - `query`: preparing a query that can be moved to another thread
  - `rows`: reading the rows of a query
  - `runtime`: the trait `SpawnBlocking`, and tokio's runtime
  - `pending`: futures
  - `error`: the errors that the library reports, as diesel's
  - `laws`: what holds of the library as a whole
- `app/`: the traits of connections that are used from futures, implemented for
  wrapped diesel connections
- `tests/`: tests of the library

## What is trusted

The contracts of the functions of std, tokio, futures-util and diesel that the
library calls. Each is declared where it is used, with what is claimed of it.
