//! A blocking database connection made usable from futures.
//!
//! [`SyncConnectionWrapper`] holds a connection behind a mutex and runs every
//! operation on it as a blocking task of a runtime, [`SpawnBlocking`]. What an
//! operation returns is handed to the caller through a future. This is useful
//!
//! * to use a blocking connection where the caller must not block
//! * to share one code base between backends that block and backends that do not
//!
//! By default the runtime is [`Tokio`].
//!
//! The contracts speak of a future through vstd's two functions on it:
//! `future.awaited()` says that it was awaited to its end, `future@` is what it
//! then resolved to. They speak of the values that other code computes, where
//! these are opaque here, by the call that returned them:
//! `call_ensures(f, arguments, result)` says that `result` is what a call of `f`
//! with `arguments` returned.
pub mod behaviour;
mod call;
pub mod connection;
pub mod error;
pub mod exclusive;
pub mod laws;
pub mod lock;
pub mod pending;
pub mod query;
pub mod rows;
pub mod runtime;
pub mod task;
pub mod transaction;

pub use connection::SyncConnectionWrapper;
pub use error::{DatabaseErrorKind, SpawnError};
pub use exclusive::ExclusiveAccessError;
pub use runtime::{SpawnBlocking, Tokio};
pub use transaction::SyncTransactionManagerWrapper;
