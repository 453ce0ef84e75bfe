//! Runtimes that run blocking tasks without blocking the caller.
use futures_util::future::FutureObj;
use tokio::runtime::TryCurrentError;
use tokio::task::{JoinError, JoinHandle};
use vstd::future::FutureAdditionalSpecFns;
use vstd::prelude::*;

use crate::error::SpawnError;
use crate::pending::map_pending;
use crate::task::Task;

verus! {

/// Customizes how blocking tasks are spawned.
///
/// Three relations say what spawning a task on a runtime can lead to. Contracts speak
/// of them to say which runtime a task was spawned on. By default they leave
/// everything open; a runtime may say more.
///
/// A fourth one, `runs`, says where a task may be called. The runtime may rely on it,
/// and the code that spawns a task cannot: what it may call under `runs` alone, it has
/// to leave to the runtime.
pub trait SpawnBlocking: Sized {
    /// The code at hand runs inside of a task of the runtime.
    open spec fn runs() -> bool {
        true
    }

    /// `result` is a value that `runtime` hands back of a task.
    open spec fn delivers<R>(runtime: Self, result: R) -> bool {
        true
    }

    /// `failure` is a reason that `runtime` can give for a task without a result.
    open spec fn refuses(runtime: Self, failure: SpawnError) -> bool {
        true
    }

    /// `after` is what spawning one task makes of the runtime `before`.
    open spec fn steps(before: Self, after: Self) -> bool {
        true
    }

    /// Runs `task` without blocking the caller. The future resolves to what the
    /// task returned, or to the reason why there is no result.
    fn spawn_blocking<'a, R, F>(&mut self, task: F) -> (pending: FutureObj<
        'a,
        Result<R, SpawnError>,
    >) where R: Send + 'static, F: FnOnce() -> R + Send + 'static
        requires
            Self::runs() ==> call_requires(task, ()),
        ensures
            pending.awaited() ==> match pending@ {
                Ok(result) => call_ensures(task, (), result) && Self::delivers(*old(self), result),
                Err(failure) => Self::refuses(*old(self), failure),
            },
            Self::steps(*old(self), *final(self)),
    ;

    /// A new instance of the runtime.
    fn get_runtime() -> Self;
}

/// Runs `task` on `runtime`.
pub fn spawn<'a, S, R, T>(runtime: &mut S, task: T) -> (pending: FutureObj<
    'a,
    Result<R, SpawnError>,
>) where S: SpawnBlocking, R: Send + 'static, T: Task<(), R> + Send + 'static
    requires
        S::runs() ==> task.accepts(()),
    ensures
        pending.awaited() ==> match pending@ {
            Ok(result) => task.gives((), result) && S::delivers(*old(runtime), result),
            Err(failure) => S::refuses(*old(runtime), failure),
        },
        S::steps(*old(runtime), *final(runtime)),
{
    runtime.spawn_blocking(
        move || -> (result: R)
            requires
                S::runs(),
            ensures
                task.gives((), result)
            { task.run(()) },
    )
}

/// `tokio::runtime::Handle`. Opaque.
#[verifier::external_type_specification]
#[verifier::external_body]
pub struct ExHandle(tokio::runtime::Handle);

/// `tokio::runtime::Runtime`. Opaque.
#[verifier::external_type_specification]
#[verifier::external_body]
pub struct ExRuntime(tokio::runtime::Runtime);

/// `tokio::runtime::TryCurrentError`. Opaque.
#[verifier::external_type_specification]
#[verifier::external_body]
pub struct ExTryCurrentError(TryCurrentError);

/// `std::io::Error`. Opaque.
#[verifier::external_type_specification]
#[verifier::external_body]
pub struct ExIoError(std::io::Error);

/// `tokio::task::JoinError`. Opaque.
#[verifier::external_type_specification]
#[verifier::external_body]
pub struct ExJoinError(JoinError);

/// `tokio::task::JoinHandle`, the future of a spawned task. What it resolves to is
/// `view`, of `vstd::future`.
#[verifier::external_type_specification]
#[verifier::external_body]
#[verifier::reject_recursive_types(T)]
pub struct ExJoinHandle<T>(JoinHandle<T>);

/// Calls `tokio::runtime::Handle::spawn_blocking`. The contract claims that the
/// handle resolves to the result of `func`, where it resolves to a result. Whether
/// it does depends on the runtime, and on whether `func` panics; the call itself
/// panics where the system has no thread left.
#[verifier::external_body]
pub(crate) fn handle_spawn_blocking<F, R>(handle: &tokio::runtime::Handle, func: F) -> (joined: JoinHandle<R>)
    where
        F: FnOnce() -> R + Send + 'static,
        R: Send + 'static,
    requires
        call_requires(func, ()),
    ensures
        joined.awaited() ==> (joined@ matches Ok(result) ==> call_ensures(func, (), result)),
{
    handle.spawn_blocking(func)
}

/// Calls `tokio::runtime::Runtime::spawn_blocking`, of which the same is claimed
/// as of the method of that name of a handle.
#[verifier::external_body]
pub(crate) fn runtime_spawn_blocking<F, R>(runtime: &tokio::runtime::Runtime, func: F) -> (joined: JoinHandle<
    R,
>)
    where
        F: FnOnce() -> R + Send + 'static,
        R: Send + 'static,
    requires
        call_requires(func, ()),
    ensures
        joined.awaited() ==> (joined@ matches Ok(result) ==> call_ensures(func, (), result)),
{
    runtime.spawn_blocking(func)
}

/// `tokio::runtime::Handle::try_current`: a handle of the runtime that the caller
/// runs in, or an error where it runs in none. That depends on the caller's
/// thread, so there is no clause.
pub assume_specification[ tokio::runtime::Handle::try_current ]() -> (current: Result<
    tokio::runtime::Handle,
    TryCurrentError,
>)
;

/// Calls `build` of a `tokio::runtime::Builder` from `new_current_thread`. The
/// contract claims that this succeeds: only the driver for input and output can
/// fail to start, and the builder has it switched off.
#[verifier::external_body]
pub(crate) fn new_current_thread() -> (built: Result<tokio::runtime::Runtime, std::io::Error>)
    ensures
        built is Ok,
{
    tokio::runtime::Builder::new_current_thread().build()
}

/// The text of a `tokio::task::JoinError`: that the task was cancelled, or that it
/// panicked and with which message.
pub uninterp spec fn join_error_text(error: JoinError) -> Seq<char>;

/// Calls `to_string` on a `tokio::task::JoinError`. The contract claims that the
/// text depends on the error alone.
#[verifier::external_body]
fn join_error_message(error: &JoinError) -> (message: String)
    ensures
        message@ == join_error_text(*error),
{
    error.to_string()
}

/// A tokio runtime: the one that the caller runs in, or one of its own.
pub enum Tokio {
    Handle(tokio::runtime::Handle),
    Runtime(tokio::runtime::Runtime),
}

/// `outcome` is `joined` with the error in words.
pub open spec fn spawned<R>(joined: Result<R, JoinError>, outcome: Result<R, SpawnError>) -> bool {
    match joined {
        Ok(result) => outcome == Ok::<R, SpawnError>(result),
        Err(error) => {
            &&& outcome matches Err(failure)
            &&& failure.message@ == join_error_text(error)
        },
    }
}

/// Puts the error of a spawned task in words.
pub fn spawn_outcome<R>(joined: Result<R, JoinError>) -> (outcome: Result<R, SpawnError>)
    ensures
        spawned(joined, outcome),
{
    match joined {
        Ok(result) => Ok(result),
        Err(error) => Err(SpawnError { message: join_error_message(&error) }),
    }
}

impl Tokio {
    /// `joined` is what the runtime gave for `task`.
    pub closed spec fn joins<R, F>(self, task: F, joined: JoinHandle<R>) -> bool where
        R: Send + 'static,
        F: FnOnce() -> R + Send + 'static,
     {
        match self {
            Tokio::Handle(handle) => call_ensures(
                handle_spawn_blocking::<F, R>,
                (&handle, task),
                joined,
            ),
            Tokio::Runtime(runtime) => call_ensures(
                runtime_spawn_blocking::<F, R>,
                (&runtime, task),
                joined,
            ),
        }
    }

    /// `runtime` is the one that was newly built.
    pub closed spec fn built(runtime: tokio::runtime::Runtime) -> bool {
        call_ensures(
            new_current_thread,
            (),
            Ok::<tokio::runtime::Runtime, std::io::Error>(runtime),
        )
    }

    /// The runtime to use where `current` is the one that the caller runs in.
    pub open spec fn chosen(current: Result<tokio::runtime::Handle, TryCurrentError>, runtime: Tokio) -> bool {
        match current {
            Ok(handle) => runtime == Tokio::Handle(handle),
            Err(_) => runtime matches Tokio::Runtime(new) && Tokio::built(new),
        }
    }

    /// Runs `task` on the runtime, and puts the error that ended it in words.
    pub fn run_blocking<'a, R, F>(&self, task: F) -> (pending: FutureObj<
        'a,
        Result<R, SpawnError>,
    >) where R: Send + 'static, F: FnOnce() -> R + Send + 'static
        requires
            call_requires(task, ()),
        ensures
            pending.awaited() ==> exists|joined: JoinHandle<R>|
                {
                    &&& #[trigger] self.joins(task, joined)
                    &&& joined.awaited()
                    &&& spawned(joined@, pending@)
                },
    {
        let joined = match self {
            Tokio::Handle(handle) => handle_spawn_blocking(handle, task),
            Tokio::Runtime(runtime) => runtime_spawn_blocking(runtime, task),
        };
        assert(self.joins(task, joined));
        map_pending(joined, spawn_outcome)
    }

    /// The runtime that the caller runs in, or a new one where it runs in none.
    pub fn from_current(current: Result<tokio::runtime::Handle, TryCurrentError>) -> (runtime: Tokio)
        ensures
            Tokio::chosen(current, runtime),
    {
        match current {
            Ok(handle) => Tokio::Handle(handle),
            Err(_) => Tokio::Runtime(new_current_thread().unwrap()),
        }
    }
}

/// What the runtime gave for a task came of spawning it there.
pub(crate) proof fn joined_by_the_runtime<R: Send + 'static, F: FnOnce() -> R + Send + 'static>(
    runtime: Tokio,
    task: F,
    joined: JoinHandle<R>,
)
    requires
        runtime.joins(task, joined),
    ensures
        match runtime {
            Tokio::Handle(handle) => call_ensures(
                handle_spawn_blocking::<F, R>,
                (&handle, task),
                joined,
            ),
            Tokio::Runtime(own) => call_ensures(
                runtime_spawn_blocking::<F, R>,
                (&own, task),
                joined,
            ),
        },
{
}

/// A runtime that was newly built came of building one.
pub(crate) proof fn built_by_tokio(runtime: tokio::runtime::Runtime)
    requires
        Tokio::built(runtime),
    ensures
        call_ensures(
            new_current_thread,
            (),
            Ok::<tokio::runtime::Runtime, std::io::Error>(runtime),
        ),
{
}

impl SpawnBlocking for Tokio {
    /// The reason is the error of a task that tokio ran, in words.
    open spec fn refuses(runtime: Self, failure: SpawnError) -> bool {
        exists|error: JoinError| failure.message@ == #[trigger] join_error_text(error)
    }

    /// Spawning a task does not change the runtime's handle.
    open spec fn steps(before: Self, after: Self) -> bool {
        after == before
    }

    fn spawn_blocking<'a, R, F>(&mut self, task: F) -> (pending: FutureObj<
        'a,
        Result<R, SpawnError>,
    >) where R: Send + 'static, F: FnOnce() -> R + Send + 'static
        ensures
            pending.awaited() ==> exists|joined: JoinHandle<R>|
                {
                    &&& #[trigger] old(self).joins(task, joined)
                    &&& joined.awaited()
                    &&& spawned(joined@, pending@)
                },
            call_ensures(Tokio::run_blocking::<R, F>, (old(self), task), pending),
    {
        self.run_blocking(task)
    }

    fn get_runtime() -> (runtime: Tokio)
        ensures
            exists|current: Result<tokio::runtime::Handle, TryCurrentError>|
                {
                    &&& call_ensures(tokio::runtime::Handle::try_current, (), current)
                    &&& #[trigger] Tokio::chosen(current, runtime)
                },
    {
        Tokio::from_current(tokio::runtime::Handle::try_current())
    }
}

} // verus!
