use std::future::Future;
use std::sync::atomic::AtomicUsize;
use std::sync::atomic::Ordering::SeqCst;
use std::sync::{mpsc, Arc, Mutex};

use diesel::result::{DatabaseErrorKind, Error};
use diesel::{ConnectionError, ConnectionResult, QueryResult};
use futures_util::future::FutureObj;
use sync_connection_wrapper::connection::settle;
use sync_connection_wrapper::error::from_spawn_blocking_error;
use sync_connection_wrapper::lock::recover;
use sync_connection_wrapper::{
    ExclusiveAccessError, SpawnBlocking, SpawnError, SyncConnectionWrapper,
    SyncTransactionManagerWrapper, Tokio,
};

/// A stand-in for a connection: it keeps what was done to it.
struct Log {
    entries: Vec<String>,
}

type Wrapper = SyncConnectionWrapper<Log>;

fn log() -> Log {
    Log { entries: vec![String::from("opened")] }
}

fn run<F: Future>(future: F) -> F::Output {
    tokio::runtime::Builder::new_current_thread().build().unwrap().block_on(future)
}

/// A runtime that runs no task.
struct Refusing;

impl SpawnBlocking for Refusing {
    fn spawn_blocking<'a, R, F>(&mut self, _task: F) -> FutureObj<'a, Result<R, SpawnError>>
    where
        R: Send + 'static,
        F: FnOnce() -> R + Send + 'static,
    {
        let refused: Result<R, SpawnError> = Err(SpawnError { message: String::from("refused") });
        FutureObj::new(Box::new(std::future::ready(refused)))
    }

    fn get_runtime() -> Self {
        Refusing
    }
}

/// A runtime that runs each task at once, and reports each one that it runs.
struct Reporting {
    report: mpsc::Sender<&'static str>,
    name: &'static str,
}

impl SpawnBlocking for Reporting {
    fn spawn_blocking<'a, R, F>(&mut self, task: F) -> FutureObj<'a, Result<R, SpawnError>>
    where
        R: Send + 'static,
        F: FnOnce() -> R + Send + 'static,
    {
        self.report.send(self.name).unwrap();
        let done: Result<R, SpawnError> = Ok(task());
        FutureObj::new(Box::new(std::future::ready(done)))
    }

    fn get_runtime() -> Self {
        panic!("no runtime but the given one")
    }
}

fn unable_to_send<T>(result: QueryResult<T>) -> String {
    match result {
        Err(Error::DatabaseError(DatabaseErrorKind::UnableToSendCommand, information)) => {
            String::from(information.message())
        }
        _ => panic!("not the error of a task that was not run"),
    }
}

#[test]
fn value_of_the_task_is_returned() {
    let mut wrapper = Wrapper::new(log());
    let result = run(wrapper.spawn_blocking(|conn: &mut Log| {
        conn.entries.push(String::from("first"));
        Ok(conn.entries.len())
    }));
    assert_eq!(result, Ok(2));
}

#[test]
fn error_of_the_task_is_returned() {
    let mut wrapper = Wrapper::new(log());
    let result: QueryResult<usize> = run(wrapper.spawn_blocking(|_: &mut Log| Err(Error::NotFound)));
    assert!(matches!(result, Err(Error::NotFound)));
}

#[test]
fn tasks_see_what_earlier_tasks_did() {
    let mut wrapper = Wrapper::new(log());
    for entry in ["a", "b", "c"] {
        let result = run(wrapper.spawn_blocking(move |conn: &mut Log| {
            conn.entries.push(String::from(entry));
            Ok(())
        }));
        assert_eq!(result, Ok(()));
    }
    let entries = run(wrapper.spawn_blocking(|conn: &mut Log| Ok(conn.entries.clone())));
    assert_eq!(
        entries,
        Ok(vec![String::from("opened"), String::from("a"), String::from("b"), String::from("c")])
    );
}

#[test]
fn panic_of_the_task_is_an_error() {
    let mut wrapper = Wrapper::new(log());
    let result: QueryResult<()> = run(wrapper.spawn_blocking(|_: &mut Log| panic!("boom")));
    let message = unable_to_send(result);
    assert!(message.starts_with("task "));
    assert!(message.ends_with(" panicked with message \"boom\""));
}

#[test]
fn connection_is_usable_after_a_panic() {
    let mut wrapper = Wrapper::new(log());
    let result: QueryResult<()> = run(wrapper.spawn_blocking(|conn: &mut Log| {
        conn.entries.push(String::from("before the panic"));
        panic!("boom")
    }));
    assert!(result.is_err());
    let entries = run(wrapper.spawn_blocking(|conn: &mut Log| Ok(conn.entries.clone())));
    assert_eq!(entries, Ok(vec![String::from("opened"), String::from("before the panic")]));
}

#[test]
fn recover_takes_the_guard_of_a_poisoned_mutex() {
    let mutex = Arc::new(Mutex::new(5));
    let poisoning = mutex.clone();
    let runtime = tokio::runtime::Builder::new_current_thread().build().unwrap();
    let joined: Result<(), tokio::task::JoinError> =
        runtime.block_on(runtime.spawn_blocking(move || {
            let _guard = poisoning.lock();
            panic!("boom")
        }));
    assert!(joined.is_err());
    assert!(mutex.is_poisoned());
    let guard = recover(&mutex, mutex.lock());
    assert_eq!(*guard, 5);
    drop(guard);
    assert!(!mutex.is_poisoned());
    assert_eq!(*recover(&mutex, mutex.lock()), 5);
}

#[test]
fn poison_is_cleared_by_the_next_task() {
    let mut wrapper = Wrapper::new(log());
    let result: QueryResult<()> = run(wrapper.spawn_blocking(|_: &mut Log| panic!("boom")));
    assert!(result.is_err());
    assert_eq!(wrapper.exclusive_connection().err(), Some(ExclusiveAccessError::Poisoned));
    assert_eq!(wrapper.connection_despite_poison().map(|conn| conn.entries.len()), Ok(1));
    assert_eq!(wrapper.exclusive_connection().err(), Some(ExclusiveAccessError::Poisoned));
    assert_eq!(run(wrapper.spawn_blocking(|_: &mut Log| Ok(7))), Ok(7));
    assert_eq!(wrapper.exclusive_connection().map(|conn| conn.entries.len()), Ok(1));
}

#[test]
fn poison_is_cleared_by_collecting_binds() {
    let mut wrapper = Wrapper::new(log());
    let result: QueryResult<()> = run(wrapper.spawn_blocking(|_: &mut Log| panic!("boom")));
    assert!(result.is_err());
    let pending = wrapper.execute_with_prepared_query(
        |conn: &mut Log| (Ok(()), conn.entries.len()),
        || Ok(String::from("SELECT 1")),
        || Ok(true),
        |conn: &mut Log, _query: &diesel::query_builder::CollectedQuery<usize>| {
            Ok(conn.entries.len())
        },
    );
    assert_eq!(run(pending), Ok(1));
    assert!(wrapper.exclusive_connection().is_ok());
}

#[test]
fn connection_is_shared_while_a_task_is_pending() {
    let mut wrapper = Wrapper::new(log());
    let (release, released) = mpsc::channel::<()>();
    let pending = wrapper.spawn_blocking(move |conn: &mut Log| {
        released.recv().unwrap();
        Ok(conn.entries.len())
    });
    assert_eq!(wrapper.exclusive_connection().err(), Some(ExclusiveAccessError::Shared));
    assert_eq!(wrapper.connection_despite_poison().err(), Some(ExclusiveAccessError::Shared));
    release.send(()).unwrap();
    assert_eq!(run(pending), Ok(1));
    assert!(wrapper.exclusive_connection().is_ok());
    assert!(wrapper.connection_despite_poison().is_ok());
}

#[test]
fn exclusive_connection_is_the_wrapped_one() {
    let mut wrapper = Wrapper::new(log());
    match wrapper.exclusive_connection() {
        Ok(conn) => conn.entries.push(String::from("exclusive")),
        Err(_) => panic!("nothing shares the connection"),
    }
    match wrapper.connection_despite_poison() {
        Ok(conn) => conn.entries.push(String::from("despite poison")),
        Err(_) => panic!("nothing shares the connection"),
    }
    let last = run(wrapper.spawn_blocking(|conn: &mut Log| Ok(conn.entries.join(" "))));
    assert_eq!(last, Ok(String::from("opened exclusive despite poison")));
}

#[test]
fn batch_execute_hands_over_the_text() {
    let mut wrapper = Wrapper::new(log());
    let result = run(wrapper.batch_execute("CREATE TABLE a (b); -- \u{e4}", |conn: &mut Log, sql: &str| {
        conn.entries.push(String::from(sql));
        Ok(())
    }));
    assert_eq!(result, Ok(()));
    let last = run(wrapper.spawn_blocking(|conn: &mut Log| Ok(conn.entries[1].clone())));
    assert_eq!(last, Ok(String::from("CREATE TABLE a (b); -- \u{e4}")));
}

#[test]
fn spawn_blocking_spawns_at_once() {
    let (report, reports) = mpsc::channel();
    let mut wrapper = SyncConnectionWrapper::with_runtime(log(), Reporting { report, name: "given" });
    let pending = wrapper.spawn_blocking(|_: &mut Log| Ok(()));
    assert_eq!(reports.try_recv(), Ok("given"));
    assert_eq!(run(pending), Ok(()));
    assert!(reports.try_recv().is_err());
}

#[test]
fn batch_execute_does_nothing_before_it_is_awaited() {
    let mut wrapper = Wrapper::new(log());
    drop(wrapper.batch_execute("DROP TABLE a", |conn: &mut Log, sql: &str| {
        conn.entries.push(String::from(sql));
        Ok(())
    }));
    assert_eq!(wrapper.exclusive_connection().map(|conn| conn.entries.len()), Ok(1));
}

#[test]
fn transactions_do_nothing_before_they_are_awaited() {
    let mut wrapper = Wrapper::new(log());
    let write = |conn: &mut Log| {
        conn.entries.push(String::from("written"));
        Ok(())
    };
    drop(SyncTransactionManagerWrapper::<()>::begin_transaction(&mut wrapper, write));
    drop(SyncTransactionManagerWrapper::<()>::commit_transaction(&mut wrapper, write));
    drop(SyncTransactionManagerWrapper::<()>::rollback_transaction(&mut wrapper, write));
    assert_eq!(wrapper.exclusive_connection().map(|conn| conn.entries.len()), Ok(1));
}

#[test]
fn batch_execute_returns_the_error() {
    let mut wrapper = Wrapper::new(log());
    let result = run(wrapper.batch_execute("", |_: &mut Log, _: &str| Err(Error::RollbackTransaction)));
    assert!(matches!(result, Err(Error::RollbackTransaction)));
}

#[test]
fn runtime_that_refuses_is_an_error() {
    let mut wrapper: SyncConnectionWrapper<Log, Refusing> = SyncConnectionWrapper::new(log());
    let result = run(wrapper.spawn_blocking(|_: &mut Log| Ok(1)));
    assert_eq!(unable_to_send(result), "refused");
    let result = run(wrapper.batch_execute("", |_: &mut Log, _: &str| Ok(())));
    assert_eq!(unable_to_send(result), "refused");
}

#[test]
fn task_that_is_refused_is_never_run() {
    let mut wrapper = SyncConnectionWrapper::with_runtime(log(), Refusing);
    let write = |conn: &mut Log| {
        conn.entries.push(String::from("written"));
        Ok(())
    };
    assert!(run(wrapper.spawn_blocking(write)).is_err());
    assert!(run(wrapper.batch_execute("", move |conn: &mut Log, _: &str| write(conn))).is_err());
    let begun = SyncTransactionManagerWrapper::<()>::begin_transaction(&mut wrapper, write);
    assert_eq!(unable_to_send(run(begun)), "refused");
    let committed = SyncTransactionManagerWrapper::<()>::commit_transaction(&mut wrapper, write);
    assert_eq!(unable_to_send(run(committed)), "refused");
    let rolled_back = SyncTransactionManagerWrapper::<()>::rollback_transaction(&mut wrapper, write);
    assert_eq!(unable_to_send(run(rolled_back)), "refused");
    assert_eq!(wrapper.exclusive_connection().map(|conn| conn.entries.len()), Ok(1));

    let connected = Arc::new(AtomicUsize::new(0));
    let counter = connected.clone();
    let established: ConnectionResult<SyncConnectionWrapper<Log, Refusing>> =
        run(SyncConnectionWrapper::establish("memory", move |_: &str| {
            counter.fetch_add(1, SeqCst);
            Ok(log())
        }));
    assert!(established.is_err());
    assert_eq!(connected.load(SeqCst), 0);
}

#[test]
fn task_meets_the_connection_of_one_that_failed() {
    let mut wrapper = Wrapper::new(log());
    let failed: QueryResult<()> = run(wrapper.spawn_blocking(|conn: &mut Log| {
        conn.entries.push(String::from("before the error"));
        Err(Error::NotFound)
    }));
    assert!(matches!(failed, Err(Error::NotFound)));
    let entries = run(wrapper.spawn_blocking(|conn: &mut Log| Ok(conn.entries.join(", "))));
    assert_eq!(entries, Ok(String::from("opened, before the error")));
}

#[test]
fn transactions_meet_what_exclusive_access_wrote() {
    let mut wrapper = Wrapper::new(log());
    for turn in 2..5usize {
        match wrapper.exclusive_connection() {
            Ok(conn) => conn.entries.push(String::from("exclusive")),
            Err(_) => panic!("nothing shares the connection"),
        }
        let meet = move |conn: &mut Log| {
            if conn.entries.len() == turn { Ok(()) } else { Err(Error::NotFound) }
        };
        let pending = match turn {
            2 => SyncTransactionManagerWrapper::<()>::begin_transaction(&mut wrapper, meet),
            3 => SyncTransactionManagerWrapper::<()>::commit_transaction(&mut wrapper, meet),
            _ => SyncTransactionManagerWrapper::<()>::rollback_transaction(&mut wrapper, meet),
        };
        assert_eq!(run(pending), Ok(()));
    }
}

#[test]
fn rollback_meets_what_the_transaction_did() {
    let mut wrapper = Wrapper::new(log());
    let begun = SyncTransactionManagerWrapper::<()>::begin_transaction(&mut wrapper, |conn: &mut Log| {
        conn.entries.push(String::from("begin"));
        Ok(())
    });
    assert_eq!(run(begun), Ok(()));
    let written = run(wrapper.batch_execute("INSERT", |conn: &mut Log, sql: &str| {
        conn.entries.push(String::from(sql));
        Ok(())
    }));
    assert_eq!(written, Ok(()));
    let rolled_back =
        SyncTransactionManagerWrapper::<()>::rollback_transaction(&mut wrapper, |conn: &mut Log| {
            if conn.entries.join(" ") == "opened begin INSERT" {
                conn.entries.truncate(1);
                Ok(())
            } else {
                Err(Error::NotFound)
            }
        });
    assert_eq!(run(rolled_back), Ok(()));
    assert_eq!(wrapper.exclusive_connection().map(|conn| conn.entries.len()), Ok(1));
}

#[test]
fn with_runtime_uses_the_given_runtime() {
    let mut wrapper = SyncConnectionWrapper::with_runtime(log(), Refusing);
    let result = run(wrapper.spawn_blocking(|_: &mut Log| Ok(1)));
    assert_eq!(unable_to_send(result), "refused");
    let (report, reports) = mpsc::channel();
    let mut wrapper = SyncConnectionWrapper::with_runtime(log(), Reporting { report, name: "given" });
    assert!(reports.try_recv().is_err());
    assert_eq!(run(wrapper.spawn_blocking(|conn: &mut Log| Ok(conn.entries.len()))), Ok(1));
    assert_eq!(reports.try_recv(), Ok("given"));
    assert!(reports.try_recv().is_err());
    assert_eq!(run(wrapper.batch_execute("", |_: &mut Log, _: &str| Ok(()))), Ok(()));
    assert_eq!(reports.try_recv(), Ok("given"));
    assert!(reports.try_recv().is_err());
}

#[test]
fn settle_passes_the_result_on() {
    assert_eq!(settle(Ok(Ok(5))), Ok(5));
    assert!(matches!(settle::<u8>(Ok(Err(Error::NotInTransaction))), Err(Error::NotInTransaction)));
    let failure = SpawnError { message: String::from("no thread") };
    assert_eq!(unable_to_send(settle::<u8>(Err(failure))), "no thread");
}

#[test]
fn spawn_error_keeps_its_words() {
    let error = from_spawn_blocking_error(SpawnError { message: String::from("out of threads") });
    match error {
        Error::DatabaseError(kind, information) => {
            assert_eq!(kind, DatabaseErrorKind::UnableToSendCommand);
            assert_eq!(information.message(), "out of threads");
            assert_eq!(information.details(), None);
            assert_eq!(information.hint(), None);
        }
        _ => panic!("not a database error"),
    }
}

fn connect(url: &str) -> ConnectionResult<Log> {
    if url == "bad" {
        Err(ConnectionError::InvalidConnectionUrl(String::from(url)))
    } else {
        Ok(Log { entries: vec![String::from(url)] })
    }
}

#[test]
fn establish_connects_to_the_address() {
    let runtime = tokio::runtime::Builder::new_current_thread().build().unwrap();
    let mut wrapper = match runtime.block_on(Wrapper::establish("file:memory", connect)) {
        Ok(wrapper) => wrapper,
        Err(_) => panic!("not established"),
    };
    let first = wrapper.spawn_blocking(|conn: &mut Log| Ok(conn.entries[0].clone()));
    assert_eq!(runtime.block_on(first), Ok(String::from("file:memory")));
}

#[test]
fn establish_returns_the_error_of_connecting() {
    let error = run(Wrapper::establish("bad", connect)).err();
    assert_eq!(error, Some(ConnectionError::InvalidConnectionUrl(String::from("bad"))));
}

#[test]
fn establish_without_a_task_is_a_bad_connection() {
    let error = run(SyncConnectionWrapper::<Log, Refusing>::establish("file:memory", connect)).err();
    assert_eq!(error, Some(ConnectionError::BadConnection(String::from("refused"))));
}

#[test]
fn establish_with_a_panic_is_a_bad_connection() {
    fn panics(_url: &str) -> ConnectionResult<Log> {
        panic!("no such host")
    }
    match run(Wrapper::establish("file:memory", panics)).err() {
        Some(ConnectionError::BadConnection(message)) => {
            assert!(message.ends_with(" panicked with message \"no such host\""));
        }
        _ => panic!("not a bad connection"),
    }
}

/// A runtime whose instances are told apart by a number, and that runs each task at
/// once.
struct Numbered {
    number: usize,
}

static INSTANCES: AtomicUsize = AtomicUsize::new(0);
static TASKS_OF_THE_FIRST: AtomicUsize = AtomicUsize::new(0);

impl SpawnBlocking for Numbered {
    fn spawn_blocking<'a, R, F>(&mut self, task: F) -> FutureObj<'a, Result<R, SpawnError>>
    where
        R: Send + 'static,
        F: FnOnce() -> R + Send + 'static,
    {
        if self.number == 0 {
            TASKS_OF_THE_FIRST.fetch_add(1, SeqCst);
        }
        let done: Result<R, SpawnError> = Ok(task());
        FutureObj::new(Box::new(std::future::ready(done)))
    }

    fn get_runtime() -> Self {
        Numbered { number: INSTANCES.fetch_add(1, SeqCst) }
    }
}

#[test]
fn established_wrapper_keeps_its_runtime() {
    let established = run(SyncConnectionWrapper::<Log, Numbered>::establish("file:memory", connect));
    let mut wrapper = match established {
        Ok(wrapper) => wrapper,
        Err(_) => panic!("not established"),
    };
    assert_eq!(INSTANCES.load(SeqCst), 1);
    assert_eq!(TASKS_OF_THE_FIRST.load(SeqCst), 1);
    assert_eq!(run(wrapper.spawn_blocking(|_: &mut Log| Ok(()))), Ok(()));
    assert_eq!(INSTANCES.load(SeqCst), 1);
    assert_eq!(TASKS_OF_THE_FIRST.load(SeqCst), 2);
}

#[test]
fn runtime_that_has_ended_is_an_error() {
    let mut wrapper = match run(Wrapper::establish("file:memory", connect)) {
        Ok(wrapper) => wrapper,
        Err(_) => panic!("not established"),
    };
    let message = unable_to_send(run(wrapper.spawn_blocking(|_: &mut Log| Ok(()))));
    assert!(message.starts_with("task "));
    assert!(message.ends_with(" was cancelled"));
}

#[test]
fn establish_does_nothing_before_it_is_awaited() {
    let (tell, told) = mpsc::channel::<()>();
    let pending = Wrapper::establish("file:memory", move |url: &str| {
        tell.send(()).unwrap();
        connect(url)
    });
    drop(pending);
    assert!(told.recv().is_err());
}

#[test]
fn finish_establish_keeps_the_runtime() {
    let outcome: Result<ConnectionResult<Log>, SpawnError> = Ok(Ok(log()));
    let mut wrapper = match SyncConnectionWrapper::finish_establish(outcome, Refusing) {
        Ok(wrapper) => wrapper,
        Err(_) => panic!("not established"),
    };
    let result = run(wrapper.spawn_blocking(|_: &mut Log| Ok(1)));
    assert_eq!(unable_to_send(result), "refused");
}

#[test]
fn transactions_run_on_the_connection() {
    struct Manager;
    let mut wrapper = Wrapper::new(log());
    let begun = run(SyncTransactionManagerWrapper::<Manager>::begin_transaction(
        &mut wrapper,
        |conn: &mut Log| {
            conn.entries.push(String::from("BEGIN"));
            Ok(())
        },
    ));
    assert_eq!(begun, Ok(()));
    let committed = run(SyncTransactionManagerWrapper::<Manager>::commit_transaction(
        &mut wrapper,
        |conn: &mut Log| {
            conn.entries.push(String::from("COMMIT"));
            Err(Error::NotInTransaction)
        },
    ));
    assert!(matches!(committed, Err(Error::NotInTransaction)));
    let rolled_back = run(SyncTransactionManagerWrapper::<Manager>::rollback_transaction(
        &mut wrapper,
        |conn: &mut Log| {
            conn.entries.push(String::from("ROLLBACK"));
            Ok(())
        },
    ));
    assert_eq!(rolled_back, Ok(()));
    let entries = run(wrapper.spawn_blocking(|conn: &mut Log| Ok(conn.entries.join(" "))));
    assert_eq!(entries, Ok(String::from("opened BEGIN COMMIT ROLLBACK")));
}

#[test]
fn runtime_is_a_new_one_outside_of_any() {
    assert!(matches!(Tokio::get_runtime(), Tokio::Runtime(_)));
}

#[test]
fn runtime_is_the_current_one_inside() {
    let runtime = tokio::runtime::Builder::new_current_thread().build().unwrap();
    let guard = runtime.enter();
    let found = Tokio::get_runtime();
    match &found {
        Tokio::Handle(handle) => assert_eq!(handle.id(), runtime.handle().id()),
        Tokio::Runtime(_) => panic!("a new runtime inside another"),
    }
    drop(guard);
}

#[test]
fn handle_and_runtime_both_run_tasks() {
    let runtime = tokio::runtime::Builder::new_current_thread().build().unwrap();
    let mut on_handle = Tokio::Handle(runtime.handle().clone());
    assert!(matches!(run(on_handle.spawn_blocking(|| 40 + 2)), Ok(42)));
    let mut on_runtime = Tokio::Runtime(runtime);
    assert!(matches!(run(on_runtime.spawn_blocking(|| 40 + 3)), Ok(43)));
}

#[test]
fn failure_of_a_task_is_put_in_words() {
    let mut runtime = Tokio::get_runtime();
    let outcome: Result<u8, SpawnError> = run(runtime.spawn_blocking(|| panic!("out of ideas")));
    match outcome {
        Err(failure) => {
            assert!(failure.message.ends_with(" panicked with message \"out of ideas\""));
        }
        Ok(_) => panic!("a panic has no result"),
    }
}
