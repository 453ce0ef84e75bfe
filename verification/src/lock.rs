//! The mutex that a connection is kept in.
//!
//! A panic in a task poisons the mutex. The connection stays usable: the next
//! task clears the mark and goes on with the connection as it is.
use std::sync::{Arc, LockResult, Mutex, MutexGuard, PoisonError};

use vstd::prelude::*;

use crate::task::{run_with, Task};

verus! {

/// `std::sync::Mutex`. Opaque: what it holds changes through shared references,
/// so no contract speaks of it. A mutex is the same one whatever it holds.
#[verifier::external_type_specification]
#[verifier::external_body]
#[verifier::reject_recursive_types(T)]
pub struct ExMutex<T: ?Sized>(std::sync::Mutex<T>);

/// `std::sync::MutexGuard`. Opaque.
#[verifier::external_type_specification]
#[verifier::external_body]
#[verifier::reject_recursive_types(T)]
pub struct ExMutexGuard<'a, T: ?Sized + 'a>(std::sync::MutexGuard<'a, T>);

/// `std::sync::PoisonError`. Opaque.
#[verifier::external_type_specification]
#[verifier::external_body]
#[verifier::reject_recursive_types(T)]
pub struct ExPoisonError<T>(std::sync::PoisonError<T>);

/// `std::sync::Mutex::new`: a new mutex, unlocked, that holds `t`. What a mutex
/// holds has no name here, so there is no clause: contracts say by `call_ensures`
/// that a mutex is the result of this call.
pub assume_specification<T>[ Mutex::<T>::new ](t: T) -> (mutex: Mutex<T>)
;

/// `std::sync::Mutex::lock`: blocks until the mutex is free, and returns the
/// guard, inside an error where the mutex is poisoned. Whether it is, and what
/// it holds, is up to the other threads, so there is no clause. A thread that
/// holds the guard must not call it again, which would block it for good, or panic.
pub assume_specification<'a, T: ?Sized>[ Mutex::<T>::lock ](mutex: &'a Mutex<T>) -> (result:
    LockResult<MutexGuard<'a, T>>)
;

/// `std::sync::Mutex::clear_poison`: takes the mark of poison from the mutex. It
/// returns nothing that a clause could speak of; contracts say by `call_ensures`
/// that it was called.
pub assume_specification<T: ?Sized>[ Mutex::<T>::clear_poison ](mutex: &Mutex<T>)
;

/// `std::sync::PoisonError::into_inner`: what the error carries, here a guard or a
/// reference. An error's content has no name here, so there is no clause.
pub assume_specification<T>[ PoisonError::<T>::into_inner ](error: PoisonError<T>) -> (inner: T)
;

/// Calls `std::sync::Arc::get_mut`. The contract claims that the result, where
/// there is one, is a reference to what `this` points to, and that `this` is
/// unchanged where there is none. Which of the two comes depends on how many
/// other pointers there are at that moment; no clause says so.
#[verifier::external_body]
pub(crate) fn arc_get_mut<T>(this: &mut Arc<T>) -> (unique: Option<&mut T>)
    ensures
        match unique {
            Some(value) => *value == **old(this) && **final(this) == *final(value),
            None => *final(this) == *old(this),
        },
{
    Arc::get_mut(this)
}

/// Calls `std::sync::Mutex::get_mut`: a reference to what the mutex holds, inside an
/// error where the mutex is poisoned. The contract claims that the mutex stays the one
/// it is, whatever is written through the reference. Whether it is poisoned depends on
/// what its users did, and what it holds has no name here; no clause speaks of either.
#[verifier::external_body]
pub(crate) fn mutex_get_mut<C>(mutex: &mut Mutex<C>) -> (result: LockResult<&mut C>)
    ensures
        *final(mutex) == *old(mutex),
{
    mutex.get_mut()
}

/// Calls `deref_mut` of `std::sync::MutexGuard`: a reference to what the locked
/// mutex holds. That is up to the threads that held the lock before, so there is
/// no clause.
#[verifier::external_body]
pub(crate) fn guard_mut<'a, 'b, C>(guard: &'a mut MutexGuard<'b, C>) -> (connection: &'a mut C) {
    &mut *guard
}

/// `guard` is the guard that `result`, of locking `mutex`, carries. Where `mutex`
/// was poisoned, its mark was cleared.
pub open spec fn recovered<'a, C>(
    mutex: Mutex<C>,
    result: LockResult<MutexGuard<'a, C>>,
    guard: MutexGuard<'a, C>,
) -> bool {
    match result {
        Ok(held) => guard == held,
        Err(poison) => {
            &&& call_ensures(PoisonError::<MutexGuard<'a, C>>::into_inner, (poison,), guard)
            &&& call_ensures(Mutex::<C>::clear_poison, (&mutex,), ())
        },
    }
}

/// Takes the guard out of the result of locking `mutex`, poisoned or not.
pub fn recover<'a, C>(mutex: &Mutex<C>, result: LockResult<MutexGuard<'a, C>>) -> (guard:
    MutexGuard<'a, C>)
    ensures
        recovered(*mutex, result, guard),
{
    match result {
        Ok(guard) => guard,
        Err(poison) => {
            // be resilient: the connection is still there
            mutex.clear_poison();
            poison.into_inner()
        },
    }
}

/// `connection` is the reference that the guard of a lock on `mutex` gave, where
/// `result` is the result of locking.
pub closed spec fn handed_out_by<'a, C>(
    mutex: Mutex<C>,
    result: LockResult<MutexGuard<'a, C>>,
    connection: &mut C,
) -> bool {
    &&& call_ensures(Mutex::<C>::lock, (&mutex,), result)
    &&& exists|guard: &mut MutexGuard<'a, C>|
        recovered(mutex, result, *guard) && #[trigger] call_ensures(
            guard_mut::<C>,
            (guard,),
            connection,
        )
}

/// `connection` is the reference that the guard of a lock on `mutex` gave, poisoned or
/// not.
pub open spec fn handed_out<C>(mutex: Mutex<C>, connection: &mut C) -> bool {
    exists|result: LockResult<MutexGuard<'_, C>>| #[trigger]
        handed_out_by(mutex, result, connection)
}

/// A reference from a poisoned mutex comes with the mark cleared.
pub proof fn handed_out_with_poison_cleared<'a, C>(
    mutex: Mutex<C>,
    result: LockResult<MutexGuard<'a, C>>,
    connection: &mut C,
)
    requires
        handed_out_by(mutex, result, connection),
        result is Err,
    ensures
        call_ensures(Mutex::<C>::clear_poison, (&mutex,), ()),
{
}

/// A reference that was handed out came through a guard of the lock.
pub(crate) proof fn handed_out_through_a_guard<'a, C>(
    mutex: Mutex<C>,
    result: LockResult<MutexGuard<'a, C>>,
    connection: &mut C,
)
    requires
        handed_out_by(mutex, result, connection),
    ensures
        call_ensures(Mutex::<C>::lock, (&mutex,), result),
        exists|guard: &mut MutexGuard<'a, C>|
            recovered(mutex, result, *guard) && #[trigger] call_ensures(
                guard_mut::<C>,
                (guard,),
                connection,
            ),
{
}

/// `task` was run on what `mutex` holds, under its lock, and returned `result`.
pub open spec fn ran<C, R, F: FnOnce(&mut C) -> R>(mutex: Mutex<C>, task: F, result: R) -> bool {
    exists|connection: &mut C|
        handed_out(mutex, connection) && #[trigger] call_ensures(task, (connection,), result)
}

/// `task` was run on what `mutex` holds, under its lock, and gave `result`.
pub open spec fn worked<C, R, T: for <'c>Task<&'c mut C, R>>(
    mutex: Mutex<C>,
    task: T,
    result: R,
) -> bool {
    exists|connection: &mut C|
        handed_out(mutex, connection) && #[trigger] task.gives(connection, result)
}

/// Runs `task` on what `mutex` holds, under its lock. A poisoned mutex is no
/// obstacle. The calling thread must not hold the lock already.
pub(crate) fn with_lock<C, R, T: for <'c>Task<&'c mut C, R>>(mutex: &Mutex<C>, task: T) -> (result:
    R)
    requires
        forall|connection: &mut C|
            handed_out(*mutex, connection) ==> #[trigger] task.accepts(connection),
    ensures
        worked(*mutex, task, result),
{
    let result = mutex.lock();
    let ghost locked = result;
    let mut guard = recover(mutex, result);
    let connection = guard_mut(&mut guard);
    assert(handed_out_by(*mutex, locked, connection));
    run_with(connection, task)
}

/// A task on the connection that a mutex holds.
#[verifier::reject_recursive_types(C)]
pub struct Locked<C, T> {
    pub mutex: Arc<Mutex<C>>,
    pub task: T,
}

impl<C, R, T> Task<(), R> for Locked<C, T> where T: for <'c>Task<&'c mut C, R> {
    open spec fn accepts(self, argument: ()) -> bool {
        forall|connection: &mut C|
            handed_out(*self.mutex, connection) ==> #[trigger] self.task.accepts(connection)
    }

    open spec fn gives(self, argument: (), result: R) -> bool {
        worked(*self.mutex, self.task, result)
    }

    /// Locking may panic.
    open spec fn steady(self, argument: ()) -> bool {
        false
    }

    fn run(self, argument: ()) -> (result: R) {
        with_lock(&self.mutex, self.task)
    }
}

} // verus!
