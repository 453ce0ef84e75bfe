//! Access to the connection without a task.
//!
//! As long as no task is pending, nothing else points to the connection, and it
//! can be reached without its lock.
use std::sync::{Arc, LockResult, Mutex, PoisonError};

use vstd::prelude::*;

use crate::lock::{arc_get_mut, mutex_get_mut};

verus! {

/// Why the connection cannot be reached without a task.
#[derive(Debug, Clone, Copy, PartialEq, Eq, Structural)]
pub enum ExclusiveAccessError {
    /// A task still shares the connection.
    Shared,
    /// A task panicked while it held the connection.
    Poisoned,
}

/// `found` is what looking for the only pointer to `mutex` gave: nothing where it
/// is not the only one, else the result of asking `mutex` for what it holds.
pub closed spec fn looked_up<C>(mutex: Mutex<C>, found: Option<LockResult<&mut C>>) -> bool {
    exists|shared: &mut Arc<Mutex<C>>, unique: Option<&mut Mutex<C>>|
        {
            &&& **shared == mutex
            &&& #[trigger] call_ensures(arc_get_mut::<Mutex<C>>, (shared,), unique)
            &&& match (unique, found) {
                (Some(_), Some(result)) => exists|held: &mut Mutex<C>|
                    *held == mutex && #[trigger] call_ensures(
                        mutex_get_mut::<C>,
                        (held,),
                        result,
                    ),
                (None, None) => true,
                _ => false,
            }
        }
}

/// What was found came of asking for the only pointer, and then the mutex.
pub(crate) proof fn found_behind_the_only_pointer<C>(
    mutex: Mutex<C>,
    found: Option<LockResult<&mut C>>,
)
    requires
        looked_up(mutex, found),
    ensures
        exists|pointer: &mut Arc<Mutex<C>>, unique: Option<&mut Mutex<C>>|
            {
                &&& **pointer == mutex
                &&& #[trigger] call_ensures(arc_get_mut::<Mutex<C>>, (pointer,), unique)
                &&& found is Some <==> unique is Some
            },
        found matches Some(result) ==> exists|held: &mut Mutex<C>|
            *held == mutex && #[trigger] call_ensures(mutex_get_mut::<C>, (held,), result),
{
}

/// Looks for the connection behind the only pointer to its mutex.
pub(crate) fn look_up<C>(shared: &mut Arc<Mutex<C>>) -> (found: Option<LockResult<&mut C>>)
    ensures
        looked_up(**old(shared), found),
        *final(shared) == *old(shared),
{
    match arc_get_mut(shared) {
        Some(mutex) => Some(mutex_get_mut(mutex)),
        None => None,
    }
}

/// What `found` gives to a caller who wants the connection only where no task
/// panicked while holding it.
pub open spec fn granted<T>(
    found: Option<LockResult<T>>,
    access: Result<T, ExclusiveAccessError>,
) -> bool {
    match found {
        Some(Ok(connection)) => access == Ok::<T, ExclusiveAccessError>(connection),
        Some(Err(_)) => access == Err::<T, ExclusiveAccessError>(ExclusiveAccessError::Poisoned),
        None => access == Err::<T, ExclusiveAccessError>(ExclusiveAccessError::Shared),
    }
}

/// Grants the connection where it is neither shared nor poisoned.
pub fn grant<T>(found: Option<LockResult<T>>) -> (access: Result<T, ExclusiveAccessError>)
    ensures
        granted(found, access),
{
    match found {
        Some(Ok(connection)) => Ok(connection),
        Some(Err(_)) => Err(ExclusiveAccessError::Poisoned),
        None => Err(ExclusiveAccessError::Shared),
    }
}

/// What `found` gives to a caller who wants the connection, poisoned or not.
pub open spec fn granted_despite_poison<T>(
    found: Option<LockResult<T>>,
    access: Result<T, ExclusiveAccessError>,
) -> bool {
    match found {
        Some(Ok(connection)) => access == Ok::<T, ExclusiveAccessError>(connection),
        Some(Err(poison)) => {
            &&& access matches Ok(connection)
            &&& call_ensures(PoisonError::<T>::into_inner, (poison,), connection)
        },
        None => access == Err::<T, ExclusiveAccessError>(ExclusiveAccessError::Shared),
    }
}

/// Grants the connection where it is not shared.
pub fn grant_despite_poison<T>(found: Option<LockResult<T>>) -> (access: Result<
    T,
    ExclusiveAccessError,
>)
    ensures
        granted_despite_poison(found, access),
{
    match found {
        Some(Ok(connection)) => Ok(connection),
        Some(Err(poison)) => Ok(poison.into_inner()),
        None => Err(ExclusiveAccessError::Shared),
    }
}

} // verus!
