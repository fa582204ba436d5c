//! Taking the locks that the tool's state is shared under.

use crate::error::{outcome, ErrorView, ToolError};
use std::sync::{LockResult, Mutex, MutexGuard};
use vstd::prelude::*;

verus! {

/// `std::sync::Mutex`, with whatever it guards.
#[verifier::external_type_specification]
#[verifier::external_body]
#[verifier::reject_recursive_types(T)]
pub struct ExMutex<T: ?Sized>(std::sync::Mutex<T>);

/// `std::sync::MutexGuard`, a lock that is held.
#[verifier::external_type_specification]
#[verifier::external_body]
#[verifier::reject_recursive_types(T)]
pub struct ExMutexGuard<'a, T: ?Sized + 'a>(std::sync::MutexGuard<'a, T>);

/// `std::sync::PoisonError`, what comes in place of a lock that is poisoned.
#[verifier::external_type_specification]
#[verifier::external_body]
#[verifier::reject_recursive_types(T)]
pub struct ExPoisonError<T>(std::sync::PoisonError<T>);

/// `Mutex::lock`: the lock, or an error where a thread panicked while it held it. Whether one
/// did is the machine's to say, so nothing is promised of which of the two comes; neither does
/// it come at all in a thread that holds the lock already.
pub assume_specification<T: ?Sized>[ Mutex::<T>::lock ](mutex: &Mutex<T>) -> LockResult<
    MutexGuard<'_, T>,
>;

/// A lock that was taken, or the error for one that is poisoned.
pub fn unless_poisoned<G>(guard: Option<G>) -> (held: Result<G, ToolError>)
    ensures
        outcome(held) == match guard {
            Some(guard) => Ok::<G, ErrorView>(guard),
            None => Err(ErrorView::ExecutionFailed("workflow state lock poisoned"@)),
        },
{
    match guard {
        Some(guard) => Ok(guard),
        None => Err(ToolError::execution_failed("workflow state lock poisoned".to_owned())),
    }
}

/// Takes the lock of a mutex: hands over what `Mutex::lock` gives for it, and where that is an
/// error, one of its own.
pub fn lock_mutex<T>(mutex: &Mutex<T>) -> (held: Result<MutexGuard<'_, T>, ToolError>)
    ensures
        exists|taken: LockResult<MutexGuard<'_, T>>| #[trigger]
            call_ensures(Mutex::<T>::lock, (mutex,), taken) && outcome(held) == match taken {
                Ok(guard) => Ok::<MutexGuard<'_, T>, ErrorView>(guard),
                Err(_) => Err(ErrorView::ExecutionFailed("workflow state lock poisoned"@)),
            },
{
    let taken = mutex.lock();
    match taken {
        Ok(guard) => unless_poisoned(Some(guard)),
        Err(_) => unless_poisoned(None),
    }
}

} // verus!
