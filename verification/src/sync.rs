//! Taking the lock of a shared handle.

use std::sync::Mutex;
use std::sync::MutexGuard;
use vstd::prelude::*;

verus! {

/// Waits for the lock and takes it. A lock that was left behind by a thread
/// that panicked is taken all the same: what it guards is still whole.
///
/// A thread that holds the lock must not ask for it again. The locks of the
/// library are private to its handles, and each operation of a handle takes
/// one lock and asks for no other while it holds it.
pub(crate) fn take_lock<T>(mutex: &Mutex<T>) -> MutexGuard<'_, T> {
    match mutex.lock() {
        Ok(guard) => guard,
        Err(poisoned) => poisoned.into_inner(),
    }
}

} // verus!
