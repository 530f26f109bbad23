//! The flag that says whether the session was started.

use std::sync::atomic::AtomicBool;
use std::sync::atomic::Ordering;
use std::sync::Arc;
use vstd::prelude::*;

verus! {

/// A flag that every part of the program can read and set, from any thread.
/// Each handle made by [`XrSessionStarted::share`] speaks of the same flag,
/// so nothing is promised of what a read returns: another handle may have
/// set the flag in between.
pub struct XrSessionStarted(Arc<AtomicBool>);

impl XrSessionStarted {
    /// A flag of its own, not set.
    pub fn new() -> XrSessionStarted {
        XrSessionStarted(Arc::new(AtomicBool::new(false)))
    }

    /// Another handle to the same flag.
    pub fn share(&self) -> XrSessionStarted {
        XrSessionStarted(self.0.clone())
    }

    /// Sets the flag, in one step that every thread sees in the same order.
    pub fn set(&self, val: bool) {
        self.0.store(val, Ordering::SeqCst);
    }

    /// Reads the flag, in one step that every thread sees in the same order.
    pub fn get(&self) -> bool {
        self.0.load(Ordering::SeqCst)
    }
}

} // verus!
