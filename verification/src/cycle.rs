//! The order in which the images of a swapchain are acquired, waited for and
//! released.

use crate::error::XrError;
use vstd::prelude::*;

verus! {

/// Where a swapchain stands in its cycle.
pub struct CycleState {
    /// Images that were acquired and not yet released.
    pub pending: nat,
    /// Whether the oldest of them was waited for.
    pub waited: bool,
}

impl CycleState {
    /// A swapchain of which nothing was acquired yet.
    pub open spec fn start() -> CycleState {
        CycleState { pending: 0, waited: false }
    }

    /// The states that can be reached: an image that was waited for was
    /// acquired before.
    pub open spec fn valid(self) -> bool {
        self.waited ==> self.pending > 0
    }

    /// Whether an image may be waited for: one is acquired, none is waited
    /// for already.
    pub open spec fn may_wait(self) -> bool {
        self.pending > 0 && !self.waited
    }

    /// Whether an image may be released: it was waited for.
    pub open spec fn may_release(self) -> bool {
        self.waited
    }

    /// The state after one more image was acquired. The count stops at the
    /// largest number it can hold.
    pub open spec fn acquired(self) -> CycleState {
        CycleState {
            pending: if self.pending < u64::MAX {
                self.pending + 1
            } else {
                self.pending
            },
            waited: self.waited,
        }
    }

    /// The state after the oldest acquired image was waited for.
    pub open spec fn waited_for(self) -> CycleState {
        CycleState { pending: self.pending, waited: true }
    }

    /// The state after the image that was waited for was released.
    pub open spec fn released(self) -> CycleState {
        CycleState { pending: (self.pending - 1) as nat, waited: false }
    }

    /// What acquiring an image comes to, from this state: the image is
    /// counted where the runtime gave one, and nothing changes where the
    /// runtime failed.
    pub open spec fn acquire_outcome(self, after: CycleState, r: Result<u32, XrError>) -> bool {
        match r {
            Ok(_) => after == self.acquired(),
            Err(e) => e is OpenXrError && after == self,
        }
    }

    /// What waiting for an image comes to, from this state. Out of turn the
    /// call is refused and nothing changes. In turn the image counts as
    /// waited for where the runtime succeeded, and nothing changes where it
    /// failed.
    pub open spec fn wait_outcome(self, after: CycleState, r: Result<(), XrError>) -> bool {
        if self.may_wait() {
            match r {
                Ok(_) => after == self.waited_for(),
                Err(e) => e is OpenXrError && after == self,
            }
        } else {
            r == Err::<(), XrError>(XrError::CallOrderInvalid) && after == self
        }
    }

    /// What releasing an image comes to, from this state. Out of turn the
    /// call is refused and nothing changes. In turn the image is released
    /// where the runtime succeeded, and nothing changes where it failed.
    pub open spec fn release_outcome(self, after: CycleState, r: Result<(), XrError>) -> bool {
        if self.may_release() {
            match r {
                Ok(_) => after == self.released(),
                Err(e) => e is OpenXrError && after == self,
            }
        } else {
            r == Err::<(), XrError>(XrError::CallOrderInvalid) && after == self
        }
    }
}

/// The record that a swapchain keeps of its cycle.
pub struct SwapchainCycle {
    pending: u64,
    waited: bool,
}

impl View for SwapchainCycle {
    type V = CycleState;

    closed spec fn view(&self) -> CycleState {
        CycleState { pending: self.pending as nat, waited: self.waited }
    }
}

impl SwapchainCycle {
    #[verifier::type_invariant]
    spec fn reachable(&self) -> bool {
        self.waited ==> self.pending > 0
    }

    /// The record of a swapchain of which nothing was acquired yet.
    pub fn new() -> (r: SwapchainCycle)
        ensures
            r@ == CycleState::start(),
    {
        SwapchainCycle { pending: 0, waited: false }
    }

    /// How many images were acquired and not yet released.
    pub fn pending(&self) -> (r: u64)
        ensures
            r == self@.pending,
            self@.valid(),
    {
        proof {
            use_type_invariant(self);
        }
        self.pending
    }

    /// Whether an image was waited for and not yet released.
    pub fn is_waited(&self) -> (r: bool)
        ensures
            r == self@.waited,
    {
        self.waited
    }

    /// Whether an image may be waited for.
    pub fn may_wait(&self) -> (r: bool)
        ensures
            r == self@.may_wait(),
        no_unwind
    {
        self.pending > 0 && !self.waited
    }

    /// Whether an image may be released.
    pub fn may_release(&self) -> (r: bool)
        ensures
            r == self@.may_release(),
        no_unwind
    {
        self.waited
    }

    /// Records that an image was acquired.
    pub fn image_acquired(&mut self)
        ensures
            final(self)@ == old(self)@.acquired(),
        no_unwind
    {
        proof {
            use_type_invariant(&*self);
        }
        if self.pending < u64::MAX {
            self.pending = self.pending + 1;
        }
    }

    /// Records that the oldest acquired image was waited for. Out of turn,
    /// nothing is recorded and the call is refused.
    pub fn image_waited(&mut self) -> (r: Result<(), XrError>)
        ensures
            old(self)@.may_wait() ==> r == Ok::<(), XrError>(()) && final(self)@
                == old(self)@.waited_for(),
            !old(self)@.may_wait() ==> r == Err::<(), XrError>(XrError::CallOrderInvalid)
                && final(self)@ == old(self)@,
        no_unwind
    {
        if self.pending > 0 && !self.waited {
            self.waited = true;
            Ok(())
        } else {
            Err(XrError::CallOrderInvalid)
        }
    }

    /// Records that the image that was waited for was released. Out of turn,
    /// nothing is recorded and the call is refused.
    pub fn image_released(&mut self) -> (r: Result<(), XrError>)
        ensures
            old(self)@.may_release() ==> r == Ok::<(), XrError>(()) && final(self)@
                == old(self)@.released(),
            !old(self)@.may_release() ==> r == Err::<(), XrError>(XrError::CallOrderInvalid)
                && final(self)@ == old(self)@,
        no_unwind
    {
        proof {
            use_type_invariant(&*self);
        }
        if self.waited {
            self.waited = false;
            self.pending = self.pending - 1;
            Ok(())
        } else {
            Err(XrError::CallOrderInvalid)
        }
    }
    /// Takes the runtime's answer to a request for the next image. An index
    /// is handed on as it is and the image is counted; a failure is handed on
    /// with the runtime's status and nothing is counted.
    pub fn acquire_answered(&mut self, answer: Result<u32, openxr::sys::Result>) -> (r: Result<
        u32,
        XrError,
    >)
        ensures
            match answer {
                Ok(index) => r == Ok::<u32, XrError>(index) && final(self)@
                    == old(self)@.acquired(),
                Err(status) => r == Err::<u32, XrError>(XrError::OpenXrError(status))
                    && final(self)@ == old(self)@,
            },
        no_unwind
    {
        match answer {
            Ok(index) => {
                self.image_acquired();
                Ok(index)
            },
            Err(status) => Err(XrError::OpenXrError(status)),
        }
    }

    /// Takes the runtime's answer to a wait. In turn, success marks the
    /// oldest acquired image as waited for, and a failure is handed on with
    /// the runtime's status and marks nothing. Out of turn the answer is not
    /// looked at: the call is refused and nothing changes.
    pub fn wait_answered(&mut self, answer: Result<(), openxr::sys::Result>) -> (r: Result<
        (),
        XrError,
    >)
        ensures
            old(self)@.may_wait() ==> match answer {
                Ok(_) => r == Ok::<(), XrError>(()) && final(self)@ == old(self)@.waited_for(),
                Err(status) => r == Err::<(), XrError>(XrError::OpenXrError(status))
                    && final(self)@ == old(self)@,
            },
            !old(self)@.may_wait() ==> r == Err::<(), XrError>(XrError::CallOrderInvalid)
                && final(self)@ == old(self)@,
        no_unwind
    {
        if !self.may_wait() {
            return Err(XrError::CallOrderInvalid);
        }
        match answer {
            Ok(_) => self.image_waited(),
            Err(status) => Err(XrError::OpenXrError(status)),
        }
    }

    /// Takes the runtime's answer to a release. In turn, success counts the
    /// image that was waited for as released, and a failure is handed on
    /// with the runtime's status and changes nothing. Out of turn the answer
    /// is not looked at: the call is refused and nothing changes.
    pub fn release_answered(&mut self, answer: Result<(), openxr::sys::Result>) -> (r: Result<
        (),
        XrError,
    >)
        ensures
            old(self)@.may_release() ==> match answer {
                Ok(_) => r == Ok::<(), XrError>(()) && final(self)@ == old(self)@.released(),
                Err(status) => r == Err::<(), XrError>(XrError::OpenXrError(status))
                    && final(self)@ == old(self)@,
            },
            !old(self)@.may_release() ==> r == Err::<(), XrError>(XrError::CallOrderInvalid)
                && final(self)@ == old(self)@,
        no_unwind
    {
        if !self.may_release() {
            return Err(XrError::CallOrderInvalid);
        }
        match answer {
            Ok(_) => self.image_released(),
            Err(status) => Err(XrError::OpenXrError(status)),
        }
    }
}

/// Acquiring, waiting and releasing form a strict cycle. With nothing
/// acquired, neither waiting nor releasing is in turn; an acquired image may
/// be waited for, an image waited for may be released, and the release leaves
/// the swapchain ready for the next image and back where it started.
pub proof fn lemma_strict_cycle(s: CycleState)
    requires
        s.valid(),
    ensures
        s.pending == 0 ==> !s.may_wait() && !s.may_release(),
        s.may_release() ==> !s.may_wait(),
        s.acquired().valid(),
        s.may_wait() ==> s.waited_for().valid(),
        s.may_release() ==> s.released().valid() && !s.released().may_release(),
        !s.waited ==> s.acquired().may_wait(),
        s.may_wait() ==> s.waited_for().may_release(),
        !s.waited && s.pending < u64::MAX ==> s.acquired().waited_for().released() == s,
        !s.waited ==> s.acquired().waited_for().released().acquired().may_wait(),
{
}

} // verus!
