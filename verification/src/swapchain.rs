//! The swapchain: a ring of images, each acquired, waited for and released in
//! turn.

use crate::backend::GraphicsBackend;
use crate::cycle::CycleState;
use crate::cycle::SwapchainCycle;
use crate::error::XrError;
use crate::native::opengl_acquire_image;
use crate::native::opengl_release_image;
use crate::native::opengl_swapchain_images;
use crate::native::opengl_swapchain_waited;
use crate::native::opengl_wait_image;
use crate::native::vulkan_acquire_image;
use crate::native::vulkan_release_image;
use crate::native::vulkan_swapchain_images;
use crate::native::vulkan_swapchain_waited;
use crate::native::vulkan_wait_image;
use crate::native::OpenGlSwapchain;
use crate::native::VulkanSwapchain;
use crate::sync::take_lock;
use crate::wrap::GraphicsWrap;
use std::ops::DerefMut;
use std::sync::Arc;
use std::sync::Mutex;
use vstd::prelude::*;

verus! {

/// Acquires an image of a Vulkan swapchain and records it.
fn vulkan_acquire(native: &mut VulkanSwapchain, cycle: &mut SwapchainCycle) -> (r: Result<
    u32,
    XrError,
>)
    ensures
        vulkan_swapchain_waited(*final(native)) == vulkan_swapchain_waited(*old(native)),
        old(cycle)@.acquire_outcome(final(cycle)@, r),
    no_unwind
{
    let answer = vulkan_acquire_image(native);
    cycle.acquire_answered(answer)
}

/// Waits for the oldest acquired image of a Vulkan swapchain and
/// records it, where that is in turn.
fn vulkan_wait(
    native: &mut VulkanSwapchain,
    cycle: &mut SwapchainCycle,
    timeout: openxr::Duration,
) -> (r: Result<(), XrError>)
    requires
        vulkan_swapchain_waited(*old(native)) == old(cycle)@.waited,
    ensures
        vulkan_swapchain_waited(*final(native)) == final(cycle)@.waited,
        old(cycle)@.wait_outcome(final(cycle)@, r),
    no_unwind
{
    if !cycle.may_wait() {
        return Err(XrError::CallOrderInvalid);
    }
    let answer = vulkan_wait_image(native, timeout);
    cycle.wait_answered(answer)
}

/// Releases the image of a Vulkan swapchain that was waited for and
/// records it, where that is in turn.
fn vulkan_release(native: &mut VulkanSwapchain, cycle: &mut SwapchainCycle) -> (r: Result<
    (),
    XrError,
>)
    requires
        vulkan_swapchain_waited(*old(native)) == old(cycle)@.waited,
    ensures
        vulkan_swapchain_waited(*final(native)) == final(cycle)@.waited,
        old(cycle)@.release_outcome(final(cycle)@, r),
    no_unwind
{
    if !cycle.may_release() {
        return Err(XrError::CallOrderInvalid);
    }
    let answer = vulkan_release_image(native);
    cycle.release_answered(answer)
}

/// A Vulkan swapchain of the binding together with the record of its
/// cycle: what a shared swapchain guards with its lock.
///
/// The binding panics when an image is waited for or released out of turn.
/// The record always agrees with the binding's own, so such a call is
/// refused before the binding sees it.
pub struct VulkanRing {
    native: VulkanSwapchain,
    cycle: SwapchainCycle,
}

impl VulkanRing {
    #[verifier::type_invariant]
    spec fn agrees(&self) -> bool {
        vulkan_swapchain_waited(self.native) == self.cycle@.waited
    }

    /// Where the swapchain stands in its cycle.
    pub closed spec fn state(&self) -> CycleState {
        self.cycle@
    }

    /// Takes a swapchain that the runtime has just made.
    pub(crate) fn new(native: VulkanSwapchain) -> (r: VulkanRing)
        requires
            !vulkan_swapchain_waited(native),
        ensures
            r.state() == CycleState::start(),
    {
        VulkanRing { native, cycle: SwapchainCycle::new() }
    }

    /// How many images were acquired and not yet released.
    pub fn pending_images(&self) -> (r: u64)
        ensures
            r == self.state().pending,
            self.state().valid(),
    {
        self.cycle.pending()
    }

    /// Reserves the next image of the ring and returns its index. Fails
    /// only where the runtime fails.
    pub fn acquire_image(&mut self) -> (r: Result<u32, XrError>)
        ensures
            old(self).state().acquire_outcome(final(self).state(), r),
    {
        proof {
            use_type_invariant(&*self);
        }
        vulkan_acquire(&mut self.native, &mut self.cycle)
    }

    /// Waits until the oldest acquired image can be drawn to, for `timeout`
    /// at most. Out of turn (nothing acquired, or an image waited for and
    /// not yet released) the runtime is not called.
    pub fn wait_image(&mut self, timeout: openxr::Duration) -> (r: Result<(), XrError>)
        ensures
            old(self).state().wait_outcome(final(self).state(), r),
    {
        proof {
            use_type_invariant(&*self);
        }
        vulkan_wait(&mut self.native, &mut self.cycle, timeout)
    }

    /// Hands the image that was waited for back to the runtime. Out of turn
    /// (no image waited for) the runtime is not called.
    pub fn release_image(&mut self) -> (r: Result<(), XrError>)
        ensures
            old(self).state().release_outcome(final(self).state(), r),
    {
        proof {
            use_type_invariant(&*self);
        }
        vulkan_release(&mut self.native, &mut self.cycle)
    }

    /// The native handles of the images of the ring, in the runtime's order.
    pub fn enumerate_images(&self) -> (r: Result<Vec<u64>, XrError>)
        ensures
            r matches Err(e) ==> e is OpenXrError,
    {
        // Which images the ring has is the runtime's to say. Its answer is
        // handed on as it is.
        let answer = vulkan_swapchain_images(&self.native);
        crate::error::runtime_error(answer)
    }
}

/// Acquires an image of a OpenGL swapchain and records it.
fn opengl_acquire(native: &mut OpenGlSwapchain, cycle: &mut SwapchainCycle) -> (r: Result<
    u32,
    XrError,
>)
    ensures
        opengl_swapchain_waited(*final(native)) == opengl_swapchain_waited(*old(native)),
        old(cycle)@.acquire_outcome(final(cycle)@, r),
    no_unwind
{
    let answer = opengl_acquire_image(native);
    cycle.acquire_answered(answer)
}

/// Waits for the oldest acquired image of a OpenGL swapchain and
/// records it, where that is in turn.
fn opengl_wait(
    native: &mut OpenGlSwapchain,
    cycle: &mut SwapchainCycle,
    timeout: openxr::Duration,
) -> (r: Result<(), XrError>)
    requires
        opengl_swapchain_waited(*old(native)) == old(cycle)@.waited,
    ensures
        opengl_swapchain_waited(*final(native)) == final(cycle)@.waited,
        old(cycle)@.wait_outcome(final(cycle)@, r),
    no_unwind
{
    if !cycle.may_wait() {
        return Err(XrError::CallOrderInvalid);
    }
    let answer = opengl_wait_image(native, timeout);
    cycle.wait_answered(answer)
}

/// Releases the image of a OpenGL swapchain that was waited for and
/// records it, where that is in turn.
fn opengl_release(native: &mut OpenGlSwapchain, cycle: &mut SwapchainCycle) -> (r: Result<
    (),
    XrError,
>)
    requires
        opengl_swapchain_waited(*old(native)) == old(cycle)@.waited,
    ensures
        opengl_swapchain_waited(*final(native)) == final(cycle)@.waited,
        old(cycle)@.release_outcome(final(cycle)@, r),
    no_unwind
{
    if !cycle.may_release() {
        return Err(XrError::CallOrderInvalid);
    }
    let answer = opengl_release_image(native);
    cycle.release_answered(answer)
}

/// A OpenGL swapchain of the binding together with the record of its
/// cycle: what a shared swapchain guards with its lock.
///
/// The binding panics when an image is waited for or released out of turn.
/// The record always agrees with the binding's own, so such a call is
/// refused before the binding sees it.
pub struct OpenGlRing {
    native: OpenGlSwapchain,
    cycle: SwapchainCycle,
}

impl OpenGlRing {
    #[verifier::type_invariant]
    spec fn agrees(&self) -> bool {
        opengl_swapchain_waited(self.native) == self.cycle@.waited
    }

    /// Where the swapchain stands in its cycle.
    pub closed spec fn state(&self) -> CycleState {
        self.cycle@
    }

    /// Takes a swapchain that the runtime has just made.
    pub(crate) fn new(native: OpenGlSwapchain) -> (r: OpenGlRing)
        requires
            !opengl_swapchain_waited(native),
        ensures
            r.state() == CycleState::start(),
    {
        OpenGlRing { native, cycle: SwapchainCycle::new() }
    }

    /// How many images were acquired and not yet released.
    pub fn pending_images(&self) -> (r: u64)
        ensures
            r == self.state().pending,
            self.state().valid(),
    {
        self.cycle.pending()
    }

    /// Reserves the next image of the ring and returns its index. Fails
    /// only where the runtime fails.
    pub fn acquire_image(&mut self) -> (r: Result<u32, XrError>)
        ensures
            old(self).state().acquire_outcome(final(self).state(), r),
    {
        proof {
            use_type_invariant(&*self);
        }
        opengl_acquire(&mut self.native, &mut self.cycle)
    }

    /// Waits until the oldest acquired image can be drawn to, for `timeout`
    /// at most. Out of turn (nothing acquired, or an image waited for and
    /// not yet released) the runtime is not called.
    pub fn wait_image(&mut self, timeout: openxr::Duration) -> (r: Result<(), XrError>)
        ensures
            old(self).state().wait_outcome(final(self).state(), r),
    {
        proof {
            use_type_invariant(&*self);
        }
        opengl_wait(&mut self.native, &mut self.cycle, timeout)
    }

    /// Hands the image that was waited for back to the runtime. Out of turn
    /// (no image waited for) the runtime is not called.
    pub fn release_image(&mut self) -> (r: Result<(), XrError>)
        ensures
            old(self).state().release_outcome(final(self).state(), r),
    {
        proof {
            use_type_invariant(&*self);
        }
        opengl_release(&mut self.native, &mut self.cycle)
    }

    /// The native handles of the images of the ring, in the runtime's order.
    pub fn enumerate_images(&self) -> (r: Result<Vec<u32>, XrError>)
        ensures
            r matches Err(e) ==> e is OpenXrError,
    {
        // Which images the ring has is the runtime's to say. Its answer is
        // handed on as it is.
        let answer = opengl_swapchain_images(&self.native);
        crate::error::runtime_error(answer)
    }
}

/// The textures of a ring, if every image of it could be turned into one;
/// else the error of the first image that could not.
pub open spec fn collected_spec<T, E>(converted: Seq<Result<T, E>>) -> Result<Seq<T>, E>
    decreases converted.len(),
{
    if converted.len() == 0 {
        Ok(Seq::empty())
    } else {
        match collected_spec(converted.drop_last()) {
            Err(e) => Err(e),
            Ok(textures) => match converted.last() {
                Ok(texture) => Ok(textures.push(texture)),
                Err(e) => Err(e),
            },
        }
    }
}

/// Gathers the textures that the images of a ring were turned into, in the
/// order of the ring. One image that could not be turned into a texture
/// fails the whole; the first such failure is the one reported, as it is.
pub fn collect_images<T, E>(converted: Vec<Result<T, E>>) -> (r: Result<Vec<T>, E>)
    ensures
        match r {
            Ok(textures) => collected_spec(converted@) == Ok::<Seq<T>, E>(textures@),
            Err(e) => collected_spec(converted@) == Err::<Seq<T>, E>(e),
        },
{
    let ghost all = converted@;
    let mut textures: Vec<T> = Vec::new();
    assert(all.take(0) =~= Seq::<Result<T, E>>::empty());
    for slot in iter: converted.into_iter()
        invariant
            all == converted@,
            iter.seq() == all,
            collected_spec(all.take(iter.index() as int)) == Ok::<Seq<T>, E>(textures@),
    {
        let ghost i = iter.index() as int;
        assert(all.take(i + 1).drop_last() =~= all.take(i));
        assert(all.take(i + 1).last() == all[i]);
        match slot {
            Ok(texture) => {
                textures.push(texture);
            },
            Err(e) => {
                proof {
                    assert(collected_spec(all.take(i + 1)) == Err::<Seq<T>, E>(e));
                    lemma_collect_fails(all, i + 1);
                }
                return Err(e);
            },
        }
    }
    assert(all.take(all.len() as int) =~= all);
    Ok(textures)
}

/// Once an image has failed, the images after it change nothing.
proof fn lemma_collect_fails<T, E>(converted: Seq<Result<T, E>>, k: int)
    requires
        0 <= k <= converted.len(),
        collected_spec(converted.take(k)) is Err,
    ensures
        collected_spec(converted) == collected_spec(converted.take(k)),
    decreases converted.len() - k,
{
    if k == converted.len() {
        assert(converted.take(k) =~= converted);
    } else {
        assert(converted.take(k + 1).drop_last() =~= converted.take(k));
        lemma_collect_fails(converted, k + 1);
    }
}

/// A swapchain that is shared: each handle is tagged with the backend of the
/// session that made the swapchain, and every operation holds the lock for
/// its own length only.
///
/// What an operation finds depends on what the other holders did before, so
/// the handle promises of each result only what holds in every state; what
/// happens in a given state is said by [`VulkanRing`] and [`OpenGlRing`].
pub struct XrSwapchain(GraphicsWrap<Arc<Mutex<VulkanRing>>, Arc<Mutex<OpenGlRing>>>);

impl XrSwapchain {
    /// The backend of the session that made the swapchain.
    pub closed spec fn tag(&self) -> GraphicsBackend {
        self.0.tag()
    }

    /// Takes a Vulkan swapchain that the runtime has just made.
    pub(crate) fn from_vulkan(native: VulkanSwapchain) -> (r: XrSwapchain)
        requires
            !vulkan_swapchain_waited(native),
        ensures
            r.tag() == GraphicsBackend::Vulkan,
    {
        XrSwapchain(GraphicsWrap::Vulkan(Arc::new(Mutex::new(VulkanRing::new(native)))))
    }

    /// Takes an OpenGL swapchain that the runtime has just made.
    pub(crate) fn from_opengl(native: OpenGlSwapchain) -> (r: XrSwapchain)
        requires
            !opengl_swapchain_waited(native),
        ensures
            r.tag() == GraphicsBackend::OpenGl,
    {
        XrSwapchain(GraphicsWrap::OpenGl(Arc::new(Mutex::new(OpenGlRing::new(native)))))
    }

    /// Takes the runtime's answer to a request for a Vulkan swapchain: the
    /// swapchain, shared and under the tag of Vulkan, or the runtime's
    /// status as it is.
    pub fn vulkan_created(answer: Result<VulkanSwapchain, openxr::sys::Result>) -> (r: Result<
        XrSwapchain,
        XrError,
    >)
        requires
            answer matches Ok(native) ==> !vulkan_swapchain_waited(native),
        ensures
            match answer {
                Ok(_) => r matches Ok(swapchain) && swapchain.tag() == GraphicsBackend::Vulkan,
                Err(status) => r matches Err(e) && e == XrError::OpenXrError(status),
            },
    {
        match answer {
            Ok(native) => Ok(XrSwapchain::from_vulkan(native)),
            Err(status) => Err(XrError::OpenXrError(status)),
        }
    }

    /// Takes the runtime's answer to a request for an OpenGL swapchain: the
    /// swapchain, shared and under the tag of OpenGL, or the runtime's
    /// status as it is.
    pub fn opengl_created(answer: Result<OpenGlSwapchain, openxr::sys::Result>) -> (r: Result<
        XrSwapchain,
        XrError,
    >)
        requires
            answer matches Ok(native) ==> !opengl_swapchain_waited(native),
        ensures
            match answer {
                Ok(_) => r matches Ok(swapchain) && swapchain.tag() == GraphicsBackend::OpenGl,
                Err(status) => r matches Err(e) && e == XrError::OpenXrError(status),
            },
    {
        match answer {
            Ok(native) => Ok(XrSwapchain::from_opengl(native)),
            Err(status) => Err(XrError::OpenXrError(status)),
        }
    }

    /// Another handle to the same swapchain.
    pub fn share(&self) -> (r: XrSwapchain)
        ensures
            r.tag() == self.tag(),
    {
        match &self.0 {
            GraphicsWrap::Vulkan(ring) => XrSwapchain(GraphicsWrap::Vulkan(ring.clone())),
            GraphicsWrap::OpenGl(ring) => XrSwapchain(GraphicsWrap::OpenGl(ring.clone())),
        }
    }

    /// The backend of the session that made the swapchain. The lock is not
    /// taken.
    pub fn backend(&self) -> (r: GraphicsBackend)
        ensures
            r == self.tag(),
    {
        self.0.backend()
    }

    /// Whether the swapchain belongs to `backend`. The lock is not taken.
    pub fn using_graphics(&self, backend: GraphicsBackend) -> (r: bool)
        ensures
            r == (self.tag() == backend),
    {
        self.0.using_graphics(backend)
    }

    /// Reserves the next image of the ring and returns its index. Fails
    /// only where the runtime fails.
    pub fn acquire_image(&self) -> (r: Result<u32, XrError>)
        ensures
            r matches Err(e) ==> e is OpenXrError,
    {
        match &self.0 {
            GraphicsWrap::Vulkan(ring) => {
                let mut guard = take_lock(ring);
                guard.deref_mut().acquire_image()
            },
            GraphicsWrap::OpenGl(ring) => {
                let mut guard = take_lock(ring);
                guard.deref_mut().acquire_image()
            },
        }
    }

    /// Waits until the oldest acquired image can be drawn to, for `timeout`
    /// at most. Out of turn the runtime is not called and the call is
    /// refused.
    pub fn wait_image(&self, timeout: openxr::Duration) -> (r: Result<(), XrError>)
        ensures
            r matches Err(e) ==> e is OpenXrError || e == XrError::CallOrderInvalid,
    {
        match &self.0 {
            GraphicsWrap::Vulkan(ring) => {
                let mut guard = take_lock(ring);
                guard.deref_mut().wait_image(timeout)
            },
            GraphicsWrap::OpenGl(ring) => {
                let mut guard = take_lock(ring);
                guard.deref_mut().wait_image(timeout)
            },
        }
    }

    /// Hands the image that was waited for back to the runtime. Out of turn
    /// the runtime is not called and the call is refused.
    pub fn release_image(&self) -> (r: Result<(), XrError>)
        ensures
            r matches Err(e) ==> e is OpenXrError || e == XrError::CallOrderInvalid,
    {
        match &self.0 {
            GraphicsWrap::Vulkan(ring) => {
                let mut guard = take_lock(ring);
                guard.deref_mut().release_image()
            },
            GraphicsWrap::OpenGl(ring) => {
                let mut guard = take_lock(ring);
                guard.deref_mut().release_image()
            },
        }
    }

    /// The native handles of the images of the ring, tagged with the
    /// swapchain's backend.
    pub fn enumerate_images(&self) -> (r: Result<GraphicsWrap<Vec<u64>, Vec<u32>>, XrError>)
        ensures
            match r {
                Ok(images) => images.tag() == self.tag(),
                Err(e) => e is OpenXrError,
            },
    {
        match &self.0 {
            GraphicsWrap::Vulkan(ring) => {
                let mut guard = take_lock(ring);
                match guard.deref_mut().enumerate_images() {
                    Ok(images) => Ok(GraphicsWrap::Vulkan(images)),
                    Err(e) => Err(e),
                }
            },
            GraphicsWrap::OpenGl(ring) => {
                let mut guard = take_lock(ring);
                match guard.deref_mut().enumerate_images() {
                    Ok(images) => Ok(GraphicsWrap::OpenGl(images)),
                    Err(e) => Err(e),
                }
            },
        }
    }
}

} // verus!
