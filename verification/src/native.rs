//! The boundary to the `openxr` crate and to the locks of `std`: the types
//! that are carried through the library and the calls that are made into
//! the runtime. Nothing in this file is proved; each contract states what
//! the binding's source shows of a runtime that keeps to the OpenXR
//! specification.
//!
//! The binding's frame streams and swapchains are generic over a trait of
//! the binding, so each is held here once per backend, in a struct of its
//! own.

use crate::session::SwapchainCreateInfo;
use std::ops::DerefMut;
use std::sync::Mutex;
use std::sync::MutexGuard;
use std::sync::PoisonError;
use vstd::prelude::*;
use vstd::utf8::encode_utf8;

verus! {

/// `openxr::ExtensionSet`: one public `bool` per extension that the binding
/// knows, and the names of the others in `other`. The fields are read and
/// written by the library, so the type is declared with them.
#[verifier::external_type_specification]
pub struct ExExtensionSet(openxr::ExtensionSet);

/// `openxr::ApplicationInfo`: two names and two packed versions, all public.
/// The library fills them in, so the type is declared with its fields.
#[verifier::external_type_specification]
pub struct ExApplicationInfo<'a>(openxr::ApplicationInfo<'a>);

/// `openxr::sys::Result`, the runtime's status code.
#[verifier::external_type_specification]
#[verifier::external_body]
pub struct ExStatus(openxr::sys::Result);

/// `openxr::Entry`, the loaded runtime.
#[verifier::external_type_specification]
#[verifier::external_body]
pub struct ExEntry(openxr::Entry);

/// `openxr::Instance`, a created runtime instance.
#[verifier::external_type_specification]
#[verifier::external_body]
pub struct ExInstance(openxr::Instance);

/// `openxr::Session`, a session for the graphics API `G`.
#[verifier::external_type_specification]
#[verifier::external_body]
#[verifier::reject_recursive_types(G)]
pub struct ExSession<G>(openxr::Session<G>);

/// `openxr::Vulkan`, the marker of the Vulkan API.
#[verifier::external_type_specification]
#[verifier::external_body]
pub struct ExVulkan(openxr::Vulkan);

/// `openxr::OpenGL`, the marker of the OpenGL API.
#[verifier::external_type_specification]
#[verifier::external_body]
pub struct ExOpenGL(openxr::OpenGL);

/// `openxr::AnyGraphics`, the marker of a session whose API is not named.
#[verifier::external_type_specification]
#[verifier::external_body]
pub struct ExAnyGraphics(openxr::AnyGraphics);

/// `openxr::vulkan::SessionCreateInfo`, the handles a Vulkan session is
/// opened with.
#[verifier::external_type_specification]
#[verifier::external_body]
pub struct ExVulkanSessionCreateInfo(openxr::vulkan::SessionCreateInfo);

/// `openxr::opengl::SessionCreateInfo`, the handles an OpenGL session is
/// opened with.
#[verifier::external_type_specification]
#[verifier::external_body]
pub struct ExOpenGlSessionCreateInfo(openxr::opengl::SessionCreateInfo);

/// `openxr::FrameWaiter`, the pacing handle of a session.
#[verifier::external_type_specification]
#[verifier::external_body]
pub struct ExFrameWaiter(openxr::FrameWaiter);

/// `openxr::FrameState`: when the next frame will be shown, for how long,
/// and whether it is worth rendering.
#[verifier::external_type_specification]
#[verifier::external_body]
pub struct ExFrameState(openxr::FrameState);

/// `openxr::SystemId`.
#[verifier::external_type_specification]
#[verifier::external_body]
pub struct ExSystemId(openxr::SystemId);

/// `openxr::Time`.
#[verifier::external_type_specification]
#[verifier::external_body]
pub struct ExTime(openxr::Time);

/// `openxr::Duration`.
#[verifier::external_type_specification]
#[verifier::external_body]
pub struct ExDuration(openxr::Duration);

/// `openxr::EnvironmentBlendMode`.
#[verifier::external_type_specification]
#[verifier::external_body]
pub struct ExEnvironmentBlendMode(openxr::EnvironmentBlendMode);

/// `openxr::SwapchainCreateFlags`.
#[verifier::external_type_specification]
#[verifier::external_body]
pub struct ExSwapchainCreateFlags(openxr::SwapchainCreateFlags);

/// `openxr::SwapchainUsageFlags`.
#[verifier::external_type_specification]
#[verifier::external_body]
pub struct ExSwapchainUsageFlags(openxr::SwapchainUsageFlags);

/// `std::sync::Mutex`.
#[verifier::external_type_specification]
#[verifier::external_body]
#[verifier::reject_recursive_types(T)]
pub struct ExMutex<T: ?Sized>(Mutex<T>);

/// `std::sync::MutexGuard`: the lock is held for as long as the guard lives.
#[verifier::external_type_specification]
#[verifier::external_body]
#[verifier::reject_recursive_types(T)]
pub struct ExMutexGuard<'a, T: ?Sized + 'a>(MutexGuard<'a, T>);

/// `std::sync::PoisonError`: what a lock returns after a thread panicked
/// while it held the lock.
#[verifier::external_type_specification]
#[verifier::external_body]
#[verifier::reject_recursive_types(T)]
pub struct ExPoisonError<T>(PoisonError<T>);

/// An `openxr::FrameStream` for Vulkan. The field is public: the session is
/// opened by code that needs `unsafe`.
#[verifier::external_body]
pub struct VulkanFrameStream {
    pub inner: openxr::FrameStream<openxr::Vulkan>,
}

/// An `openxr::FrameStream` for OpenGL. The field is public: the session is
/// opened by code that needs `unsafe`.
#[verifier::external_body]
pub struct OpenGlFrameStream {
    pub inner: openxr::FrameStream<openxr::OpenGL>,
}

/// A composition layer as the runtime reads it, typed for Vulkan: a
/// reference to an `openxr::CompositionLayerBase`. The field is public:
/// layers are built by the code that renders.
#[verifier::external_body]
pub struct VulkanLayer<'a> {
    pub base: &'a openxr::CompositionLayerBase<'a, openxr::Vulkan>,
}

/// A composition layer as the runtime reads it, typed for OpenGL: a
/// reference to an `openxr::CompositionLayerBase`. The field is public:
/// layers are built by the code that renders.
#[verifier::external_body]
pub struct OpenGlLayer<'a> {
    pub base: &'a openxr::CompositionLayerBase<'a, openxr::OpenGL>,
}

/// An `openxr::Swapchain` for Vulkan.
#[verifier::external_body]
pub struct VulkanSwapchain {
    inner: openxr::Swapchain<openxr::Vulkan>,
}

/// An `openxr::Swapchain` for OpenGL.
#[verifier::external_body]
pub struct OpenGlSwapchain {
    inner: openxr::Swapchain<openxr::OpenGL>,
}

/// The binding's own record of whether an image of the swapchain was waited
/// for and not yet released (the private field `waited` of
/// `openxr::Swapchain`).
pub uninterp spec fn vulkan_swapchain_waited(swapchain: VulkanSwapchain) -> bool;

/// As [`vulkan_swapchain_waited`], for OpenGL.
pub uninterp spec fn opengl_swapchain_waited(swapchain: OpenGlSwapchain) -> bool;

/// The number of a status, as `openxr::sys::Result::into_raw` gives it.
/// OpenXR counts the failures below zero and the kinds of success from zero
/// up.
pub uninterp spec fn status_code(status: openxr::sys::Result) -> int;

/// `std::sync::Mutex::new`.
pub assume_specification<T>[ Mutex::<T>::new ](t: T) -> Mutex<T>
;

/// `std::sync::Mutex::lock`: blocks until the lock is free. What the mutex
/// holds by then is whatever its last holder left there. A thread that holds
/// the lock must not ask for it again; the library takes each lock for one
/// operation and asks for no other while it holds one.
pub assume_specification<'a, T: ?Sized>[ Mutex::<T>::lock ](m: &'a Mutex<T>) -> Result<
    MutexGuard<'a, T>,
    PoisonError<MutexGuard<'a, T>>,
>
;

/// `std::sync::PoisonError::into_inner`: the guard that the error holds.
pub assume_specification<T>[ PoisonError::<T>::into_inner ](e: PoisonError<T>) -> T
;

/// `DerefMut` of `std::sync::MutexGuard`: what the mutex holds.
pub assume_specification<'a, 'b, T: ?Sized>[ <MutexGuard<'a, T> as DerefMut>::deref_mut ](
    g: &'b mut MutexGuard<'a, T>,
) -> &'b mut T
;

/// `openxr::Entry::enumerate_extensions`. What the runtime offers is not
/// known before it is asked, so nothing is said of the result.
pub assume_specification[ openxr::Entry::enumerate_extensions ](
    entry: &openxr::Entry,
) -> openxr::Result<openxr::ExtensionSet>
;

/// `openxr::Entry::create_instance`. The binding asserts that both names are
/// shorter than 128 bytes; whether the runtime then creates the instance is
/// for the runtime to say.
pub assume_specification[ openxr::Entry::create_instance ](
    entry: &openxr::Entry,
    app_info: &openxr::ApplicationInfo,
    required_extensions: &openxr::ExtensionSet,
    layers: &[&str],
) -> openxr::Result<openxr::Instance>
    requires
        encode_utf8(app_info.application_name@).len() < 128,
        encode_utf8(app_info.engine_name@).len() < 128,
;

/// `openxr::FrameWaiter::wait`: blocks until the runtime wants the next
/// frame. When that is and what it answers is the runtime's to say.
pub assume_specification[ openxr::FrameWaiter::wait ](
    waiter: &mut openxr::FrameWaiter,
) -> openxr::Result<openxr::FrameState>
;

/// `Clone` of `openxr::Session`: a second handle to the same session.
pub assume_specification<G>[ <openxr::Session<G> as Clone>::clone ](
    session: &openxr::Session<G>,
) -> openxr::Session<G>
;

/// `openxr::Session::into_any_graphics`: the same session with its graphics
/// API no longer named in the type.
pub assume_specification<G>[ openxr::Session::<G>::into_any_graphics ](
    session: openxr::Session<G>,
) -> openxr::Session<openxr::AnyGraphics>
;

/// `openxr::Session::<Vulkan>::enumerate_swapchain_formats`: the `VkFormat`
/// codes the runtime offers, in the runtime's order.
#[verifier::external_body]
pub(crate) fn vulkan_swapchain_formats(session: &openxr::Session<openxr::Vulkan>) -> Result<
    Vec<u32>,
    openxr::sys::Result,
> {
    session.enumerate_swapchain_formats()
}

/// `openxr::Session::<OpenGL>::enumerate_swapchain_formats`: the OpenGL
/// internal formats the runtime offers, in the runtime's order.
#[verifier::external_body]
pub(crate) fn opengl_swapchain_formats(session: &openxr::Session<openxr::OpenGL>) -> Result<
    Vec<u32>,
    openxr::sys::Result,
> {
    session.enumerate_swapchain_formats()
}

/// `openxr::Session::<Vulkan>::create_swapchain` with the fields of `info`
/// and the `VkFormat` code `format`. A swapchain that the binding has just
/// made has no image waited for.
#[verifier::external_body]
pub(crate) fn vulkan_create_swapchain(
    session: &openxr::Session<openxr::Vulkan>,
    info: &SwapchainCreateInfo,
    format: u32,
) -> (r: Result<VulkanSwapchain, openxr::sys::Result>)
    ensures
        r matches Ok(swapchain) ==> !vulkan_swapchain_waited(swapchain),
{
    let info = openxr::SwapchainCreateInfo {
        create_flags: info.create_flags,
        usage_flags: info.usage_flags,
        format,
        sample_count: info.sample_count,
        width: info.width,
        height: info.height,
        face_count: info.face_count,
        array_size: info.array_size,
        mip_count: info.mip_count,
    };
    session.create_swapchain(&info).map(|inner| VulkanSwapchain { inner })
}

/// `openxr::Session::<OpenGL>::create_swapchain` with the fields of `info`
/// and the OpenGL internal format `format`. A swapchain that the binding has
/// just made has no image waited for.
#[verifier::external_body]
pub(crate) fn opengl_create_swapchain(
    session: &openxr::Session<openxr::OpenGL>,
    info: &SwapchainCreateInfo,
    format: u32,
) -> (r: Result<OpenGlSwapchain, openxr::sys::Result>)
    ensures
        r matches Ok(swapchain) ==> !opengl_swapchain_waited(swapchain),
{
    let info = openxr::SwapchainCreateInfo {
        create_flags: info.create_flags,
        usage_flags: info.usage_flags,
        format,
        sample_count: info.sample_count,
        width: info.width,
        height: info.height,
        face_count: info.face_count,
        array_size: info.array_size,
        mip_count: info.mip_count,
    };
    session.create_swapchain(&info).map(|inner| OpenGlSwapchain { inner })
}

/// `openxr::FrameStream::<Vulkan>::begin`. The binding answers with an error
/// only where the runtime's status is a failure, one below zero; every kind
/// of success it answers with `Ok`.
#[verifier::external_body]
pub(crate) fn vulkan_begin_frame(stream: &mut VulkanFrameStream) -> (r: Result<
    (),
    openxr::sys::Result,
>)
    ensures
        r matches Err(status) ==> status_code(status) < 0,
{
    stream.inner.begin()
}

/// `openxr::FrameStream::<OpenGL>::begin`. The binding answers with an error
/// only where the runtime's status is a failure, one below zero; every kind
/// of success it answers with `Ok`.
#[verifier::external_body]
pub(crate) fn opengl_begin_frame(stream: &mut OpenGlFrameStream) -> (r: Result<
    (),
    openxr::sys::Result,
>)
    ensures
        r matches Err(status) ==> status_code(status) < 0,
{
    stream.inner.begin()
}

/// `openxr::FrameStream::<Vulkan>::end` with `layers`, in their order. The
/// binding asserts that their number fits in 32 bits.
#[verifier::external_body]
pub(crate) fn vulkan_end_frame(
    stream: &mut VulkanFrameStream,
    display_time: openxr::Time,
    environment_blend_mode: openxr::EnvironmentBlendMode,
    layers: &Vec<&VulkanLayer<'_>>,
) -> Result<(), openxr::sys::Result>
    requires
        layers.len() <= u32::MAX,
{
    let layers: Vec<_> = layers.iter().map(|layer| layer.base).collect();
    stream.inner.end(display_time, environment_blend_mode, &layers)
}

/// `openxr::FrameStream::<OpenGL>::end` with `layers`, in their order. The
/// binding asserts that their number fits in 32 bits.
#[verifier::external_body]
pub(crate) fn opengl_end_frame(
    stream: &mut OpenGlFrameStream,
    display_time: openxr::Time,
    environment_blend_mode: openxr::EnvironmentBlendMode,
    layers: &Vec<&OpenGlLayer<'_>>,
) -> Result<(), openxr::sys::Result>
    requires
        layers.len() <= u32::MAX,
{
    let layers: Vec<_> = layers.iter().map(|layer| layer.base).collect();
    stream.inner.end(display_time, environment_blend_mode, &layers)
}

/// `openxr::Swapchain::<Vulkan>::acquire_image`: the index of the image that
/// was reserved. The binding's record of waiting is not touched.
#[verifier::external_body]
pub(crate) fn vulkan_acquire_image(swapchain: &mut VulkanSwapchain) -> (r: Result<
    u32,
    openxr::sys::Result,
>)
    ensures
        vulkan_swapchain_waited(*final(swapchain)) == vulkan_swapchain_waited(*old(swapchain)),
    no_unwind
{
    swapchain.inner.acquire_image()
}

/// `openxr::Swapchain::<OpenGL>::acquire_image`: the index of the image that
/// was reserved. The binding's record of waiting is not touched.
#[verifier::external_body]
pub(crate) fn opengl_acquire_image(swapchain: &mut OpenGlSwapchain) -> (r: Result<
    u32,
    openxr::sys::Result,
>)
    ensures
        opengl_swapchain_waited(*final(swapchain)) == opengl_swapchain_waited(*old(swapchain)),
    no_unwind
{
    swapchain.inner.acquire_image()
}

/// `openxr::Swapchain::<Vulkan>::wait_image`. The binding asserts that no
/// image is waited for already; it records the wait when the runtime
/// succeeds and leaves its record alone when the runtime fails.
#[verifier::external_body]
pub(crate) fn vulkan_wait_image(swapchain: &mut VulkanSwapchain, timeout: openxr::Duration) -> (r:
    Result<(), openxr::sys::Result>)
    requires
        !vulkan_swapchain_waited(*old(swapchain)),
    ensures
        vulkan_swapchain_waited(*final(swapchain)) == r is Ok,
    no_unwind
{
    swapchain.inner.wait_image(timeout)
}

/// `openxr::Swapchain::<OpenGL>::wait_image`. The binding asserts that no
/// image is waited for already; it records the wait when the runtime
/// succeeds and leaves its record alone when the runtime fails.
#[verifier::external_body]
pub(crate) fn opengl_wait_image(swapchain: &mut OpenGlSwapchain, timeout: openxr::Duration) -> (r:
    Result<(), openxr::sys::Result>)
    requires
        !opengl_swapchain_waited(*old(swapchain)),
    ensures
        opengl_swapchain_waited(*final(swapchain)) == r is Ok,
    no_unwind
{
    swapchain.inner.wait_image(timeout)
}

/// `openxr::Swapchain::<Vulkan>::release_image`. The binding asserts that an
/// image is waited for; it clears its record when the runtime succeeds and
/// leaves it alone when the runtime fails.
#[verifier::external_body]
pub(crate) fn vulkan_release_image(swapchain: &mut VulkanSwapchain) -> (r: Result<
    (),
    openxr::sys::Result,
>)
    requires
        vulkan_swapchain_waited(*old(swapchain)),
    ensures
        vulkan_swapchain_waited(*final(swapchain)) == r is Err,
    no_unwind
{
    swapchain.inner.release_image()
}

/// `openxr::Swapchain::<OpenGL>::release_image`. The binding asserts that an
/// image is waited for; it clears its record when the runtime succeeds and
/// leaves it alone when the runtime fails.
#[verifier::external_body]
pub(crate) fn opengl_release_image(swapchain: &mut OpenGlSwapchain) -> (r: Result<
    (),
    openxr::sys::Result,
>)
    requires
        opengl_swapchain_waited(*old(swapchain)),
    ensures
        opengl_swapchain_waited(*final(swapchain)) == r is Err,
    no_unwind
{
    swapchain.inner.release_image()
}

/// `openxr::Swapchain::<Vulkan>::enumerate_images`: the `VkImage` handles of
/// the ring, in the runtime's order.
#[verifier::external_body]
pub(crate) fn vulkan_swapchain_images(swapchain: &VulkanSwapchain) -> Result<
    Vec<u64>,
    openxr::sys::Result,
> {
    swapchain.inner.enumerate_images()
}

/// `openxr::Swapchain::<OpenGL>::enumerate_images`: the texture names of the
/// ring, in the runtime's order.
#[verifier::external_body]
pub(crate) fn opengl_swapchain_images(swapchain: &OpenGlSwapchain) -> Result<
    Vec<u32>,
    openxr::sys::Result,
> {
    swapchain.inner.enumerate_images()
}

} // verus!
