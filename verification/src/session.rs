//! The session and what is made from it.

use crate::backend::GraphicsBackend;
use crate::error::XrError;
use crate::native::opengl_create_swapchain;
use crate::native::opengl_swapchain_formats;
use crate::native::vulkan_create_swapchain;
use crate::native::vulkan_swapchain_formats;
use crate::swapchain::XrSwapchain;
use crate::wrap::GraphicsWrap;
use vstd::prelude::*;

verus! {

/// The handles of the graphics device that a session is opened with, tagged
/// with the backend they belong to.
pub struct XrSessionGraphicsInfo(
    pub GraphicsWrap<openxr::vulkan::SessionCreateInfo, openxr::opengl::SessionCreateInfo>,
);

impl XrSessionGraphicsInfo {
    /// The backend the handles belong to.
    pub open spec fn tag(&self) -> GraphicsBackend {
        self.0.tag()
    }

    /// The backend the handles belong to.
    pub fn backend(&self) -> (r: GraphicsBackend)
        ensures
            r == self.tag(),
    {
        self.0.backend()
    }
}

/// A texture format, as the native code it has under each backend. Where a
/// backend has no code for the format, the format cannot be used with it.
#[derive(Clone, Copy, Debug, PartialEq, Eq)]
pub struct SwapchainFormat {
    /// The `VkFormat` code.
    pub vulkan: Option<u32>,
    /// The OpenGL internal format.
    pub opengl: Option<u32>,
}

impl SwapchainFormat {
    /// The native code of the format under `backend`, if it has one.
    pub open spec fn code(&self, backend: GraphicsBackend) -> Option<u32> {
        match backend {
            GraphicsBackend::Vulkan => self.vulkan,
            GraphicsBackend::OpenGl => self.opengl,
        }
    }

    /// The native code of the format under `backend`, if it has one.
    pub fn code_for(&self, backend: GraphicsBackend) -> (r: Option<u32>)
        ensures
            r == self.code(backend),
    {
        match backend {
            GraphicsBackend::Vulkan => self.vulkan,
            GraphicsBackend::OpenGl => self.opengl,
        }
    }
}

/// What a swapchain is created with.
#[derive(Clone, Copy, Debug)]
pub struct SwapchainCreateInfo {
    pub create_flags: openxr::SwapchainCreateFlags,
    pub usage_flags: openxr::SwapchainUsageFlags,
    pub format: SwapchainFormat,
    pub sample_count: u32,
    pub width: u32,
    pub height: u32,
    pub face_count: u32,
    pub array_size: u32,
    pub mip_count: u32,
}

/// The formats that have an equivalent, in the order in which they were
/// offered. A format without one is left out; that is no error.
pub open spec fn supported_spec<T>(converted: Seq<Option<T>>) -> Seq<T> {
    converted.filter_map(|format: Option<T>| format)
}

/// Keeps, of the formats that the runtime offers, those that have an
/// equivalent: `converted` holds for each offered format its equivalent or
/// `None`.
pub fn supported_formats<T>(converted: Vec<Option<T>>) -> (r: Vec<T>)
    ensures
        r@ == supported_spec(converted@),
{
    let ghost all = converted@;
    let ghost keep = |format: Option<T>| format;
    let mut r: Vec<T> = Vec::new();
    let mut i: usize = 0;
    let n = converted.len();
    let mut slots = converted;
    assert(all.take(0).filter_map(keep) =~= Seq::<T>::empty());
    while i < n
        invariant
            i <= n,
            n == all.len(),
            slots@.len() == n,
            forall|j: int| i <= j < n ==> slots@[j] == all[j],
            keep == |format: Option<T>| format,
            r@ == all.take(i as int).filter_map(keep),
        decreases n - i,
    {
        proof {
            all.lemma_filter_map_take_succ(keep, i as int);
        }
        let mut slot: Option<T> = None;
        std::mem::swap(&mut slot, &mut slots[i]);
        match slot {
            Some(format) => {
                r.push(format);
            },
            None => {},
        }
        i += 1;
    }
    assert(all.take(n as int) =~= all);
    r
}

/// Takes the runtime's answer to the question which formats it offers: the
/// native codes as they came, under the tag of `backend`, or the runtime's
/// status as it is.
pub fn offered_formats(backend: GraphicsBackend, answer: Result<Vec<u32>, openxr::sys::Result>) -> (r:
    Result<GraphicsWrap<Vec<u32>, Vec<u32>>, XrError>)
    ensures
        match answer {
            Ok(formats) => r == Ok::<GraphicsWrap<Vec<u32>, Vec<u32>>, XrError>(
                match backend {
                    GraphicsBackend::Vulkan => GraphicsWrap::Vulkan(formats),
                    GraphicsBackend::OpenGl => GraphicsWrap::OpenGl(formats),
                },
            ),
            Err(status) => r == Err::<GraphicsWrap<Vec<u32>, Vec<u32>>, XrError>(
                XrError::OpenXrError(status),
            ),
        },
{
    match answer {
        Ok(formats) => Ok(
            match backend {
                GraphicsBackend::Vulkan => GraphicsWrap::Vulkan(formats),
                GraphicsBackend::OpenGl => GraphicsWrap::OpenGl(formats),
            },
        ),
        Err(status) => Err(XrError::OpenXrError(status)),
    }
}

/// A session of the runtime: the session as the backend it was opened for
/// knows it, under that backend's tag, and the same session with the backend
/// left out of its type.
pub struct XrSession {
    any: openxr::Session<openxr::AnyGraphics>,
    typed: GraphicsWrap<openxr::Session<openxr::Vulkan>, openxr::Session<openxr::OpenGL>>,
}

impl XrSession {
    /// The backend the session was opened for.
    pub closed spec fn tag(&self) -> GraphicsBackend {
        self.typed.tag()
    }

    /// The session under its backend's tag.
    pub closed spec fn specialized(&self) -> GraphicsWrap<
        openxr::Session<openxr::Vulkan>,
        openxr::Session<openxr::OpenGL>,
    > {
        self.typed
    }

    /// The session with the backend left out of its type.
    pub closed spec fn widened(&self) -> openxr::Session<openxr::AnyGraphics> {
        self.any
    }

    /// Takes a session that was opened for Vulkan.
    pub fn from_vulkan(session: openxr::Session<openxr::Vulkan>) -> (r: XrSession)
        ensures
            r.specialized() == GraphicsWrap::<
                openxr::Session<openxr::Vulkan>,
                openxr::Session<openxr::OpenGL>,
            >::Vulkan(session),
            r.tag() == GraphicsBackend::Vulkan,
    {
        let any = session.clone().into_any_graphics();
        XrSession { any, typed: GraphicsWrap::Vulkan(session) }
    }

    /// Takes a session that was opened for OpenGL.
    pub fn from_opengl(session: openxr::Session<openxr::OpenGL>) -> (r: XrSession)
        ensures
            r.specialized() == GraphicsWrap::<
                openxr::Session<openxr::Vulkan>,
                openxr::Session<openxr::OpenGL>,
            >::OpenGl(session),
            r.tag() == GraphicsBackend::OpenGl,
    {
        let any = session.clone().into_any_graphics();
        XrSession { any, typed: GraphicsWrap::OpenGl(session) }
    }

    /// Another handle to the same session.
    pub fn share(&self) -> (r: XrSession)
        ensures
            r.tag() == self.tag(),
    {
        let typed = match &self.typed {
            GraphicsWrap::Vulkan(session) => GraphicsWrap::Vulkan(session.clone()),
            GraphicsWrap::OpenGl(session) => GraphicsWrap::OpenGl(session.clone()),
        };
        XrSession { any: self.any.clone(), typed }
    }

    /// The backend the session was opened for.
    pub fn backend(&self) -> (r: GraphicsBackend)
        ensures
            r == self.tag(),
    {
        self.typed.backend()
    }

    /// The session with the backend left out of its type.
    pub fn any_graphics(&self) -> (r: &openxr::Session<openxr::AnyGraphics>)
        ensures
            *r == self.widened(),
    {
        &self.any
    }

    /// The native codes of the formats that the runtime offers for
    /// swapchains of this session, tagged with the session's backend.
    pub fn enumerate_swapchain_formats(&self) -> (r: Result<
        GraphicsWrap<Vec<u32>, Vec<u32>>,
        XrError,
    >)
        ensures
            match r {
                Ok(formats) => formats.tag() == self.tag(),
                Err(e) => e is OpenXrError,
            },
    {
        match &self.typed {
            GraphicsWrap::Vulkan(session) => {
                let answer = vulkan_swapchain_formats(session);
                offered_formats(GraphicsBackend::Vulkan, answer)
            },
            GraphicsWrap::OpenGl(session) => {
                let answer = opengl_swapchain_formats(session);
                offered_formats(GraphicsBackend::OpenGl, answer)
            },
        }
    }

    /// Creates a swapchain for the session, tagged with the session's
    /// backend. Where the format has no code under that backend, the runtime
    /// is not called.
    pub fn create_swapchain(&self, info: SwapchainCreateInfo) -> (r: Result<XrSwapchain, XrError>)
        ensures
            match r {
                Ok(swapchain) => info.format.code(self.tag()) is Some && swapchain.tag()
                    == self.tag(),
                Err(XrError::UnsupportedFormat(backend)) => {
                    &&& info.format.code(self.tag()) is None
                    &&& backend == self.tag()
                },
                Err(e) => info.format.code(self.tag()) is Some && e is OpenXrError,
            },
    {
        match &self.typed {
            GraphicsWrap::Vulkan(session) => {
                let format = match info.format.code_for(GraphicsBackend::Vulkan) {
                    Some(format) => format,
                    None => {
                        return Err(XrError::UnsupportedFormat(GraphicsBackend::Vulkan));
                    },
                };
                let answer = vulkan_create_swapchain(session, &info, format);
                XrSwapchain::vulkan_created(answer)
            },
            GraphicsWrap::OpenGl(session) => {
                let format = match info.format.code_for(GraphicsBackend::OpenGl) {
                    Some(format) => format,
                    None => {
                        return Err(XrError::UnsupportedFormat(GraphicsBackend::OpenGl));
                    },
                };
                let answer = opengl_create_swapchain(session, &info, format);
                XrSwapchain::opengl_created(answer)
            },
        }
    }
}

} // verus!
