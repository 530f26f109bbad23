//! A created runtime instance, bound to one graphics backend.

use crate::app_info::AppInfo;
use crate::backend::GraphicsBackend;
use crate::error::XrError;
use crate::frame::XrFrameStream;
use crate::frame::XrFrameWaiter;
use crate::native::OpenGlFrameStream;
use crate::native::VulkanFrameStream;
use crate::session::XrSession;
use crate::session::XrSessionGraphicsInfo;
use crate::wrap::GraphicsWrap;
use vstd::prelude::*;

verus! {

/// The order to prepare a Vulkan device for the system `system_id`, in the
/// name of `app_info`.
pub struct VulkanInit<'a> {
    pub system_id: openxr::SystemId,
    pub app_info: &'a AppInfo,
}

/// The order to prepare an OpenGL context for the system `system_id`, in the
/// name of `app_info`.
pub struct OpenGlInit<'a> {
    pub system_id: openxr::SystemId,
    pub app_info: &'a AppInfo,
}

impl<'a> VulkanInit<'a> {
    /// Wraps what the preparation gave: the device state as it is, and the
    /// handles for the session under the tag of Vulkan. A failure is handed
    /// on as it is, whatever its type.
    pub fn finish<W, E>(
        self,
        outcome: Result<(W, openxr::vulkan::SessionCreateInfo), E>,
    ) -> (r: Result<(W, XrSessionGraphicsInfo), E>)
        ensures
            r == match outcome {
                Ok((device, info)) => Ok::<(W, XrSessionGraphicsInfo), E>(
                    (device, XrSessionGraphicsInfo(GraphicsWrap::Vulkan(info))),
                ),
                Err(e) => Err(e),
            },
    {
        match outcome {
            Ok((device, info)) => Ok((device, XrSessionGraphicsInfo(GraphicsWrap::Vulkan(info)))),
            Err(e) => Err(e),
        }
    }
}

impl<'a> OpenGlInit<'a> {
    /// Wraps what the preparation gave: the device state as it is, and the
    /// handles for the session under the tag of OpenGL. A failure is handed
    /// on as it is, whatever its type.
    pub fn finish<W, E>(
        self,
        outcome: Result<(W, openxr::opengl::SessionCreateInfo), E>,
    ) -> (r: Result<(W, XrSessionGraphicsInfo), E>)
        ensures
            r == match outcome {
                Ok((device, info)) => Ok::<(W, XrSessionGraphicsInfo), E>(
                    (device, XrSessionGraphicsInfo(GraphicsWrap::OpenGl(info))),
                ),
                Err(e) => Err(e),
            },
    {
        match outcome {
            Ok((device, info)) => Ok((device, XrSessionGraphicsInfo(GraphicsWrap::OpenGl(info)))),
            Err(e) => Err(e),
        }
    }
}

/// The order to open a Vulkan session with the handles `info`.
pub struct VulkanSessionRequest {
    pub system_id: openxr::SystemId,
    pub info: openxr::vulkan::SessionCreateInfo,
}

/// The order to open an OpenGL session with the handles `info`.
pub struct OpenGlSessionRequest {
    pub system_id: openxr::SystemId,
    pub info: openxr::opengl::SessionCreateInfo,
}

impl VulkanSessionRequest {
    /// Wraps what the runtime answered: the session, its pacing handle and
    /// its frame stream, session and stream under the tag of Vulkan; or the
    /// runtime's error.
    pub fn finish(
        self,
        outcome: Result<
            (openxr::Session<openxr::Vulkan>, openxr::FrameWaiter, VulkanFrameStream),
            openxr::sys::Result,
        >,
    ) -> (r: Result<(XrSession, XrFrameWaiter, XrFrameStream), XrError>)
        ensures
            match outcome {
                Ok((session, waiter, stream)) => {
                    &&& r matches Ok((s, w, f))
                    &&& s.specialized() == GraphicsWrap::<
                        openxr::Session<openxr::Vulkan>,
                        openxr::Session<openxr::OpenGL>,
                    >::Vulkan(session)
                    &&& s.tag() == GraphicsBackend::Vulkan
                    &&& w.0 == waiter
                    &&& f.tag() == GraphicsBackend::Vulkan
                },
                Err(status) => r matches Err(e) && e == XrError::OpenXrError(status),
            },
    {
        match outcome {
            Ok((session, waiter, stream)) => Ok(
                (
                    XrSession::from_vulkan(session),
                    XrFrameWaiter(waiter),
                    XrFrameStream::from_vulkan(stream),
                ),
            ),
            Err(status) => Err(XrError::OpenXrError(status)),
        }
    }
}

impl OpenGlSessionRequest {
    /// Wraps what the runtime answered: the session, its pacing handle and
    /// its frame stream, session and stream under the tag of OpenGL; or the
    /// runtime's error.
    pub fn finish(
        self,
        outcome: Result<
            (openxr::Session<openxr::OpenGL>, openxr::FrameWaiter, OpenGlFrameStream),
            openxr::sys::Result,
        >,
    ) -> (r: Result<(XrSession, XrFrameWaiter, XrFrameStream), XrError>)
        ensures
            match outcome {
                Ok((session, waiter, stream)) => {
                    &&& r matches Ok((s, w, f))
                    &&& s.specialized() == GraphicsWrap::<
                        openxr::Session<openxr::Vulkan>,
                        openxr::Session<openxr::OpenGL>,
                    >::OpenGl(session)
                    &&& s.tag() == GraphicsBackend::OpenGl
                    &&& w.0 == waiter
                    &&& f.tag() == GraphicsBackend::OpenGl
                },
                Err(status) => r matches Err(e) && e == XrError::OpenXrError(status),
            },
    {
        match outcome {
            Ok((session, waiter, stream)) => Ok(
                (
                    XrSession::from_opengl(session),
                    XrFrameWaiter(waiter),
                    XrFrameStream::from_opengl(stream),
                ),
            ),
            Err(status) => Err(XrError::OpenXrError(status)),
        }
    }
}

/// The order that follows from handles `info` for the system `system_id`:
/// to open a session of the backend that the handles belong to.
pub open spec fn session_request(
    system_id: openxr::SystemId,
    info: XrSessionGraphicsInfo,
) -> GraphicsWrap<VulkanSessionRequest, OpenGlSessionRequest> {
    match info.0 {
        GraphicsWrap::Vulkan(info) => GraphicsWrap::Vulkan(VulkanSessionRequest { system_id, info }),
        GraphicsWrap::OpenGl(info) => GraphicsWrap::OpenGl(OpenGlSessionRequest { system_id, info }),
    }
}

/// Decides whether a session may be opened with the handles `info` on an
/// instance that was created for `expected`.
///
/// The handles are trusted to be valid for the backend they are tagged with;
/// the tag is what can be checked, and it is checked before anything is
/// opened. Where the tags differ, both backends are named.
pub fn open_session(
    expected: GraphicsBackend,
    system_id: openxr::SystemId,
    info: XrSessionGraphicsInfo,
) -> (r: Result<GraphicsWrap<VulkanSessionRequest, OpenGlSessionRequest>, XrError>)
    ensures
        match r {
            Ok(request) => info.tag() == expected && request == session_request(system_id, info),
            Err(e) => info.tag() != expected && e == (XrError::GraphicsBackendMismatch {
                expected,
                actual: info.tag(),
            }),
        },
{
    match info.0.check_graphics(expected) {
        Ok(_) => {},
        Err(e) => {
            return Err(e);
        },
    }
    match info.0 {
        GraphicsWrap::Vulkan(info) => Ok(
            GraphicsWrap::Vulkan(VulkanSessionRequest { system_id, info }),
        ),
        GraphicsWrap::OpenGl(info) => Ok(
            GraphicsWrap::OpenGl(OpenGlSessionRequest { system_id, info }),
        ),
    }
}

/// A runtime instance together with the backend it was created for and the
/// application it was created by. Neither changes afterwards.
pub struct XrInstance(openxr::Instance, GraphicsBackend, AppInfo);

impl XrInstance {
    /// The runtime's instance.
    pub closed spec fn native(&self) -> openxr::Instance {
        self.0
    }

    /// The backend the instance was created for.
    pub closed spec fn graphics(&self) -> GraphicsBackend {
        self.1
    }

    /// The application the instance was created by.
    pub closed spec fn application(&self) -> AppInfo {
        self.2
    }

    /// Binds what the runtime answered to a request for an instance: the
    /// instance, tagged with `backend`, or the runtime's error.
    pub fn from_native(
        outcome: Result<openxr::Instance, openxr::sys::Result>,
        backend: GraphicsBackend,
        app_info: AppInfo,
    ) -> (r: Result<XrInstance, XrError>)
        ensures
            match outcome {
                Ok(instance) => r matches Ok(bound) && bound.native() == instance && bound.graphics()
                    == backend && bound.application() == app_info,
                Err(status) => r matches Err(e) && e == XrError::OpenXrError(status),
            },
    {
        match outcome {
            Ok(instance) => Ok(XrInstance(instance, backend, app_info)),
            Err(status) => Err(XrError::OpenXrError(status)),
        }
    }

    /// The runtime's instance.
    pub fn raw(&self) -> (r: &openxr::Instance)
        ensures
            *r == self.native(),
    {
        &self.0
    }

    /// Says which backend's device is to be prepared: the one the instance
    /// was created for. The preparation itself is the caller's; what it
    /// gives is wrapped by the order's `finish`, under the same backend.
    pub fn init_graphics(&self, system_id: openxr::SystemId) -> (r: GraphicsWrap<
        VulkanInit<'_>,
        OpenGlInit<'_>,
    >)
        ensures
            r.tag() == self.graphics(),
            match r {
                GraphicsWrap::Vulkan(order) => order.system_id == system_id && *order.app_info
                    == self.application(),
                GraphicsWrap::OpenGl(order) => order.system_id == system_id && *order.app_info
                    == self.application(),
            },
    {
        match self.1 {
            GraphicsBackend::Vulkan => GraphicsWrap::Vulkan(
                VulkanInit { system_id, app_info: &self.2 },
            ),
            GraphicsBackend::OpenGl => GraphicsWrap::OpenGl(
                OpenGlInit { system_id, app_info: &self.2 },
            ),
        }
    }

    /// Decides whether a session may be opened with the handles `info`.
    ///
    /// The handles must belong to the backend the instance was created for.
    /// Where they do not, both backends are named and nothing is to be
    /// opened. Where they do, the order to open the session is returned; the
    /// runtime's answer is wrapped by the order's `finish`.
    pub fn create_session(&self, system_id: openxr::SystemId, info: XrSessionGraphicsInfo) -> (r:
        Result<GraphicsWrap<VulkanSessionRequest, OpenGlSessionRequest>, XrError>)
        ensures
            match r {
                Ok(request) => info.tag() == self.graphics() && request == session_request(
                    system_id,
                    info,
                ),
                Err(e) => info.tag() != self.graphics() && e
                    == (XrError::GraphicsBackendMismatch {
                    expected: self.graphics(),
                    actual: info.tag(),
                }),
            },
    {
        open_session(self.1, system_id, info)
    }

    /// The backend the instance was created for.
    pub fn backend(&self) -> (r: GraphicsBackend)
        ensures
            r == self.graphics(),
    {
        self.1
    }

    /// The application the instance was created by.
    pub fn app_info(&self) -> (r: &AppInfo)
        ensures
            *r == self.application(),
    {
        &self.2
    }
}

} // verus!
