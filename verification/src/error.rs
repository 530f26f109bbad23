//! The errors of the library.

use crate::backend::GraphicsBackend;
use vstd::prelude::*;

verus! {

/// Why an operation of the library failed.
#[derive(Clone, Copy, Debug, PartialEq, Eq)]
pub enum XrError {
    /// The runtime refused a call; its status code is handed on unchanged.
    OpenXrError(openxr::sys::Result),
    /// The runtime lacks the extension that the backend requires.
    UnavailableBackend(GraphicsBackend),
    /// The name of the application is longer than the runtime takes. The
    /// runtime was not asked for an instance.
    ApplicationNameTooLong,
    /// A value built for one backend was handed to an object bound to
    /// another.
    GraphicsBackendMismatch { expected: GraphicsBackend, actual: GraphicsBackend },
    /// The requested swapchain format has no native code under the backend.
    UnsupportedFormat(GraphicsBackend),
    /// A swapchain image was waited for or released out of turn. The runtime
    /// was not called.
    CallOrderInvalid,
}

/// Hands a runtime status on as the library's error.
pub fn runtime_error<T>(outcome: Result<T, openxr::sys::Result>) -> (r: Result<T, XrError>)
    ensures
        r == match outcome {
            Ok(v) => Ok::<T, XrError>(v),
            Err(status) => Err(XrError::OpenXrError(status)),
        },
{
    match outcome {
        Ok(v) => Ok(v),
        Err(status) => Err(XrError::OpenXrError(status)),
    }
}

} // verus!
