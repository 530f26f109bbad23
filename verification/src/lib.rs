//! Session, frame and swapchain lifecycle for an OpenXR runtime bound to one
//! of several graphics backends.
//!
//! Every object that depends on the backend is stored in a tagged container
//! ([`GraphicsWrap`]) and every operation dispatches on that tag. The rules of
//! the lifecycle (which backend may be used, which layers reach the
//! compositor, in which order swapchain images are acquired, waited for and
//! released) are stated as contracts and proved.
//!
//! The calls into the runtime go through the `openxr` crate; what is taken
//! on trust of it stands in [`native`]. Three steps need `unsafe` and are
//! left to the caller, each between two steps of the library: preparing the
//! graphics device, opening the session, and turning the images of a
//! swapchain into textures.

pub mod app_info;
pub mod backend;
pub mod cycle;
pub mod entry;
pub mod error;
pub mod extensions;
pub mod frame;
pub mod instance;
pub mod lemmas;
pub mod native;
pub mod session;
pub mod started;
pub mod swapchain;
mod sync;
pub mod wrap;

pub use app_info::AppInfo;
pub use app_info::Version;
pub use backend::GraphicsBackend;
pub use entry::XrEntry;
pub use error::XrError;
pub use extensions::XrExtensions;
pub use frame::XrFrameStream;
pub use frame::XrFrameWaiter;
pub use instance::XrInstance;
pub use session::XrSession;
pub use session::XrSessionGraphicsInfo;
pub use started::XrSessionStarted;
pub use swapchain::XrSwapchain;
pub use wrap::GraphicsWrap;
