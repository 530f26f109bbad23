//! The entry point: what the runtime offers, and the creation of an
//! instance for one backend.

use crate::app_info::AppInfo;
use crate::app_info::Version;
use crate::backend::GraphicsBackend;
use crate::error::XrError;
use crate::extensions::XrExtensions;
use crate::instance::XrInstance;
use vstd::prelude::*;
use vstd::string::is_ascii_spec_bytes;

verus! {

/// The engine that every instance is created in the name of.
pub const ENGINE_NAME: &'static str = "Bevy";

/// The version of that engine.
pub fn engine_version() -> (r: Version)
    ensures
        r == (Version { major: 0, minor: 13, patch: 0 }),
{
    Version::new(0, 13, 0)
}

/// The extensions to create an instance with: those that were asked for and
/// the one that `backend` requires. Refused when the runtime does not offer
/// the backend's extension.
pub fn instance_extensions(
    available: &XrExtensions,
    requested: XrExtensions,
    backend: GraphicsBackend,
) -> (r: Result<XrExtensions, XrError>)
    ensures
        match r {
            Ok(exts) => {
                &&& backend.available_in(available)
                &&& forall|b: GraphicsBackend|
                    #[trigger] exts.enables(b) == (requested.enables(b) || b == backend)
                &&& exts.backends() == requested.backends().insert(backend)
                &&& exts.same_device_extensions(&requested)
            },
            Err(e) => !backend.available_in(available) && e == XrError::UnavailableBackend(
                backend,
            ),
        },
{
    if !backend.is_available(available) {
        return Err(XrError::UnavailableBackend(backend));
    }
    let mut exts = requested;
    exts.require_backend(backend);
    Ok(exts)
}

/// The loaded runtime.
pub struct XrEntry(pub openxr::Entry);

impl XrEntry {
    /// Asks the runtime which extensions it offers.
    pub fn enumerate_extensions(&self) -> (r: Result<XrExtensions, XrError>)
        ensures
            r matches Err(e) ==> e is OpenXrError,
    {
        offered_extensions(self.0.enumerate_extensions())
    }

    /// The backends that the runtime supports: those whose extension is among
    /// the ones it offers.
    pub fn available_backends(&self) -> (r: Result<Vec<GraphicsBackend>, XrError>)
        ensures
            match r {
                Ok(backends) => exists|offered: XrExtensions|
                    backends@ == #[trigger] GraphicsBackend::available_spec(&offered),
                Err(e) => e is OpenXrError,
            },
    {
        match self.enumerate_extensions() {
            Ok(offered) => Ok(GraphicsBackend::available_backends(&offered)),
            Err(e) => Err(e),
        }
    }

    /// Creates an instance for `backend` with the extensions `exts` and the
    /// one that the backend requires.
    ///
    /// The runtime is asked what it offers. Where it does not offer the
    /// backend's extension, or the application's name is longer than it
    /// takes, no instance is asked for: [`instance_request`] says which
    /// error comes when. What the runtime is asked with is said by
    /// [`instance_request`] and [`native_app_info`], and what its answer
    /// comes to by [`XrInstance::from_native`].
    pub fn create_instance(
        &self,
        app_info: AppInfo,
        exts: XrExtensions,
        layers: &[&str],
        backend: GraphicsBackend,
    ) -> (r: Result<XrInstance, XrError>)
        ensures
            match r {
                Ok(instance) => {
                    &&& instance.graphics() == backend
                    &&& instance.application() == app_info
                    &&& app_info.name_fits()
                },
                Err(XrError::UnavailableBackend(b)) => b == backend,
                Err(XrError::ApplicationNameTooLong) => !app_info.name_fits(),
                Err(e) => e is OpenXrError,
            },
    {
        let available = match self.enumerate_extensions() {
            Ok(available) => available,
            Err(e) => {
                return Err(e);
            },
        };
        let required = match instance_request(&available, &app_info, exts, backend) {
            Ok(required) => required,
            Err(e) => {
                return Err(e);
            },
        };
        let outcome = {
            let native_info = native_app_info(&app_info);
            proof {
                reveal_strlit("Bevy");
                is_ascii_spec_bytes(ENGINE_NAME);
            }
            self.0.create_instance(&native_info, &required.0, layers)
        };
        XrInstance::from_native(outcome, backend, app_info)
    }
}

/// Decides whether the runtime is asked for an instance, and with which
/// extensions.
///
/// The backend comes first: where the runtime does not offer its extension,
/// the request is refused whatever the application is called. Then the name:
/// where it is longer than the runtime takes, the request is refused. Else
/// the runtime is asked, with the extensions that were asked for and the one
/// that the backend requires.
pub fn instance_request(
    available: &XrExtensions,
    app_info: &AppInfo,
    requested: XrExtensions,
    backend: GraphicsBackend,
) -> (r: Result<XrExtensions, XrError>)
    ensures
        match r {
            Ok(exts) => {
                &&& backend.available_in(available)
                &&& app_info.name_fits()
                &&& forall|b: GraphicsBackend|
                    #[trigger] exts.enables(b) == (requested.enables(b) || b == backend)
                &&& exts.backends() == requested.backends().insert(backend)
                &&& exts.same_device_extensions(&requested)
            },
            Err(e) => if backend.available_in(available) {
                !app_info.name_fits() && e == XrError::ApplicationNameTooLong
            } else {
                e == XrError::UnavailableBackend(backend)
            },
        },
{
    let exts = match instance_extensions(available, requested, backend) {
        Ok(exts) => exts,
        Err(e) => {
            return Err(e);
        },
    };
    match app_info.check_name() {
        Ok(_) => Ok(exts),
        Err(e) => Err(e),
    }
}

/// What the runtime is told of the application: its name and its version as
/// they are, and the engine's name and version.
pub fn native_app_info(app_info: &AppInfo) -> (r: openxr::ApplicationInfo<'_>)
    ensures
        r.application_name@ == app_info.name@,
        r.application_version == app_info.version.packed(),
        r.engine_name@ == ENGINE_NAME@,
        r.engine_version == (Version { major: 0, minor: 13, patch: 0 }).packed(),
{
    openxr::ApplicationInfo {
        application_name: app_info.name.as_str(),
        application_version: app_info.version.to_u32(),
        engine_name: ENGINE_NAME,
        engine_version: engine_version().to_u32(),
    }
}

/// What asking for the extensions comes to, for each answer of the runtime:
/// the set it offers, as it is, or its error.
pub fn offered_extensions(outcome: Result<openxr::ExtensionSet, openxr::sys::Result>) -> (r: Result<
    XrExtensions,
    XrError,
>)
    ensures
        r == match outcome {
            Ok(set) => Ok::<XrExtensions, XrError>(XrExtensions(set)),
            Err(status) => Err(XrError::OpenXrError(status)),
        },
{
    match outcome {
        Ok(set) => Ok(XrExtensions(set)),
        Err(status) => Err(XrError::OpenXrError(status)),
    }
}

} // verus!
