use bevy_openxr::app_info::AppInfo;
use bevy_openxr::app_info::Version;
use bevy_openxr::backend::GraphicsBackend;
use bevy_openxr::entry::engine_version;
use bevy_openxr::entry::instance_extensions;
use bevy_openxr::entry::instance_request;
use bevy_openxr::entry::native_app_info;
use bevy_openxr::entry::offered_extensions;
use bevy_openxr::entry::ENGINE_NAME;
use bevy_openxr::error::XrError;
use bevy_openxr::extensions::XrExtensions;
use bevy_openxr::instance::XrInstance;

fn offering(vulkan: bool, opengl: bool) -> XrExtensions {
    let mut set = openxr::ExtensionSet::default();
    set.khr_vulkan_enable2 = vulkan;
    set.khr_opengl_enable = opengl;
    XrExtensions(set)
}

#[test]
fn engine_is_named() {
    assert_eq!(ENGINE_NAME, "Bevy");
    assert_eq!(engine_version(), Version::new(0, 13, 0));
}

#[test]
fn instance_is_refused_without_the_backends_extension() {
    let available = offering(false, true);
    let requested = XrExtensions(openxr::ExtensionSet::default());
    match instance_extensions(&available, requested, GraphicsBackend::Vulkan) {
        Err(e) => assert_eq!(e, XrError::UnavailableBackend(GraphicsBackend::Vulkan)),
        Ok(_) => panic!("the runtime does not offer Vulkan"),
    }
}

#[test]
fn instance_is_refused_for_each_backend_that_is_not_offered() {
    for backend in GraphicsBackend::all() {
        let requested = XrExtensions(openxr::ExtensionSet::default());
        match instance_extensions(&offering(false, false), requested, backend) {
            Err(e) => assert_eq!(e, XrError::UnavailableBackend(backend)),
            Ok(_) => panic!("the runtime offers nothing"),
        }
    }
}

#[test]
fn request_is_not_counted_as_offer() {
    let available = offering(false, false);
    let requested = offering(true, true);
    match instance_extensions(&available, requested, GraphicsBackend::OpenGl) {
        Err(e) => assert_eq!(e, XrError::UnavailableBackend(GraphicsBackend::OpenGl)),
        Ok(_) => panic!("the runtime offers nothing"),
    }
}

#[test]
fn empty_request_gets_the_backends_extension() {
    let mut set = openxr::ExtensionSet::default();
    set.khr_vulkan_enable2 = true;
    set.ext_hand_tracking = true;
    let available = XrExtensions(set);
    let requested = XrExtensions(openxr::ExtensionSet::default());
    let exts = match instance_extensions(&available, requested, GraphicsBackend::Vulkan) {
        Ok(exts) => exts,
        Err(_) => panic!("the runtime offers Vulkan"),
    };
    let mut expected = openxr::ExtensionSet::default();
    expected.khr_vulkan_enable2 = true;
    assert_eq!(exts.0, expected);
}

#[test]
fn request_is_united_with_the_backends_extension() {
    let available = offering(true, true);
    let mut set = openxr::ExtensionSet::default();
    set.fb_passthrough = true;
    set.khr_vulkan_enable2 = true;
    set.other = vec![String::from("XR_VENDOR_made_up")];
    let requested = XrExtensions(set.clone());
    let exts = match instance_extensions(&available, requested, GraphicsBackend::OpenGl) {
        Ok(exts) => exts,
        Err(_) => panic!("the runtime offers OpenGL"),
    };
    let mut expected = set;
    expected.khr_opengl_enable = true;
    assert_eq!(exts.0, expected);
}

#[test]
fn runtime_error_is_handed_on_when_the_instance_is_bound() {
    let app_info = AppInfo { name: String::from("demo"), version: Version::new(1, 2, 3) };
    let outcome = Err(openxr::sys::Result::ERROR_RUNTIME_FAILURE);
    match XrInstance::from_native(outcome, GraphicsBackend::Vulkan, app_info) {
        Err(e) => assert_eq!(e, XrError::OpenXrError(openxr::sys::Result::ERROR_RUNTIME_FAILURE)),
        Ok(_) => panic!("the runtime failed"),
    }
}

#[test]
fn offered_set_is_handed_on_as_it_is() {
    let mut set = openxr::ExtensionSet::default();
    set.khr_opengl_enable = true;
    set.ext_hand_tracking = true;
    match offered_extensions(Ok(set.clone())) {
        Ok(exts) => assert_eq!(exts.0, set),
        Err(_) => panic!("the runtime answered"),
    }
}

#[test]
fn failed_enumeration_is_handed_on() {
    match offered_extensions(Err(openxr::sys::Result::ERROR_RUNTIME_UNAVAILABLE)) {
        Err(e) => assert_eq!(
            e,
            XrError::OpenXrError(openxr::sys::Result::ERROR_RUNTIME_UNAVAILABLE)
        ),
        Ok(_) => panic!("the runtime failed"),
    }
}

fn app(name: String) -> AppInfo {
    AppInfo { name, version: Version::new(1, 2, 3) }
}

#[test]
fn unavailable_backend_is_reported_whatever_the_name() {
    let available = offering(false, true);
    for name in [String::from("demo"), "a".repeat(500)] {
        let requested = XrExtensions(openxr::ExtensionSet::default());
        match instance_request(&available, &app(name), requested, GraphicsBackend::Vulkan) {
            Err(e) => assert_eq!(e, XrError::UnavailableBackend(GraphicsBackend::Vulkan)),
            Ok(_) => panic!("the runtime does not offer Vulkan"),
        }
    }
}

#[test]
fn name_that_is_too_long_is_refused_where_the_backend_is_offered() {
    let available = offering(true, true);
    let requested = XrExtensions(openxr::ExtensionSet::default());
    match instance_request(&available, &app("a".repeat(128)), requested, GraphicsBackend::Vulkan) {
        Err(e) => assert_eq!(e, XrError::ApplicationNameTooLong),
        Ok(_) => panic!("the name is too long"),
    }
}

#[test]
fn request_with_a_fitting_name_and_an_offered_backend() {
    let available = offering(true, false);
    let mut set = openxr::ExtensionSet::default();
    set.ext_hand_tracking = true;
    let requested = XrExtensions(set.clone());
    let name = "a".repeat(127);
    let exts = match instance_request(&available, &app(name), requested, GraphicsBackend::Vulkan) {
        Ok(exts) => exts,
        Err(_) => panic!("the runtime offers Vulkan and the name fits"),
    };
    let mut expected = set;
    expected.khr_vulkan_enable2 = true;
    assert_eq!(exts.0, expected);
}

#[test]
fn name_is_checked_on_its_own() {
    assert_eq!(app(String::from("demo")).check_name(), Ok(()));
    assert_eq!(app("a".repeat(127)).check_name(), Ok(()));
    assert_eq!(app("a".repeat(128)).check_name(), Err(XrError::ApplicationNameTooLong));
}

#[test]
fn runtime_is_told_name_and_versions() {
    let info = app(String::from("demo"));
    let native = native_app_info(&info);
    assert_eq!(native.application_name, "demo");
    assert_eq!(native.application_version, 0x0102_0003);
    assert_eq!(native.engine_name, "Bevy");
    assert_eq!(native.engine_version, 0x000d_0000);
}
