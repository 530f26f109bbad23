use bevy_openxr::backend::GraphicsBackend;
use bevy_openxr::extensions::XrExtensions;

#[test]
fn empty_set_enables_no_backend() {
    let exts = XrExtensions(openxr::ExtensionSet::default());
    assert!(!exts.has_backend(GraphicsBackend::Vulkan));
    assert!(!exts.has_backend(GraphicsBackend::OpenGl));
}

#[test]
fn require_backend_sets_only_that_extension() {
    let mut exts = XrExtensions(openxr::ExtensionSet::default());
    exts.require_backend(GraphicsBackend::Vulkan);
    let mut expected = openxr::ExtensionSet::default();
    expected.khr_vulkan_enable2 = true;
    assert_eq!(exts.0, expected);
    assert!(exts.has_backend(GraphicsBackend::Vulkan));
    assert!(!exts.has_backend(GraphicsBackend::OpenGl));
}

#[test]
fn require_backend_keeps_the_other_extensions() {
    let mut set = openxr::ExtensionSet::default();
    set.ext_hand_tracking = true;
    set.khr_composition_layer_depth = true;
    set.khr_vulkan_enable = true;
    set.other = vec![String::from("XR_VENDOR_made_up")];
    let mut exts = XrExtensions(set.clone());
    exts.require_backend(GraphicsBackend::OpenGl);
    let mut expected = set;
    expected.khr_opengl_enable = true;
    assert_eq!(exts.0, expected);
}

#[test]
fn require_backend_twice_is_as_once() {
    let mut once = XrExtensions(openxr::ExtensionSet::default());
    once.require_backend(GraphicsBackend::OpenGl);
    let mut twice = XrExtensions(openxr::ExtensionSet::default());
    twice.require_backend(GraphicsBackend::OpenGl);
    twice.require_backend(GraphicsBackend::OpenGl);
    assert_eq!(once.0, twice.0);
}

#[test]
fn require_both_backends() {
    let mut exts = XrExtensions(openxr::ExtensionSet::default());
    exts.require_backend(GraphicsBackend::OpenGl);
    exts.require_backend(GraphicsBackend::Vulkan);
    assert!(exts.has_backend(GraphicsBackend::Vulkan));
    assert!(exts.has_backend(GraphicsBackend::OpenGl));
}
