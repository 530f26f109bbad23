use bevy_openxr::backend::GraphicsBackend;
use bevy_openxr::extensions::XrExtensions;

fn offering(vulkan: bool, opengl: bool) -> XrExtensions {
    let mut set = openxr::ExtensionSet::default();
    set.khr_vulkan_enable2 = vulkan;
    set.khr_opengl_enable = opengl;
    XrExtensions(set)
}

#[test]
fn all_backends_in_order() {
    assert_eq!(
        GraphicsBackend::all(),
        vec![GraphicsBackend::Vulkan, GraphicsBackend::OpenGl]
    );
}

#[test]
fn backend_names() {
    assert_eq!(GraphicsBackend::Vulkan.graphics_name(), "Vulkan");
    assert_eq!(GraphicsBackend::OpenGl.graphics_name(), "OpenGL");
}

#[test]
fn backend_is_available_with_its_extension() {
    let exts = offering(true, false);
    assert!(GraphicsBackend::Vulkan.is_available(&exts));
    assert!(!GraphicsBackend::OpenGl.is_available(&exts));
}

#[test]
fn legacy_vulkan_extension_does_not_enable_vulkan() {
    let mut set = openxr::ExtensionSet::default();
    set.khr_vulkan_enable = true;
    set.khr_opengl_es_enable = true;
    let exts = XrExtensions(set);
    assert!(!GraphicsBackend::Vulkan.is_available(&exts));
    assert!(!GraphicsBackend::OpenGl.is_available(&exts));
    assert!(GraphicsBackend::available_backends(&exts).is_empty());
}

#[test]
fn available_backends_none() {
    assert_eq!(GraphicsBackend::available_backends(&offering(false, false)), vec![]);
}

#[test]
fn available_backends_one() {
    assert_eq!(
        GraphicsBackend::available_backends(&offering(false, true)),
        vec![GraphicsBackend::OpenGl]
    );
    assert_eq!(
        GraphicsBackend::available_backends(&offering(true, false)),
        vec![GraphicsBackend::Vulkan]
    );
}

#[test]
fn available_backends_keep_the_order_of_the_list() {
    assert_eq!(
        GraphicsBackend::available_backends(&offering(true, true)),
        vec![GraphicsBackend::Vulkan, GraphicsBackend::OpenGl]
    );
}

#[test]
fn runtime_with_two_extensions_offers_the_backend_that_needs_one() {
    let mut set = openxr::ExtensionSet::default();
    set.khr_vulkan_enable2 = true;
    set.ext_hand_tracking = true;
    let exts = XrExtensions(set);
    let offered = GraphicsBackend::available_backends(&exts);
    assert!(offered.contains(&GraphicsBackend::Vulkan));
    assert!(!offered.contains(&GraphicsBackend::OpenGl));
}

#[test]
fn each_backend_names_the_extension_it_requires() {
    assert_eq!(GraphicsBackend::Vulkan.required_extension(), "XR_KHR_vulkan_enable2");
    assert_eq!(GraphicsBackend::OpenGl.required_extension(), "XR_KHR_opengl_enable");
}
