use bevy_openxr::backend::GraphicsBackend;
use bevy_openxr::error::XrError;
use bevy_openxr::app_info::AppInfo;
use bevy_openxr::app_info::Version;
use bevy_openxr::instance::open_session;
use bevy_openxr::instance::OpenGlInit;
use bevy_openxr::instance::VulkanInit;
use bevy_openxr::session::XrSessionGraphicsInfo;
use bevy_openxr::wrap::GraphicsWrap;

fn vulkan_info() -> XrSessionGraphicsInfo {
    XrSessionGraphicsInfo(GraphicsWrap::Vulkan(openxr::vulkan::SessionCreateInfo {
        instance: std::ptr::null(),
        physical_device: std::ptr::null(),
        device: std::ptr::null(),
        queue_family_index: 3,
        queue_index: 1,
    }))
}

fn opengl_info() -> XrSessionGraphicsInfo {
    XrSessionGraphicsInfo(GraphicsWrap::OpenGl(openxr::opengl::SessionCreateInfo::Wayland {
        display: std::ptr::null_mut(),
    }))
}

#[test]
fn graphics_info_is_tagged_by_its_variant() {
    assert_eq!(vulkan_info().backend(), GraphicsBackend::Vulkan);
    assert_eq!(opengl_info().backend(), GraphicsBackend::OpenGl);
}

#[test]
fn session_with_foreign_handles_is_refused() {
    let system_id = openxr::SystemId::from_raw(7);
    match open_session(GraphicsBackend::Vulkan, system_id, opengl_info()) {
        Err(e) => assert_eq!(
            e,
            XrError::GraphicsBackendMismatch {
                expected: GraphicsBackend::Vulkan,
                actual: GraphicsBackend::OpenGl,
            }
        ),
        Ok(_) => panic!("the handles belong to another backend"),
    }
    match open_session(GraphicsBackend::OpenGl, system_id, vulkan_info()) {
        Err(e) => assert_eq!(
            e,
            XrError::GraphicsBackendMismatch {
                expected: GraphicsBackend::OpenGl,
                actual: GraphicsBackend::Vulkan,
            }
        ),
        Ok(_) => panic!("the handles belong to another backend"),
    }
}

#[test]
fn session_with_matching_handles_is_ordered() {
    let system_id = openxr::SystemId::from_raw(7);
    match open_session(GraphicsBackend::Vulkan, system_id, vulkan_info()) {
        Ok(GraphicsWrap::Vulkan(request)) => {
            assert!(request.system_id == system_id);
            assert_eq!(request.info.queue_family_index, 3);
            assert_eq!(request.info.queue_index, 1);
        }
        _ => panic!("the handles belong to the instance's backend"),
    }
    match open_session(GraphicsBackend::OpenGl, system_id, opengl_info()) {
        Ok(GraphicsWrap::OpenGl(request)) => assert!(request.system_id == system_id),
        _ => panic!("the handles belong to the instance's backend"),
    }
}

#[test]
fn failed_session_is_handed_on() {
    let system_id = openxr::SystemId::from_raw(7);
    let request = match open_session(GraphicsBackend::Vulkan, system_id, vulkan_info()) {
        Ok(GraphicsWrap::Vulkan(request)) => request,
        _ => panic!("the handles belong to the instance's backend"),
    };
    match request.finish(Err(openxr::sys::Result::ERROR_GRAPHICS_DEVICE_INVALID)) {
        Err(e) => assert_eq!(
            e,
            XrError::OpenXrError(openxr::sys::Result::ERROR_GRAPHICS_DEVICE_INVALID)
        ),
        Ok(_) => panic!("the runtime failed"),
    }
}

#[test]
fn prepared_device_is_wrapped_under_its_backend() {
    let app_info = AppInfo { name: String::from("demo"), version: Version::new(1, 0, 0) };
    let system_id = openxr::SystemId::from_raw(2);
    let handles = match vulkan_info().0 {
        GraphicsWrap::Vulkan(handles) => handles,
        GraphicsWrap::OpenGl(_) => panic!("the handles are Vulkan's"),
    };
    let order = VulkanInit { system_id, app_info: &app_info };
    match order.finish::<&str, XrError>(Ok(("device", handles))) {
        Ok((device, info)) => {
            assert_eq!(device, "device");
            assert_eq!(info.backend(), GraphicsBackend::Vulkan);
        }
        Err(_) => panic!("the preparation succeeded"),
    }
    let handles = match opengl_info().0 {
        GraphicsWrap::OpenGl(handles) => handles,
        GraphicsWrap::Vulkan(_) => panic!("the handles are OpenGL's"),
    };
    let order = OpenGlInit { system_id, app_info: &app_info };
    match order.finish::<&str, XrError>(Ok(("device", handles))) {
        Ok((device, info)) => {
            assert_eq!(device, "device");
            assert_eq!(info.backend(), GraphicsBackend::OpenGl);
        }
        Err(_) => panic!("the preparation succeeded"),
    }
}

#[test]
fn failed_opengl_session_is_handed_on() {
    let system_id = openxr::SystemId::from_raw(7);
    let request = match open_session(GraphicsBackend::OpenGl, system_id, opengl_info()) {
        Ok(GraphicsWrap::OpenGl(request)) => request,
        _ => panic!("the handles belong to the instance's backend"),
    };
    match request.finish(Err(openxr::sys::Result::ERROR_LIMIT_REACHED)) {
        Err(e) => assert_eq!(e, XrError::OpenXrError(openxr::sys::Result::ERROR_LIMIT_REACHED)),
        Ok(_) => panic!("the runtime failed"),
    }
}
